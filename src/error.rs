use vstd::prelude::*;

verus! {

/// The ways in which a construction or a pricing request can be refused.
#[derive(Clone, Copy, Debug, PartialEq, Eq, Structural)]
pub enum PricingError {
    /// A scalar that must be non-negative was negative or NaN, or a step size was zero.
    InvalidParameter,
    /// A time-stamp vector was empty or not increasing, started before the
    /// underlying's current time, or came with too few samples.
    InvalidPathRequest,
    /// The option's expiry lies before the underlying's current time.
    OptionExpired,
}

} // verus!
