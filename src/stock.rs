//! A stock whose price follows geometric Brownian motion, and the checks that a
//! request for one of its simulated paths must pass.
use crate::error::PricingError;
use crate::utils::{NonNegativeFloat, TimeStamp};
use vstd::prelude::*;

verus! {

/// The price of a stock observed at one time.
#[derive(Clone, Copy, Debug, PartialEq, Eq, Structural)]
pub struct StockState {
    value: NonNegativeFloat,
    time: TimeStamp,
}

impl StockState {
    /// The observed price.
    pub closed spec fn spec_value(&self) -> NonNegativeFloat {
        self.value
    }

    /// The time of the observation.
    pub closed spec fn spec_time(&self) -> TimeStamp {
        self.time
    }

    /// The state of price `value` at `time`.
    pub fn new(value: NonNegativeFloat, time: TimeStamp) -> (r: StockState)
        ensures
            r.get_value() == value,
            r.get_time() == time,
    {
        StockState { value, time }
    }

    #[verifier::when_used_as_spec(spec_value)]
    pub fn get_value(&self) -> (r: NonNegativeFloat)
        ensures
            r == self.spec_value(),
    {
        self.value
    }

    #[verifier::when_used_as_spec(spec_time)]
    pub fn get_time(&self) -> (r: TimeStamp)
        ensures
            r == self.spec_time(),
    {
        self.time
    }
}

/// Each time stamp is strictly later than every one before it.
pub open spec fn strictly_increasing(s: Seq<TimeStamp>) -> bool {
    forall|i: int, j: int| 0 <= i < j < s.len() ==> s[i]@ < s[j]@
}

/// Whether the time stamps of `s` are strictly increasing.
pub fn is_strictly_increasing(s: &Vec<TimeStamp>) -> (r: bool)
    ensures
        r == strictly_increasing(s@),
{
    if s.len() == 0 {
        return true;
    }
    let mut i: usize = 1;
    while i < s.len()
        invariant
            1 <= i <= s.len(),
            strictly_increasing(s@.subrange(0, i as int)),
        decreases s.len() - i,
    {
        if !s[i - 1].lt(&s[i]) {
            return false;
        }
        assert forall|a: int, b: int| 0 <= a < b < i + 1 implies s@[a]@ < s@[b]@ by {
            if b < i {
                assert(s@.subrange(0, i as int)[a] == s@[a]);
                assert(s@.subrange(0, i as int)[b] == s@[b]);
            } else if a < i - 1 {
                assert(s@.subrange(0, i as int)[a] == s@[a]);
                assert(s@.subrange(0, i as int)[i - 1] == s@[i - 1]);
            }
        }
        i = i + 1;
    }
    assert(s@.subrange(0, s.len() as int) == s@);
    true
}

/// A list of time stamps that a path starting at `start` can be simulated at:
/// not empty, not before `start`, and strictly increasing.
pub open spec fn valid_time_stamps(start: TimeStamp, s: Seq<TimeStamp>) -> bool {
    &&& s.len() > 0
    &&& start@ <= s[0]@
    &&& strictly_increasing(s)
}

/// The verdict on a grid of times from `begin` by `step` up to `end`: `end`
/// must lie after `begin`, and the step must not be zero.
pub open spec fn grid_check(begin: TimeStamp, step: NonNegativeFloat, end: TimeStamp) -> Result<
    (),
    PricingError,
> {
    if end@ <= begin@ {
        Err(PricingError::InvalidPathRequest)
    } else if step@ == 0 {
        Err(PricingError::InvalidParameter)
    } else {
        Ok(())
    }
}

/// Checks the bounds and the step of a grid of times from `begin` by `step` up to `end`.
pub fn check_grid(begin: TimeStamp, step: NonNegativeFloat, end: TimeStamp) -> (r: Result<
    (),
    PricingError,
>)
    ensures
        r == grid_check(begin, step, end),
{
    if end.le(&begin) {
        Err(PricingError::InvalidPathRequest)
    } else if step.to_bits() == 0 {
        Err(PricingError::InvalidParameter)
    } else {
        Ok(())
    }
}

/// A stock whose price follows geometric Brownian motion with constant drift,
/// volatility and dividend rate.
#[derive(Clone, Copy, Debug)]
pub struct GeometricBrownianMotionStock {
    /// The price at `current_time`.
    price: NonNegativeFloat,
    /// The time at which `price` was observed; it never moves backwards.
    current_time: TimeStamp,
    /// The IEEE-754 bit pattern of the drift, which may be negative.
    drift_bits: u64,
    volatility: NonNegativeFloat,
    divident_rate: NonNegativeFloat,
}

impl GeometricBrownianMotionStock {
    pub closed spec fn spec_price(&self) -> NonNegativeFloat {
        self.price
    }

    pub closed spec fn spec_current_time(&self) -> TimeStamp {
        self.current_time
    }

    /// The current price and the time at which it holds.
    pub closed spec fn spec_current_state(&self) -> StockState {
        StockState { value: self.price, time: self.current_time }
    }

    pub proof fn lemma_current_state(&self)
        ensures
            self.spec_current_state().get_value() == self.spec_price(),
            self.spec_current_state().get_time() == self.spec_current_time(),
    {
    }

    pub closed spec fn spec_drift_bits(&self) -> u64 {
        self.drift_bits
    }

    pub closed spec fn spec_volatility(&self) -> NonNegativeFloat {
        self.volatility
    }

    pub closed spec fn spec_divident_rate(&self) -> NonNegativeFloat {
        self.divident_rate
    }

    /// A stock priced at `price` at `current_time`; `drift_bits` is the bit
    /// pattern of the drift.
    pub fn new(
        price: NonNegativeFloat,
        current_time: TimeStamp,
        drift_bits: u64,
        volatility: NonNegativeFloat,
        divident_rate: NonNegativeFloat,
    ) -> (r: GeometricBrownianMotionStock)
        ensures
            r.spec_price() == price,
            r.spec_current_time() == current_time,
            r.spec_drift_bits() == drift_bits,
            r.spec_volatility() == volatility,
            r.spec_divident_rate() == divident_rate,
    {
        GeometricBrownianMotionStock { price, current_time, drift_bits, volatility, divident_rate }
    }

    pub fn get_volatility(&self) -> (r: NonNegativeFloat)
        ensures
            r == self.spec_volatility(),
    {
        self.volatility
    }

    pub fn get_divident_rate(&self) -> (r: NonNegativeFloat)
        ensures
            r == self.spec_divident_rate(),
    {
        self.divident_rate
    }

    /// The bit pattern of the drift.
    pub fn get_drift_bits(&self) -> (r: u64)
        ensures
            r == self.spec_drift_bits(),
    {
        self.drift_bits
    }

    /// The current price and the time at which it holds.
    pub fn get_current_state(&self) -> (r: StockState)
        ensures
            r == self.spec_current_state(),
            r.get_value() == self.spec_price(),
            r.get_time() == self.spec_current_time(),
    {
        StockState::new(self.price, self.current_time)
    }

    /// Moves the stock to the later state `price` at `time`; the parameters stay.
    pub fn advance(&mut self, price: NonNegativeFloat, time: TimeStamp)
        requires
            old(self).spec_current_time()@ <= time@,
        ensures
            final(self).spec_price() == price,
            final(self).spec_current_time() == time,
            final(self).spec_drift_bits() == old(self).spec_drift_bits(),
            final(self).spec_volatility() == old(self).spec_volatility(),
            final(self).spec_divident_rate() == old(self).spec_divident_rate(),
    {
        self.price = price;
        self.current_time = time;
    }

    /// Checks a request for a path at `time_stamps` with `n_samples` normal samples:
    /// it passes when there is a sample for each time stamp and the time stamps are
    /// valid from the current time on.
    pub fn check_time_stamps(&self, n_samples: usize, time_stamps: &Vec<TimeStamp>) -> (r: Result<
        (),
        PricingError,
    >)
        ensures
            r is Ok <==> (time_stamps.len() <= n_samples && valid_time_stamps(
                self.spec_current_time(),
                time_stamps@,
            )),
            r is Err ==> r == Err::<(), PricingError>(PricingError::InvalidPathRequest),
    {
        if n_samples < time_stamps.len() || time_stamps.len() == 0 {
            return Err(PricingError::InvalidPathRequest);
        }
        if time_stamps[0].lt(&self.current_time) {
            return Err(PricingError::InvalidPathRequest);
        }
        if !is_strictly_increasing(time_stamps) {
            return Err(PricingError::InvalidPathRequest);
        }
        Ok(())
    }

    /// Checks a request for a path on the grid that starts at `begin` and moves by
    /// `step` up to `end`: `begin` may not lie before the current time, `end` must
    /// lie after `begin`, and the step must not be zero.
    pub fn check_step_request(&self, begin: TimeStamp, step: NonNegativeFloat, end: TimeStamp) -> (r:
        Result<(), PricingError>)
        ensures
            r == (if begin@ < self.spec_current_time()@ {
                Err(PricingError::InvalidPathRequest)
            } else {
                grid_check(begin, step, end)
            }),
    {
        if begin.lt(&self.current_time) {
            Err(PricingError::InvalidPathRequest)
        } else {
            check_grid(begin, step, end)
        }
    }
}

} // verus!
