//! Building blocks for pricing derivative securities by Monte Carlo simulation
//! of an underlying that follows geometric Brownian motion.
//!
//! Scalars are held as the IEEE-754 bit patterns of non-negative doubles: for such
//! values the order of the bit patterns is the numeric order, so every decision on
//! time stamps (validity of a path request, expiry, the monitoring schedule of an
//! Asian option, the bracketing used for interpolation) is made and proved here on
//! plain integers.

mod error;
pub mod option;
pub mod stock;
pub mod utils;

pub use error::PricingError;
