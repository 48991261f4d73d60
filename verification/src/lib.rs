//! A synthetic load-pattern generator: a per-second timeline of target request
//! rates with a drifting baseline, decaying traffic spikes and local noise, and
//! a calibration that tunes the generator towards a target average rate.
//!
//! Rates are whole requests per second. Fractions (probabilities, spike
//! magnitudes, the base level) are held in fixed point, in millionths.
//!
//! A generator is made with [`LoadPattern::new`], tuned with
//! [`LoadPattern::calibrate`] and asked for its rates with
//! [`LoadPattern::generate_timeline`]. Every second draws its random words
//! from a generator of `rand` that is seeded with the second, so a timeline
//! depends on nothing but the state of the generator it is asked of.
//!
//! - `sampling` holds the model: the state as plain integers and the rule
//!   that takes a state, a second and its random words to a rate.
//! - `pattern` holds the generator itself, `calibration` its tuning.
//! - `laws` holds what is proved of every generator.
//! - `random` holds what is taken from `rand`, `fixed` and `series` the
//!   arithmetic.
//! - `latency` and `models` hold the records of a latency test.

pub mod calibration;
pub mod fixed;
pub mod latency;
pub mod laws;
pub mod models;
pub mod pattern;
pub mod random;
pub mod sampling;
pub mod series;

pub use crate::pattern::InvalidBounds;
pub use crate::pattern::LoadPattern;
