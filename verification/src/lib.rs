//! Incrementally updatable technical-analysis indicators over an exact
//! decimal scalar type.
//!
//! Every indicator consumes one observation at a time and produces an
//! updated statistic in bounded memory, independent of how many
//! observations have been seen. Indicators expose a uniform protocol:
//! [`Next::next`] advances the state by one observation, [`Reset::reset`]
//! restores the exact post-construction state, and [`Period::period`]
//! reports the window length or smoothing horizon the indicator was built
//! with.

pub mod decimal;
pub mod errors;
pub mod helpers;
pub mod indicators;

mod data_item;
mod traits;

pub use crate::data_item::Candle;
pub use crate::data_item::CandleBuilder;
pub use crate::decimal::Dec;
pub use crate::traits::{Close, High, Low, Next, Open, Period, Reset, Volume};
