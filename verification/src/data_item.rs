//! The immutable observation record and its checked builder.
//!
//! A [`Candle`] carries a timestamp and the five price/volume fields.
//! Indicators never receive one directly: they read it through the
//! capability traits, so any record type exposing the right subset works
//! just as well. The builder rejects a record with a missing field, or
//! one whose fields contradict each other.

use crate::decimal::{le_num, dec_le, Dec};
use crate::errors::TaError;
use crate::traits::{Close, High, Low, Open, Volume};
use vstd::prelude::*;

verus! {

/// One observation: a timestamped price bar with volume.
#[derive(Clone, Copy, Debug)]
pub struct Candle {
    /// The observation's timestamp, as the caller counts time.
    pub datetime: i64,
    /// Opening price of the period.
    pub open: Dec,
    /// Highest price of the period.
    pub high: Dec,
    /// Lowest price of the period.
    pub low: Dec,
    /// Closing price of the period.
    pub close: Dec,
    /// Traded volume of the period.
    pub volume: Dec,
}

impl Candle {
    /// A fresh builder with no field set.
    pub fn builder() -> (r: CandleBuilder)
        ensures
            r == CandleBuilder::empty(),
    {
        CandleBuilder::new()
    }

    /// The observation's timestamp.
    pub fn datetime(&self) -> (r: i64)
        ensures
            r == self.datetime,
    {
        self.datetime
    }
}

impl Open for Candle {
    open spec fn open_spec(&self) -> Dec {
        self.open
    }

    fn open(&self) -> (r: Dec) {
        self.open
    }
}

impl High for Candle {
    open spec fn high_spec(&self) -> Dec {
        self.high
    }

    fn high(&self) -> (r: Dec) {
        self.high
    }
}

impl Low for Candle {
    open spec fn low_spec(&self) -> Dec {
        self.low
    }

    fn low(&self) -> (r: Dec) {
        self.low
    }
}

impl Close for Candle {
    open spec fn close_spec(&self) -> Dec {
        self.close
    }

    fn close(&self) -> (r: Dec) {
        self.close
    }
}

impl Volume for Candle {
    open spec fn volume_spec(&self) -> Dec {
        self.volume
    }

    fn volume(&self) -> (r: Dec) {
        self.volume
    }
}

/// Collects the fields of a [`Candle`] one call at a time, then checks
/// them all at once.
#[derive(Clone, Copy, Debug)]
pub struct CandleBuilder {
    /// The timestamp, once set.
    pub time: Option<i64>,
    /// The opening price, once set.
    pub open: Option<Dec>,
    /// The highest price, once set.
    pub high: Option<Dec>,
    /// The lowest price, once set.
    pub low: Option<Dec>,
    /// The closing price, once set.
    pub close: Option<Dec>,
    /// The traded volume, once set.
    pub volume: Option<Dec>,
}

impl CandleBuilder {
    /// The builder with no field set.
    pub open spec fn empty() -> CandleBuilder {
        CandleBuilder { time: None, open: None, high: None, low: None, close: None, volume: None }
    }

    /// Whether every field has been supplied.
    pub open spec fn complete(self) -> bool {
        self.time is Some && self.open is Some && self.high is Some && self.low is Some
            && self.close is Some && self.volume is Some
    }

    /// Whether the supplied fields agree with each other: the low at or
    /// under open, close and high; the high at or over open and close;
    /// the volume not negative.
    pub open spec fn consistent(self) -> bool {
        &&& le_num(self.low->Some_0, self.open->Some_0)
        &&& le_num(self.low->Some_0, self.close->Some_0)
        &&& le_num(self.low->Some_0, self.high->Some_0)
        &&& le_num(self.open->Some_0, self.high->Some_0)
        &&& le_num(self.close->Some_0, self.high->Some_0)
        &&& le_num(Dec::from_spec(0, 1), self.volume->Some_0)
    }

    /// The record the builder would produce, were it complete and
    /// consistent.
    pub open spec fn assembled(self) -> Candle {
        Candle {
            datetime: self.time->Some_0,
            open: self.open->Some_0,
            high: self.high->Some_0,
            low: self.low->Some_0,
            close: self.close->Some_0,
            volume: self.volume->Some_0,
        }
    }

    /// A fresh builder with no field set.
    pub fn new() -> (r: CandleBuilder)
        ensures
            r == CandleBuilder::empty(),
    {
        CandleBuilder { time: None, open: None, high: None, low: None, close: None, volume: None }
    }

    /// Sets the timestamp.
    pub fn time(self, time: i64) -> (r: CandleBuilder)
        ensures
            r == (CandleBuilder { time: Some(time), ..self }),
    {
        CandleBuilder { time: Some(time), ..self }
    }

    /// Sets the opening price.
    pub fn open(self, val: Dec) -> (r: CandleBuilder)
        ensures
            r == (CandleBuilder { open: Some(val), ..self }),
    {
        CandleBuilder { open: Some(val), ..self }
    }

    /// Sets the highest price.
    pub fn high(self, val: Dec) -> (r: CandleBuilder)
        ensures
            r == (CandleBuilder { high: Some(val), ..self }),
    {
        CandleBuilder { high: Some(val), ..self }
    }

    /// Sets the lowest price.
    pub fn low(self, val: Dec) -> (r: CandleBuilder)
        ensures
            r == (CandleBuilder { low: Some(val), ..self }),
    {
        CandleBuilder { low: Some(val), ..self }
    }

    /// Sets the closing price.
    pub fn close(self, val: Dec) -> (r: CandleBuilder)
        ensures
            r == (CandleBuilder { close: Some(val), ..self }),
    {
        CandleBuilder { close: Some(val), ..self }
    }

    /// Sets the traded volume.
    pub fn volume(self, val: Dec) -> (r: CandleBuilder)
        ensures
            r == (CandleBuilder { volume: Some(val), ..self }),
    {
        CandleBuilder { volume: Some(val), ..self }
    }

    /// Checks the collected fields and hands the record out: a missing
    /// field is reported before anything else, then fields that
    /// contradict each other; a complete and consistent builder always
    /// succeeds.
    pub fn build(self) -> (r: Result<Candle, TaError>)
        ensures
            !self.complete() ==> r == Err::<Candle, TaError>(TaError::DataItemIncomplete),
            self.complete() && !self.consistent() ==> r == Err::<Candle, TaError>(TaError::DataItemInvalid),
            self.complete() && self.consistent() ==> r == Ok::<Candle, TaError>(self.assembled()),
    {
        match (self.time, self.open, self.high, self.low, self.close, self.volume) {
            (Some(time), Some(open), Some(high), Some(low), Some(close), Some(volume)) => {
                let zero = Dec::new(0, 1);
                if dec_le(&low, &open) && dec_le(&low, &close) && dec_le(&low, &high) && dec_le(
                    &open,
                    &high,
                ) && dec_le(&close, &high) && dec_le(&zero, &volume) {
                    Ok(Candle { datetime: time, open, high, low, close, volume })
                } else {
                    Err(TaError::DataItemInvalid)
                }
            },
            _ => Err(TaError::DataItemIncomplete),
        }
    }
}

impl Default for CandleBuilder {
    /// The builder with no field set.
    fn default() -> (r: Self)
        ensures
            r == CandleBuilder::empty(),
    {
        CandleBuilder::new()
    }
}

} // verus!
