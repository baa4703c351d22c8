//! Keltner Channel (KC): an EMA centre line with average-true-range
//! bands.
//!
//! The composite owns one EMA and one ATR sharing the same period. For a
//! full bar the EMA is fed the typical price `(high + low + close) / 3`;
//! for a bare scalar it is fed the scalar itself. The bands sit
//! `multiplier` average true ranges away on either side of the centre.

use crate::decimal::{
    add_of, dec_add, dec_div, dec_mul, dec_sub, dec_text, digits_of, div_of, format_usize,
    mul_of, sub_of, text_of, Dec,
};
use crate::errors::TaError;
use crate::indicators::average_true_range::{AverageTrueRange, AverageTrueRangeView};
use crate::indicators::exponential_moving_average::{
    ExponentialMovingAverage, ExponentialMovingAverageView,
};
use crate::traits::{Close, High, Low, Next, Period, Reset};
use vstd::prelude::*;

verus! {

/// The three bands one advance produces.
#[derive(Clone, Copy, Debug)]
pub struct KeltnerChannelOutput {
    /// The centre line: the EMA of the inputs.
    pub average: Dec,
    /// The upper band: `average + range * multiplier`.
    pub upper: Dec,
    /// The lower band: `average - range * multiplier`.
    pub lower: Dec,
}

/// The mathematical state of a Keltner Channel.
pub struct KeltnerChannelView {
    /// How far the outer bands sit, in average true ranges.
    pub multiplier: Dec,
    /// The owned average true range.
    pub atr: AverageTrueRangeView,
    /// The owned EMA forming the centre line.
    pub ema: ExponentialMovingAverageView,
}

impl KeltnerChannelView {
    /// The shared period, fixed at construction: the centre EMA's own
    /// period.
    pub open spec fn period(self) -> nat {
        self.ema.period
    }

    /// The state directly after construction.
    pub open spec fn init(period: nat, multiplier: Dec) -> KeltnerChannelView {
        KeltnerChannelView {
            multiplier,
            atr: AverageTrueRangeView::init(period),
            ema: ExponentialMovingAverageView::init(period),
        }
    }

    /// The bands around a centre, if they stay in range.
    pub open spec fn bands(self, average: Dec, range: Dec) -> Option<KeltnerChannelOutput> {
        match mul_of(range, self.multiplier) {
            Some(band) => match add_of(average, band) {
                Some(upper) => match sub_of(average, band) {
                    Some(lower) => Some(KeltnerChannelOutput { average, upper, lower }),
                    None => None,
                },
                None => None,
            },
            None => None,
        }
    }

    /// One scalar advance: the ATR and the EMA both consume the scalar,
    /// and the bands are read off the two. The state after the call is
    /// always the first component; the output is `None` when the decimal
    /// arithmetic left the representable range, and the sub-indicators
    /// that had already advanced keep their new state.
    pub open spec fn step(self, input: Dec) -> (KeltnerChannelView, Option<KeltnerChannelOutput>) {
        let (atr2, range_opt) = self.atr.step(input);
        let after_atr = KeltnerChannelView { atr: atr2, ..self };
        match range_opt {
            Some(range) => {
                match self.ema.step(input) {
                    Some((ema2, average)) => {
                        let done = KeltnerChannelView { atr: atr2, ema: ema2, ..self };
                        (done, done.bands(average, range))
                    },
                    None => (after_atr, None),
                }
            },
            None => (after_atr, None),
        }
    }

    /// One bar advance: the EMA consumes the typical price, the ATR
    /// consumes the bar, and the bands are read off the two.
    pub open spec fn step_bar(self, high: Dec, low: Dec, close: Dec) -> (
        KeltnerChannelView,
        Option<KeltnerChannelOutput>,
    ) {
        let typical = match add_of(close, high) {
            Some(partial) => match add_of(partial, low) {
                Some(total) => div_of(total, Dec::from_spec(30, 1)),
                None => None,
            },
            None => None,
        };
        match typical {
            Some(typical) => {
                match self.ema.step(typical) {
                    Some((ema2, average)) => {
                        let (atr2, range_opt) = self.atr.step_bar(high, low, close);
                        let done = KeltnerChannelView { ema: ema2, atr: atr2, ..self };
                        match range_opt {
                            Some(range) => (done, done.bands(average, range)),
                            None => (done, None),
                        }
                    },
                    None => (self, None),
                }
            },
            None => (self, None),
        }
    }
}

/// Keltner Channel: EMA centre line with ATR bands.
#[derive(Debug)]
pub struct KeltnerChannel {
    multiplier: Dec,
    atr: AverageTrueRange,
    ema: ExponentialMovingAverage,
}

impl View for KeltnerChannel {
    type V = KeltnerChannelView;

    closed spec fn view(&self) -> KeltnerChannelView {
        KeltnerChannelView { multiplier: self.multiplier, atr: self.atr@, ema: self.ema@ }
    }
}

impl KeltnerChannel {
    /// Constructs the indicator, rejecting a zero period and accepting
    /// any other.
    pub fn new(period: usize, multiplier: Dec) -> (r: Result<KeltnerChannel, TaError>)
        ensures
            period == 0 <==> r is Err,
            r matches Err(e) ==> e == TaError::InvalidParameter,
            r matches Ok(s) ==> s@ == KeltnerChannelView::init(period as nat, multiplier),
    {
        let atr = match AverageTrueRange::new(period) {
            Ok(v) => v,
            Err(e) => {
                return Err(e);
            },
        };
        let ema = match ExponentialMovingAverage::new(period) {
            Ok(v) => v,
            Err(e) => {
                return Err(e);
            },
        };
        Ok(KeltnerChannel { multiplier, atr, ema })
    }

    /// The configured band width, in average true ranges.
    pub fn multiplier(&self) -> (r: Dec)
        ensures
            r == self@.multiplier,
    {
        self.multiplier
    }
}

impl Period for KeltnerChannel {
    fn period(&self) -> (r: usize)
        ensures
            r as nat == self@.period(),
    {
        self.ema.period()
    }
}

impl Next<Dec> for KeltnerChannel {
    type Output = Option<KeltnerChannelOutput>;

    fn next(&mut self, input: Dec) -> (r: Option<KeltnerChannelOutput>)
        ensures
            final(self)@ == old(self)@.step(input).0,
            r == old(self)@.step(input).1,
    {
        let range = match self.atr.next(input) {
            Some(v) => v,
            None => {
                return None;
            },
        };
        let average = match self.ema.next(input) {
            Some(v) => v,
            None => {
                return None;
            },
        };
        self.make_bands(average, range)
    }
}

impl<T: Close + High + Low> Next<&T> for KeltnerChannel {
    type Output = Option<KeltnerChannelOutput>;

    fn next(&mut self, input: &T) -> (r: Option<KeltnerChannelOutput>)
        ensures
            final(self)@ == old(self)@.step_bar(input.high_spec(), input.low_spec(), input.close_spec()).0,
            r == old(self)@.step_bar(input.high_spec(), input.low_spec(), input.close_spec()).1,
    {
        let partial = match dec_add(input.close(), input.high()) {
            Some(v) => v,
            None => {
                return None;
            },
        };
        let total = match dec_add(partial, input.low()) {
            Some(v) => v,
            None => {
                return None;
            },
        };
        let typical = match dec_div(total, Dec::new(30, 1)) {
            Some(v) => v,
            None => {
                return None;
            },
        };
        let average = match self.ema.next(typical) {
            Some(v) => v,
            None => {
                return None;
            },
        };
        let range = match self.atr.next(input) {
            Some(v) => v,
            None => {
                return None;
            },
        };
        self.make_bands(average, range)
    }
}

impl KeltnerChannel {
    /// The bands around the centre, or `None` when they leave the
    /// representable range.
    fn make_bands(&self, average: Dec, range: Dec) -> (r: Option<KeltnerChannelOutput>)
        ensures
            r == self@.bands(average, range),
    {
        let band = match dec_mul(range, self.multiplier) {
            Some(v) => v,
            None => {
                return None;
            },
        };
        let upper = match dec_add(average, band) {
            Some(v) => v,
            None => {
                return None;
            },
        };
        let lower = match dec_sub(average, band) {
            Some(v) => v,
            None => {
                return None;
            },
        };
        Some(KeltnerChannelOutput { average, upper, lower })
    }
}

impl Reset for KeltnerChannel {
    fn reset(&mut self)
        ensures
            final(self)@.multiplier == old(self)@.multiplier,
            final(self)@.ema == ExponentialMovingAverageView::init(old(self)@.period()),
            final(self)@.atr == AverageTrueRangeView::init(old(self)@.atr.ema.period),
    {
        self.atr.reset();
        self.ema.reset();
    }
}

impl Default for KeltnerChannel {
    /// The documented default: period 10, multiplier 2.
    fn default() -> (r: Self)
        ensures
            r@ == KeltnerChannelView::init(10, Dec::from_spec(2, 0)),
    {
        match Self::new(10, Dec::new(2, 0)) {
            Ok(s) => s,
            Err(_) => {
                // A period of 10 is never rejected.
                proof {
                    assert(false);
                }
                KeltnerChannel {
                    multiplier: Dec::new(2, 0),
                    atr: AverageTrueRange::default(),
                    ema: ExponentialMovingAverage::default(),
                }
            },
        }
    }
}

impl KeltnerChannel {
    /// The human-readable label `KC(period, multiplier)`.
    pub fn label(&self) -> (s: String)
        ensures
            s@ == "KC("@ + digits_of(self@.period()) + ", "@ + text_of(self@.multiplier) + ")"@,
    {
        String::from_str("KC(").concat(format_usize(self.ema.period()).as_str()).concat(", ").concat(
            dec_text(&self.multiplier).as_str(),
        ).concat(")")
    }
}

/// The output sequence an indicator in state `v` produces over a whole
/// input stream, advancing one observation at a time.
pub open spec fn run(v: KeltnerChannelView, inputs: Seq<Dec>) -> Seq<Option<KeltnerChannelOutput>>
    decreases inputs.len(),
{
    if inputs.len() == 0 {
        Seq::empty()
    } else {
        seq![v.step(inputs[0]).1] + run(v.step(inputs[0]).0, inputs.drop_first())
    }
}

/// Replay determinism: advancing is a pure function of the state and the
/// input, so two indicators in equal states — a freshly constructed one
/// and one just reset to the same parameters, whose contracts both give
/// the view `init` — produce identical output sequences for identical
/// input sequences, however long.
pub proof fn lemma_reset_replay(a: KeltnerChannelView, b: KeltnerChannelView, inputs: Seq<Dec>)
    requires
        a == b,
    ensures
        run(a, inputs) == run(b, inputs),
{
}

} // verus!
