//! Average true range (ATR): an exponential moving average of the true
//! range values.
//!
//! The composite owns one true-range tracker and one EMA; each advance
//! feeds the true range of the observation into the EMA. Reset cascades
//! to both.

use crate::decimal::{digits_of, format_usize, Dec};
use crate::errors::TaError;
use crate::indicators::exponential_moving_average::{
    ExponentialMovingAverage, ExponentialMovingAverageView,
};
use crate::indicators::true_range::{TrueRange, TrueRangeView};
use crate::traits::{Close, High, Low, Next, Period, Reset};
use vstd::prelude::*;

verus! {

/// The mathematical state of an average true range.
pub struct AverageTrueRangeView {
    /// The true-range tracker remembering the previous close.
    pub true_range: TrueRangeView,
    /// The EMA that smooths the true-range series.
    pub ema: ExponentialMovingAverageView,
}

impl AverageTrueRangeView {
    /// The state directly after construction with the given period.
    pub open spec fn init(period: nat) -> AverageTrueRangeView {
        AverageTrueRangeView {
            true_range: TrueRangeView::init(),
            ema: ExponentialMovingAverageView::init(period),
        }
    }

    /// One scalar advance: the true range of the input, smoothed by the
    /// EMA. The state after the call is always the first component; the
    /// output is `None` when the decimal arithmetic left the representable
    /// range, and the sub-indicators that had already advanced keep their
    /// new state.
    pub open spec fn step(self, input: Dec) -> (AverageTrueRangeView, Option<Dec>) {
        match self.true_range.step(input) {
            Some((tr2, range)) => {
                match self.ema.step(range) {
                    Some((ema2, out)) => (
                        AverageTrueRangeView { true_range: tr2, ema: ema2 },
                        Some(out),
                    ),
                    None => (AverageTrueRangeView { true_range: tr2, ema: self.ema }, None),
                }
            },
            None => (self, None),
        }
    }

    /// One bar advance: the true range of the bar, smoothed by the EMA.
    pub open spec fn step_bar(self, high: Dec, low: Dec, close: Dec) -> (
        AverageTrueRangeView,
        Option<Dec>,
    ) {
        match self.true_range.step_bar(high, low, close) {
            Some((tr2, range)) => {
                match self.ema.step(range) {
                    Some((ema2, out)) => (
                        AverageTrueRangeView { true_range: tr2, ema: ema2 },
                        Some(out),
                    ),
                    None => (AverageTrueRangeView { true_range: tr2, ema: self.ema }, None),
                }
            },
            None => (self, None),
        }
    }
}

/// Average true range: an EMA-smoothed true range.
#[derive(Debug)]
pub struct AverageTrueRange {
    true_range: TrueRange,
    ema: ExponentialMovingAverage,
}

impl View for AverageTrueRange {
    type V = AverageTrueRangeView;

    closed spec fn view(&self) -> AverageTrueRangeView {
        AverageTrueRangeView { true_range: self.true_range@, ema: self.ema@ }
    }
}

impl AverageTrueRange {
    /// Constructs the indicator, rejecting a zero period and accepting any
    /// other.
    pub fn new(period: usize) -> (r: Result<AverageTrueRange, TaError>)
        ensures
            period == 0 <==> r is Err,
            r matches Err(e) ==> e == TaError::InvalidParameter,
            r matches Ok(s) ==> s@ == AverageTrueRangeView::init(period as nat),
    {
        match ExponentialMovingAverage::new(period) {
            Ok(ema) => Ok(AverageTrueRange { true_range: TrueRange::new(), ema }),
            Err(e) => Err(e),
        }
    }
}

impl Period for AverageTrueRange {
    fn period(&self) -> (r: usize)
        ensures
            r as nat == self@.ema.period,
    {
        self.ema.period()
    }
}

impl Next<Dec> for AverageTrueRange {
    type Output = Option<Dec>;

    fn next(&mut self, input: Dec) -> (r: Option<Dec>)
        ensures
            final(self)@ == old(self)@.step(input).0,
            r == old(self)@.step(input).1,
    {
        let range = match self.true_range.next(input) {
            Some(v) => v,
            None => {
                return None;
            },
        };
        self.ema.next(range)
    }
}

impl<T: High + Low + Close> Next<&T> for AverageTrueRange {
    type Output = Option<Dec>;

    fn next(&mut self, input: &T) -> (r: Option<Dec>)
        ensures
            final(self)@ == old(self)@.step_bar(input.high_spec(), input.low_spec(), input.close_spec()).0,
            r == old(self)@.step_bar(input.high_spec(), input.low_spec(), input.close_spec()).1,
    {
        let range = match self.true_range.next(input) {
            Some(v) => v,
            None => {
                return None;
            },
        };
        self.ema.next(range)
    }
}

impl Reset for AverageTrueRange {
    fn reset(&mut self)
        ensures
            final(self)@ == AverageTrueRangeView::init(old(self)@.ema.period),
    {
        self.true_range.reset();
        self.ema.reset();
    }
}

impl Default for AverageTrueRange {
    /// The documented default period of 14.
    fn default() -> (r: Self)
        ensures
            r@ == AverageTrueRangeView::init(14),
    {
        match Self::new(14) {
            Ok(s) => s,
            Err(_) => {
                // A period of 14 is never rejected.
                proof {
                    assert(false);
                }
                AverageTrueRange {
                    true_range: TrueRange::new(),
                    ema: ExponentialMovingAverage::default(),
                }
            },
        }
    }
}

impl AverageTrueRange {
    /// The human-readable label `ATR(period)`.
    pub fn label(&self) -> (s: String)
        ensures
            s@ == "ATR("@ + digits_of(self@.ema.period) + ")"@,
    {
        String::from_str("ATR(").concat(format_usize(self.ema.period()).as_str()).concat(")")
    }
}

/// The output sequence an indicator in state `v` produces over a whole
/// input stream, advancing one observation at a time.
pub open spec fn run(v: AverageTrueRangeView, inputs: Seq<Dec>) -> Seq<Option<Dec>>
    decreases inputs.len(),
{
    if inputs.len() == 0 {
        Seq::empty()
    } else {
        seq![v.step(inputs[0]).1] + run(v.step(inputs[0]).0, inputs.drop_first())
    }
}

/// Replay determinism: advancing is a pure function of the state and the
/// input, so two indicators in equal states — a freshly constructed one
/// and one just reset to the same parameters, whose contracts both give
/// the view `init` — produce identical output sequences for identical
/// input sequences, however long.
pub proof fn lemma_reset_replay(a: AverageTrueRangeView, b: AverageTrueRangeView, inputs: Seq<Dec>)
    requires
        a == b,
    ensures
        run(a, inputs) == run(b, inputs),
{
}

} // verus!
