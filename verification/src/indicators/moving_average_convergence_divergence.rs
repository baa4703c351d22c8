//! Moving average convergence divergence (MACD): two EMAs racing each
//! other, with a third smoothing their gap.
//!
//! The fast and slow EMA both consume the same input; the MACD line is
//! their difference, the signal line is an EMA of the MACD line, and the
//! histogram is the gap between the two.

use crate::decimal::{dec_sub, digits_of, format_usize, sub_of, Dec};
use crate::errors::TaError;
use crate::indicators::exponential_moving_average::{
    ExponentialMovingAverage, ExponentialMovingAverageView,
};
use crate::traits::{Close, Next, Period, Reset};
use vstd::prelude::*;

verus! {

/// The three series values one advance produces.
#[derive(Clone, Copy, Debug)]
pub struct MovingAverageConvergenceDivergenceOutput {
    /// The MACD line: fast EMA minus slow EMA.
    pub macd: Dec,
    /// The signal line: an EMA of the MACD line.
    pub signal: Dec,
    /// The histogram: MACD line minus signal line.
    pub histogram: Dec,
}

impl MovingAverageConvergenceDivergenceOutput {
    /// The three series values as a bare tuple.
    pub fn into_tuple(self) -> (r: (Dec, Dec, Dec))
        ensures
            r == (self.macd, self.signal, self.histogram),
    {
        (self.macd, self.signal, self.histogram)
    }
}

/// The mathematical state of a MACD indicator.
pub struct MovingAverageConvergenceDivergenceView {
    /// The fast (short-period) EMA of the inputs.
    pub fast_ema: ExponentialMovingAverageView,
    /// The slow (long-period) EMA of the inputs.
    pub slow_ema: ExponentialMovingAverageView,
    /// The EMA that smooths the MACD line into the signal line.
    pub signal_ema: ExponentialMovingAverageView,
}

impl MovingAverageConvergenceDivergenceView {
    /// The state directly after construction.
    pub open spec fn init(fast: nat, slow: nat, signal: nat) -> MovingAverageConvergenceDivergenceView {
        MovingAverageConvergenceDivergenceView {
            fast_ema: ExponentialMovingAverageView::init(fast),
            slow_ema: ExponentialMovingAverageView::init(slow),
            signal_ema: ExponentialMovingAverageView::init(signal),
        }
    }

    /// One advance: both input EMAs move, the MACD line is their
    /// difference, the signal EMA smooths it, and the histogram is the
    /// remaining gap. The state after the call is always the first
    /// component; the output is `None` when the decimal arithmetic left
    /// the representable range, and the EMAs that had already advanced
    /// keep their new state.
    pub open spec fn step(self, input: Dec) -> (
        MovingAverageConvergenceDivergenceView,
        Option<MovingAverageConvergenceDivergenceOutput>,
    ) {
        match self.fast_ema.step(input) {
            Some((fast2, fast_val)) => {
                match self.slow_ema.step(input) {
                    Some((slow2, slow_val)) => {
                        let mid = MovingAverageConvergenceDivergenceView {
                            fast_ema: fast2,
                            slow_ema: slow2,
                            signal_ema: self.signal_ema,
                        };
                        match sub_of(fast_val, slow_val) {
                            Some(macd) => {
                                match self.signal_ema.step(macd) {
                                    Some((signal2, signal_val)) => {
                                        let done = MovingAverageConvergenceDivergenceView {
                                            fast_ema: fast2,
                                            slow_ema: slow2,
                                            signal_ema: signal2,
                                        };
                                        match sub_of(macd, signal_val) {
                                            Some(histogram) => (
                                                done,
                                                Some(
                                                    MovingAverageConvergenceDivergenceOutput {
                                                        macd,
                                                        signal: signal_val,
                                                        histogram,
                                                    },
                                                ),
                                            ),
                                            None => (done, None),
                                        }
                                    },
                                    None => (mid, None),
                                }
                            },
                            None => (mid, None),
                        }
                    },
                    None => (
                        MovingAverageConvergenceDivergenceView {
                            fast_ema: fast2,
                            slow_ema: self.slow_ema,
                            signal_ema: self.signal_ema,
                        },
                        None,
                    ),
                }
            },
            None => (self, None),
        }
    }
}

/// Moving average convergence divergence.
#[derive(Debug)]
pub struct MovingAverageConvergenceDivergence {
    fast_ema: ExponentialMovingAverage,
    slow_ema: ExponentialMovingAverage,
    signal_ema: ExponentialMovingAverage,
}

impl View for MovingAverageConvergenceDivergence {
    type V = MovingAverageConvergenceDivergenceView;

    closed spec fn view(&self) -> MovingAverageConvergenceDivergenceView {
        MovingAverageConvergenceDivergenceView {
            fast_ema: self.fast_ema@,
            slow_ema: self.slow_ema@,
            signal_ema: self.signal_ema@,
        }
    }
}

impl MovingAverageConvergenceDivergence {
    /// Constructs the indicator; each of the three periods is validated
    /// independently, and any zero among them is rejected.
    pub fn new(fast_period: usize, slow_period: usize, signal_period: usize) -> (r: Result<
        MovingAverageConvergenceDivergence,
        TaError,
    >)
        ensures
            (fast_period == 0 || slow_period == 0 || signal_period == 0) <==> r is Err,
            r matches Err(e) ==> e == TaError::InvalidParameter,
            r matches Ok(s) ==> s@ == MovingAverageConvergenceDivergenceView::init(fast_period as nat, slow_period as nat, signal_period as nat),
    {
        let fast_ema = match ExponentialMovingAverage::new(fast_period) {
            Ok(v) => v,
            Err(e) => {
                return Err(e);
            },
        };
        let slow_ema = match ExponentialMovingAverage::new(slow_period) {
            Ok(v) => v,
            Err(e) => {
                return Err(e);
            },
        };
        let signal_ema = match ExponentialMovingAverage::new(signal_period) {
            Ok(v) => v,
            Err(e) => {
                return Err(e);
            },
        };
        Ok(MovingAverageConvergenceDivergence { fast_ema, slow_ema, signal_ema })
    }
}

impl Next<Dec> for MovingAverageConvergenceDivergence {
    type Output = Option<MovingAverageConvergenceDivergenceOutput>;

    fn next(&mut self, input: Dec) -> (r: Option<MovingAverageConvergenceDivergenceOutput>)
        ensures
            final(self)@ == old(self)@.step(input).0,
            r == old(self)@.step(input).1,
    {
        let fast_val = match self.fast_ema.next(input) {
            Some(v) => v,
            None => {
                return None;
            },
        };
        let slow_val = match self.slow_ema.next(input) {
            Some(v) => v,
            None => {
                return None;
            },
        };
        let macd = match dec_sub(fast_val, slow_val) {
            Some(v) => v,
            None => {
                return None;
            },
        };
        let signal = match self.signal_ema.next(macd) {
            Some(v) => v,
            None => {
                return None;
            },
        };
        let histogram = match dec_sub(macd, signal) {
            Some(v) => v,
            None => {
                return None;
            },
        };
        Some(MovingAverageConvergenceDivergenceOutput { macd, signal, histogram })
    }
}

impl<T: Close> Next<&T> for MovingAverageConvergenceDivergence {
    type Output = Option<MovingAverageConvergenceDivergenceOutput>;

    fn next(&mut self, input: &T) -> (r: Option<MovingAverageConvergenceDivergenceOutput>)
        ensures
            final(self)@ == old(self)@.step(input.close_spec()).0,
            r == old(self)@.step(input.close_spec()).1,
    {
        self.next(input.close())
    }
}

impl Reset for MovingAverageConvergenceDivergence {
    fn reset(&mut self)
        ensures
            final(self)@ == MovingAverageConvergenceDivergenceView::init(old(self)@.fast_ema.period, old(self)@.slow_ema.period, old(self)@.signal_ema.period),
    {
        self.fast_ema.reset();
        self.slow_ema.reset();
        self.signal_ema.reset();
    }
}

impl Default for MovingAverageConvergenceDivergence {
    /// The documented defaults: fast 12, slow 26, signal 9.
    fn default() -> (r: Self)
        ensures
            r@ == MovingAverageConvergenceDivergenceView::init(12, 26, 9),
    {
        match Self::new(12, 26, 9) {
            Ok(s) => s,
            Err(_) => {
                // None of the default periods is zero.
                proof {
                    assert(false);
                }
                MovingAverageConvergenceDivergence {
                    fast_ema: ExponentialMovingAverage::default(),
                    slow_ema: ExponentialMovingAverage::default(),
                    signal_ema: ExponentialMovingAverage::default(),
                }
            },
        }
    }
}

impl MovingAverageConvergenceDivergence {
    /// The human-readable label `MACD(fast, slow, signal)`.
    pub fn label(&self) -> (s: String)
        ensures
            s@ == "MACD("@ + digits_of(self@.fast_ema.period) + ", "@ + digits_of(self@.slow_ema.period) + ", "@ + digits_of(self@.signal_ema.period) + ")"@,
    {
        String::from_str("MACD(").concat(format_usize(self.fast_ema.period()).as_str()).concat(
            ", ",
        ).concat(format_usize(self.slow_ema.period()).as_str()).concat(", ").concat(
            format_usize(self.signal_ema.period()).as_str(),
        ).concat(")")
    }
}

/// The output sequence an indicator in state `v` produces over a whole
/// input stream, advancing one observation at a time.
pub open spec fn run(v: MovingAverageConvergenceDivergenceView, inputs: Seq<Dec>) -> Seq<Option<MovingAverageConvergenceDivergenceOutput>>
    decreases inputs.len(),
{
    if inputs.len() == 0 {
        Seq::empty()
    } else {
        seq![v.step(inputs[0]).1] + run(v.step(inputs[0]).0, inputs.drop_first())
    }
}

/// Replay determinism: advancing is a pure function of the state and the
/// input, so two indicators in equal states — a freshly constructed one
/// and one just reset to the same parameters, whose contracts both give
/// the view `init` — produce identical output sequences for identical
/// input sequences, however long.
pub proof fn lemma_reset_replay(a: MovingAverageConvergenceDivergenceView, b: MovingAverageConvergenceDivergenceView, inputs: Seq<Dec>)
    requires
        a == b,
    ensures
        run(a, inputs) == run(b, inputs),
{
}

} // verus!
