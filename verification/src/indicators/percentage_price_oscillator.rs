//! Percentage price oscillator (PPO): the MACD structure with the
//! oscillator normalized against the slow EMA.
//!
//! The fast and slow EMA both consume the same input; the PPO line is
//! `(fast - slow) / slow * 100`, the signal line is an EMA of the PPO
//! line, and the histogram is the gap between the two.

use crate::decimal::{dec_div, dec_mul, dec_sub, digits_of, div_of, format_usize, mul_of, sub_of, Dec};
use crate::errors::TaError;
use crate::indicators::exponential_moving_average::{
    ExponentialMovingAverage, ExponentialMovingAverageView,
};
use crate::traits::{Close, Next, Period, Reset};
use vstd::prelude::*;

verus! {

/// The three series values one advance produces.
#[derive(Clone, Copy, Debug)]
pub struct PercentagePriceOscillatorOutput {
    /// The PPO line: the fast-slow gap as a percentage of the slow EMA.
    pub ppo: Dec,
    /// The signal line: an EMA of the PPO line.
    pub signal: Dec,
    /// The histogram: PPO line minus signal line.
    pub histogram: Dec,
}

impl PercentagePriceOscillatorOutput {
    /// The three series values as a bare tuple.
    pub fn into_tuple(self) -> (r: (Dec, Dec, Dec))
        ensures
            r == (self.ppo, self.signal, self.histogram),
    {
        (self.ppo, self.signal, self.histogram)
    }
}

/// The mathematical state of a PPO indicator.
pub struct PercentagePriceOscillatorView {
    /// The fast (short-period) EMA of the inputs.
    pub fast_ema: ExponentialMovingAverageView,
    /// The slow (long-period) EMA of the inputs.
    pub slow_ema: ExponentialMovingAverageView,
    /// The EMA that smooths the PPO line into the signal line.
    pub signal_ema: ExponentialMovingAverageView,
}

impl PercentagePriceOscillatorView {
    /// The state directly after construction.
    pub open spec fn init(fast: nat, slow: nat, signal: nat) -> PercentagePriceOscillatorView {
        PercentagePriceOscillatorView {
            fast_ema: ExponentialMovingAverageView::init(fast),
            slow_ema: ExponentialMovingAverageView::init(slow),
            signal_ema: ExponentialMovingAverageView::init(signal),
        }
    }

    /// One advance: both input EMAs move, the PPO line is their gap
    /// normalized by the slow value and scaled to a percentage, the
    /// signal EMA smooths it, and the histogram is the remaining gap. The
    /// state after the call is always the first component; the output is
    /// `None` when the slow EMA is zero or the decimal arithmetic left
    /// the representable range, and the EMAs that had already advanced
    /// keep their new state.
    pub open spec fn step(self, input: Dec) -> (
        PercentagePriceOscillatorView,
        Option<PercentagePriceOscillatorOutput>,
    ) {
        match self.fast_ema.step(input) {
            Some((fast2, fast_val)) => {
                match self.slow_ema.step(input) {
                    Some((slow2, slow_val)) => {
                        let mid = PercentagePriceOscillatorView {
                            fast_ema: fast2,
                            slow_ema: slow2,
                            signal_ema: self.signal_ema,
                        };
                        match sub_of(fast_val, slow_val) {
                            Some(gap) => {
                                match div_of(gap, slow_val) {
                                    Some(ratio) => {
                                        match mul_of(ratio, Dec::from_spec(1000, 1)) {
                                            Some(ppo) => {
                                                match self.signal_ema.step(ppo) {
                                                    Some((signal2, signal_val)) => {
                                                        let done = PercentagePriceOscillatorView {
                                                            fast_ema: fast2,
                                                            slow_ema: slow2,
                                                            signal_ema: signal2,
                                                        };
                                                        match sub_of(ppo, signal_val) {
                                                            Some(histogram) => (
                                                                done,
                                                                Some(
                                                                    PercentagePriceOscillatorOutput {
                                                                        ppo,
                                                                        signal: signal_val,
                                                                        histogram,
                                                                    },
                                                                ),
                                                            ),
                                                            None => (done, None),
                                                        }
                                                    },
                                                    None => (mid, None),
                                                }
                                            },
                                            None => (mid, None),
                                        }
                                    },
                                    None => (mid, None),
                                }
                            },
                            None => (mid, None),
                        }
                    },
                    None => (
                        PercentagePriceOscillatorView {
                            fast_ema: fast2,
                            slow_ema: self.slow_ema,
                            signal_ema: self.signal_ema,
                        },
                        None,
                    ),
                }
            },
            None => (self, None),
        }
    }
}

/// Percentage price oscillator.
#[derive(Debug)]
pub struct PercentagePriceOscillator {
    fast_ema: ExponentialMovingAverage,
    slow_ema: ExponentialMovingAverage,
    signal_ema: ExponentialMovingAverage,
}

impl View for PercentagePriceOscillator {
    type V = PercentagePriceOscillatorView;

    closed spec fn view(&self) -> PercentagePriceOscillatorView {
        PercentagePriceOscillatorView {
            fast_ema: self.fast_ema@,
            slow_ema: self.slow_ema@,
            signal_ema: self.signal_ema@,
        }
    }
}

impl PercentagePriceOscillator {
    /// Constructs the indicator; each of the three periods is validated
    /// independently, and any zero among them is rejected.
    pub fn new(fast_period: usize, slow_period: usize, signal_period: usize) -> (r: Result<
        PercentagePriceOscillator,
        TaError,
    >)
        ensures
            (fast_period == 0 || slow_period == 0 || signal_period == 0) <==> r is Err,
            r matches Err(e) ==> e == TaError::InvalidParameter,
            r matches Ok(s) ==> s@ == PercentagePriceOscillatorView::init(fast_period as nat, slow_period as nat, signal_period as nat),
    {
        let fast_ema = match ExponentialMovingAverage::new(fast_period) {
            Ok(v) => v,
            Err(e) => {
                return Err(e);
            },
        };
        let slow_ema = match ExponentialMovingAverage::new(slow_period) {
            Ok(v) => v,
            Err(e) => {
                return Err(e);
            },
        };
        let signal_ema = match ExponentialMovingAverage::new(signal_period) {
            Ok(v) => v,
            Err(e) => {
                return Err(e);
            },
        };
        Ok(PercentagePriceOscillator { fast_ema, slow_ema, signal_ema })
    }
}

impl Next<Dec> for PercentagePriceOscillator {
    type Output = Option<PercentagePriceOscillatorOutput>;

    fn next(&mut self, input: Dec) -> (r: Option<PercentagePriceOscillatorOutput>)
        ensures
            final(self)@ == old(self)@.step(input).0,
            r == old(self)@.step(input).1,
    {
        let fast_val = match self.fast_ema.next(input) {
            Some(v) => v,
            None => {
                return None;
            },
        };
        let slow_val = match self.slow_ema.next(input) {
            Some(v) => v,
            None => {
                return None;
            },
        };
        let gap = match dec_sub(fast_val, slow_val) {
            Some(v) => v,
            None => {
                return None;
            },
        };
        let ratio = match dec_div(gap, slow_val) {
            Some(v) => v,
            None => {
                return None;
            },
        };
        let ppo = match dec_mul(ratio, Dec::new(1000, 1)) {
            Some(v) => v,
            None => {
                return None;
            },
        };
        let signal = match self.signal_ema.next(ppo) {
            Some(v) => v,
            None => {
                return None;
            },
        };
        let histogram = match dec_sub(ppo, signal) {
            Some(v) => v,
            None => {
                return None;
            },
        };
        Some(PercentagePriceOscillatorOutput { ppo, signal, histogram })
    }
}

impl<T: Close> Next<&T> for PercentagePriceOscillator {
    type Output = Option<PercentagePriceOscillatorOutput>;

    fn next(&mut self, input: &T) -> (r: Option<PercentagePriceOscillatorOutput>)
        ensures
            final(self)@ == old(self)@.step(input.close_spec()).0,
            r == old(self)@.step(input.close_spec()).1,
    {
        self.next(input.close())
    }
}

impl Reset for PercentagePriceOscillator {
    fn reset(&mut self)
        ensures
            final(self)@ == PercentagePriceOscillatorView::init(old(self)@.fast_ema.period, old(self)@.slow_ema.period, old(self)@.signal_ema.period),
    {
        self.fast_ema.reset();
        self.slow_ema.reset();
        self.signal_ema.reset();
    }
}

impl Default for PercentagePriceOscillator {
    /// The documented defaults: fast 12, slow 26, signal 9.
    fn default() -> (r: Self)
        ensures
            r@ == PercentagePriceOscillatorView::init(12, 26, 9),
    {
        match Self::new(12, 26, 9) {
            Ok(s) => s,
            Err(_) => {
                // None of the default periods is zero.
                proof {
                    assert(false);
                }
                PercentagePriceOscillator {
                    fast_ema: ExponentialMovingAverage::default(),
                    slow_ema: ExponentialMovingAverage::default(),
                    signal_ema: ExponentialMovingAverage::default(),
                }
            },
        }
    }
}

impl PercentagePriceOscillator {
    /// The human-readable label `PPO(fast, slow, signal)`.
    pub fn label(&self) -> (s: String)
        ensures
            s@ == "PPO("@ + digits_of(self@.fast_ema.period) + ", "@ + digits_of(self@.slow_ema.period) + ", "@ + digits_of(self@.signal_ema.period) + ")"@,
    {
        String::from_str("PPO(").concat(format_usize(self.fast_ema.period()).as_str()).concat(
            ", ",
        ).concat(format_usize(self.slow_ema.period()).as_str()).concat(", ").concat(
            format_usize(self.signal_ema.period()).as_str(),
        ).concat(")")
    }
}

/// The output sequence an indicator in state `v` produces over a whole
/// input stream, advancing one observation at a time.
pub open spec fn run(v: PercentagePriceOscillatorView, inputs: Seq<Dec>) -> Seq<Option<PercentagePriceOscillatorOutput>>
    decreases inputs.len(),
{
    if inputs.len() == 0 {
        Seq::empty()
    } else {
        seq![v.step(inputs[0]).1] + run(v.step(inputs[0]).0, inputs.drop_first())
    }
}

/// Replay determinism: advancing is a pure function of the state and the
/// input, so two indicators in equal states — a freshly constructed one
/// and one just reset to the same parameters, whose contracts both give
/// the view `init` — produce identical output sequences for identical
/// input sequences, however long.
pub proof fn lemma_reset_replay(a: PercentagePriceOscillatorView, b: PercentagePriceOscillatorView, inputs: Seq<Dec>)
    requires
        a == b,
    ensures
        run(a, inputs) == run(b, inputs),
{
}

} // verus!
