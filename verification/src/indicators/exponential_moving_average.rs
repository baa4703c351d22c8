//! Exponential moving average (EMA): recursive smoothing in constant
//! state, with no buffer at all.
//!
//! Construction precomputes the smoothing coefficient `k = 2 / (period +
//! 1)`. The very first observation seeds the running value exactly, with
//! no smoothing applied, to avoid a biased cold start; every later one
//! moves it to `k * input + (1 - k) * running`.

use crate::decimal::{add_of, dec_add, dec_div, dec_mul, dec_sub, digits_of, div_of, format_usize, mul_of, sub_of, Dec};
use crate::errors::TaError;
use crate::traits::{Close, Next, Period, Reset};
use vstd::prelude::*;

verus! {

/// The smoothing coefficient `2 / (period + 1)`, as the host decimal
/// division computes it from the literals the constructor divides.
pub open spec fn smoothing_of(period: nat) -> Dec {
    div_of(Dec::from_spec(20, 1), Dec::from_spec(period as int + 1, 0))->Some_0
}

/// The mathematical state of an exponential moving average.
pub struct ExponentialMovingAverageView {
    /// The smoothing horizon, fixed at construction.
    pub period: nat,
    /// The precomputed smoothing coefficient `2 / (period + 1)`.
    pub k: Dec,
    /// The running smoothed value.
    pub current: Dec,
    /// Whether no observation has been seen since construction or reset.
    pub is_new: bool,
}

impl ExponentialMovingAverageView {
    /// The state directly after construction with the given period.
    pub open spec fn init(period: nat) -> ExponentialMovingAverageView {
        ExponentialMovingAverageView {
            period,
            k: smoothing_of(period),
            current: Dec::from_spec(0, 0),
            is_new: true,
        }
    }

    /// One advance: the first observation is returned exactly and becomes
    /// the running value; later ones move it to `k * input + (1 - k) *
    /// running`. `None` when the decimal arithmetic leaves the
    /// representable range.
    pub open spec fn step(self, input: Dec) -> Option<(ExponentialMovingAverageView, Dec)> {
        if self.is_new {
            Some(
                (
                    ExponentialMovingAverageView {
                        current: input,
                        is_new: false,
                        ..self
                    },
                    input,
                ),
            )
        } else {
            match mul_of(self.k, input) {
                Some(scaled_in) => match sub_of(Dec::from_spec(10, 1), self.k) {
                    Some(decay) => match mul_of(decay, self.current) {
                        Some(kept) => match add_of(scaled_in, kept) {
                            Some(cur2) => Some(
                                (
                                    ExponentialMovingAverageView {
                                        current: cur2,
                                        is_new: false,
                                        ..self
                                    },
                                    cur2,
                                ),
                            ),
                            None => None,
                        },
                        None => None,
                    },
                    None => None,
                },
                None => None,
            }
        }
    }
}

/// Exponential moving average with smoothing horizon `period`.
#[derive(Debug)]
pub struct ExponentialMovingAverage {
    period: usize,
    k: Dec,
    current: Dec,
    is_new: bool,
}

impl View for ExponentialMovingAverage {
    type V = ExponentialMovingAverageView;

    closed spec fn view(&self) -> ExponentialMovingAverageView {
        ExponentialMovingAverageView {
            period: self.period as nat,
            k: self.k,
            current: self.current,
            is_new: self.is_new,
        }
    }
}

impl ExponentialMovingAverage {
    #[verifier::type_invariant]
    spec fn inv(self) -> bool {
        self.period >= 1 && self.k == smoothing_of(self.period as nat)
    }

    /// Builds the indicator, computing the smoothing coefficient.
    fn with_period(period: usize) -> (r: ExponentialMovingAverage)
        requires
            period >= 1,
        ensures
            r@ == ExponentialMovingAverageView::init(period as nat),
    {
        let k = match dec_div(Dec::new(20, 1), Dec::from_usize_succ(period)) {
            Some(v) => v,
            None => {
                // A positive integer divisor never overflows a division.
                proof {
                    assert(false);
                }
                Dec::new(0, 0)
            },
        };
        ExponentialMovingAverage { period, k, current: Dec::new(0, 0), is_new: true }
    }

    /// Constructs the indicator, rejecting a zero period and accepting any
    /// other.
    pub fn new(period: usize) -> (r: Result<ExponentialMovingAverage, TaError>)
        ensures
            period == 0 <==> r is Err,
            r matches Err(e) ==> e == TaError::InvalidParameter,
            r matches Ok(s) ==> s@ == ExponentialMovingAverageView::init(period as nat),
    {
        if period == 0 {
            Err(TaError::InvalidParameter)
        } else {
            Ok(Self::with_period(period))
        }
    }
}

impl Period for ExponentialMovingAverage {
    fn period(&self) -> (r: usize)
        ensures
            r as nat == self@.period,
    {
        self.period
    }
}

impl Next<Dec> for ExponentialMovingAverage {
    type Output = Option<Dec>;

    fn next(&mut self, input: Dec) -> (r: Option<Dec>)
        ensures
            old(self)@.step(input) matches Some(sr) ==> r == Some(sr.1) && final(self)@ == sr.0,
            old(self)@.step(input) is None ==> r is None && final(self)@ == old(self)@,
            old(self)@.is_new ==> r == Some(input),
    {
        proof {
            use_type_invariant(&*self);
        }
        if self.is_new {
            self.is_new = false;
            self.current = input;
            Some(input)
        } else {
            let scaled_in = match dec_mul(self.k, input) {
                Some(v) => v,
                None => {
                    return None;
                },
            };
            let decay = match dec_sub(Dec::new(10, 1), self.k) {
                Some(v) => v,
                None => {
                    return None;
                },
            };
            let kept = match dec_mul(decay, self.current) {
                Some(v) => v,
                None => {
                    return None;
                },
            };
            let cur2 = match dec_add(scaled_in, kept) {
                Some(v) => v,
                None => {
                    return None;
                },
            };
            self.current = cur2;
            Some(cur2)
        }
    }
}

impl<T: Close> Next<&T> for ExponentialMovingAverage {
    type Output = Option<Dec>;

    fn next(&mut self, input: &T) -> (r: Option<Dec>)
        ensures
            old(self)@.step(input.close_spec()) matches Some(sr) ==> r == Some(sr.1) && final(self)@ == sr.0,
            old(self)@.step(input.close_spec()) is None ==> r is None && final(self)@ == old(self)@,
    {
        self.next(input.close())
    }
}

impl Reset for ExponentialMovingAverage {
    fn reset(&mut self)
        ensures
            final(self)@ == ExponentialMovingAverageView::init(old(self)@.period),
    {
        proof {
            use_type_invariant(&*self);
        }
        self.current = Dec::new(0, 0);
        self.is_new = true;
    }
}

impl Default for ExponentialMovingAverage {
    /// The documented default period of 9.
    fn default() -> (r: Self)
        ensures
            r@ == ExponentialMovingAverageView::init(9),
    {
        Self::with_period(9)
    }
}

impl ExponentialMovingAverage {
    /// The human-readable label `EMA(period)`.
    pub fn label(&self) -> (s: String)
        ensures
            s@ == "EMA("@ + digits_of(self@.period) + ")"@,
    {
        String::from_str("EMA(").concat(format_usize(self.period).as_str()).concat(")")
    }
}

/// The output sequence an indicator in state `v` produces over a whole
/// input stream, advancing one observation at a time. A step whose
/// arithmetic left the representable range reports `None` and leaves the
/// state unchanged.
pub open spec fn run(v: ExponentialMovingAverageView, inputs: Seq<Dec>) -> Seq<Option<Dec>>
    decreases inputs.len(),
{
    if inputs.len() == 0 {
        Seq::empty()
    } else {
        match v.step(inputs[0]) {
            Some(sr) => seq![Some(sr.1)] + run(sr.0, inputs.drop_first()),
            None => seq![Option::<Dec>::None] + run(v, inputs.drop_first()),
        }
    }
}

/// Replay determinism: advancing is a pure function of the state and the
/// input, so two indicators in equal states — a freshly constructed one
/// and one just reset to the same parameters, whose contracts both give
/// the view `init` — produce identical output sequences for identical
/// input sequences, however long.
pub proof fn lemma_reset_replay(a: ExponentialMovingAverageView, b: ExponentialMovingAverageView, inputs: Seq<Dec>)
    requires
        a == b,
    ensures
        run(a, inputs) == run(b, inputs),
{
}

} // verus!
