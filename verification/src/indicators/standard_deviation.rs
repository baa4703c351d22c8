//! Standard deviation (SD) of the last `period` observations, maintained
//! by a Welford-style incremental mean/variance update.
//!
//! Two distinct formulas drive the update: classic Welford against a
//! growing count while the window is still filling, and a modified update
//! that both adds the new value and removes the evicted one once the
//! window is full. The running sum of squared deviations is clamped to
//! zero before the square root, so decimal round-off can never produce a
//! negative radicand.

use crate::decimal::{
    add_of, dec_add, dec_div, dec_lt, dec_mul, dec_sqrt, dec_sub, digits_of, div_of, format_usize,
    lemma_from_spec, lemma_not_below_zero, lt_num, mul_of, sqrt_of, sub_of, Dec,
};
use crate::errors::TaError;
use crate::helpers::{zero_window, zero_window_spec};
use crate::traits::{Close, Next, Period, Reset};
use vstd::prelude::*;

verus! {

/// The mathematical state of a running standard deviation.
pub struct StandardDeviationView {
    /// The window length, fixed at construction.
    pub period: nat,
    /// The write cursor: the slot the next observation lands in.
    pub index: nat,
    /// How many observations have been seen, capped at the period.
    pub count: nat,
    /// The running mean of the retained observations.
    pub mean: Dec,
    /// The running sum of squared deviations from the mean.
    pub m2: Dec,
    /// The retained observations, in slot order.
    pub window: Seq<Dec>,
}

impl StandardDeviationView {
    /// The state directly after construction with the given period.
    pub open spec fn init(period: nat) -> StandardDeviationView {
        StandardDeviationView {
            period,
            index: 0,
            count: 0,
            mean: Dec::from_spec(0, 1),
            m2: Dec::from_spec(0, 1),
            window: zero_window_spec(period),
        }
    }

    /// The Welford update while the window is filling: the mean moves by
    /// `delta / count`, and the squared-deviation sum grows by
    /// `delta * delta2` for the deltas against the old and new mean.
    pub open spec fn growing_update(self, input: Dec, count2: nat) -> Option<(Dec, Dec)> {
        let delta = sub_of(input, self.mean);
        match delta {
            Some(delta) => match div_of(delta, Dec::from_spec(count2 as int, 0)) {
                Some(shift) => match add_of(self.mean, shift) {
                    Some(mean2) => match sub_of(input, mean2) {
                        Some(delta2) => match mul_of(delta, delta2) {
                            Some(prod) => match add_of(self.m2, prod) {
                                Some(m22) => Some((mean2, m22)),
                                None => None,
                            },
                            None => None,
                        },
                        None => None,
                    },
                    None => None,
                },
                None => None,
            },
            None => None,
        }
    }

    /// The update once the window is full: the new value enters and the
    /// evicted one leaves in a single step, so the mean moves by
    /// `(input - evicted) / period`.
    pub open spec fn full_update(self, input: Dec, evicted: Dec) -> Option<(Dec, Dec)> {
        let delta = sub_of(input, evicted);
        match delta {
            Some(delta) => match div_of(delta, Dec::from_spec(self.period as int, 0)) {
                Some(shift) => match add_of(self.mean, shift) {
                    Some(mean2) => match sub_of(input, mean2) {
                        Some(t1) => match add_of(t1, evicted) {
                            Some(t2) => match sub_of(t2, self.mean) {
                                Some(delta2) => match mul_of(delta, delta2) {
                                    Some(prod) => match add_of(self.m2, prod) {
                                        Some(m22) => Some((mean2, m22)),
                                        None => None,
                                    },
                                    None => None,
                                },
                                None => None,
                            },
                            None => None,
                        },
                        None => None,
                    },
                    None => None,
                },
                None => None,
            },
            None => None,
        }
    }

    /// One advance: the slot under the cursor is overwritten, mean and
    /// squared-deviation sum move by the phase-appropriate Welford
    /// formula, the squared-deviation sum is clamped to zero, and the
    /// result is the square root of its quotient by the retained count.
    /// `None` when the decimal arithmetic leaves the representable range.
    pub open spec fn step(self, input: Dec) -> Option<(StandardDeviationView, Dec)> {
        let evicted = self.window[self.index as int];
        let index2: nat = if self.index + 1 < self.period {
            self.index + 1
        } else {
            0
        };
        let count2: nat = if self.count < self.period {
            self.count + 1
        } else {
            self.count
        };
        let update = if self.count < self.period {
            self.growing_update(input, count2)
        } else {
            self.full_update(input, evicted)
        };
        match update {
            Some((mean2, m22)) => {
                let m2c = if lt_num(m22, Dec::from_spec(0, 1)) {
                    Dec::from_spec(0, 1)
                } else {
                    m22
                };
                match div_of(m2c, Dec::from_spec(count2 as int, 0)) {
                    Some(ratio) => match sqrt_of(ratio) {
                        Some(out) => Some(
                            (
                                StandardDeviationView {
                                    period: self.period,
                                    index: index2,
                                    count: count2,
                                    mean: mean2,
                                    m2: m2c,
                                    window: self.window.update(self.index as int, input),
                                },
                                out,
                            ),
                        ),
                        None => None,
                    },
                    None => None,
                }
            },
            None => None,
        }
    }
}

/// Standard deviation of the last `period` observations.
#[derive(Debug)]
pub struct StandardDeviation {
    period: usize,
    index: usize,
    count: usize,
    m: Dec,
    m2: Dec,
    deque: Vec<Dec>,
}

impl View for StandardDeviation {
    type V = StandardDeviationView;

    closed spec fn view(&self) -> StandardDeviationView {
        StandardDeviationView {
            period: self.period as nat,
            index: self.index as nat,
            count: self.count as nat,
            mean: self.m,
            m2: self.m2,
            window: self.deque@,
        }
    }
}

impl StandardDeviation {
    #[verifier::type_invariant]
    spec fn inv(self) -> bool {
        &&& self.period >= 1
        &&& self.index < self.period
        &&& self.count <= self.period
        &&& self.deque@.len() == self.period as nat
    }

    /// Builds the indicator with every accumulator zeroed.
    fn with_period(period: usize) -> (r: StandardDeviation)
        requires
            period >= 1,
        ensures
            r@ == StandardDeviationView::init(period as nat),
    {
        StandardDeviation {
            period,
            index: 0,
            count: 0,
            m: Dec::new(0, 1),
            m2: Dec::new(0, 1),
            deque: zero_window(period),
        }
    }

    /// Constructs the indicator, rejecting a zero period and accepting any
    /// other.
    pub fn new(period: usize) -> (r: Result<StandardDeviation, TaError>)
        ensures
            period == 0 <==> r is Err,
            r matches Err(e) ==> e == TaError::InvalidParameter,
            r matches Ok(s) ==> s@ == StandardDeviationView::init(period as nat),
    {
        if period == 0 {
            Err(TaError::InvalidParameter)
        } else {
            Ok(Self::with_period(period))
        }
    }

    /// The running mean of the retained observations: a read-back of the
    /// last computed mean, not a fresh computation, so composites built on
    /// this accumulator stay constant-time.
    pub fn mean(&self) -> (r: Dec)
        ensures
            r == self@.mean,
    {
        self.m
    }
}

impl Period for StandardDeviation {
    fn period(&self) -> (r: usize)
        ensures
            r as nat == self@.period,
    {
        self.period
    }
}

impl Next<Dec> for StandardDeviation {
    type Output = Option<Dec>;

    /// Besides the exact step, two consequences of the formulas are laws
    /// of their own: a standard deviation is never negative, and the very
    /// first observation after construction or reset deviates from itself
    /// by exactly zero.
    fn next(&mut self, input: Dec) -> (r: Option<Dec>)
        ensures
            old(self)@.step(input) matches Some(sr) ==> r == Some(sr.1) && final(self)@ == sr.0,
            old(self)@.step(input) is None ==> r is None && final(self)@ == old(self)@,
            r matches Some(v) ==> v.m() >= 0,
            old(self)@ == StandardDeviationView::init(old(self)@.period) ==> r == Some(Dec::from_spec(0, 0)),
            old(self)@ == StandardDeviationView::init(old(self)@.period) && input.m() != 0 ==> final(self)@.mean == input,
    {
        proof {
            use_type_invariant(&*self);
            lemma_from_spec(0, 0);
            lemma_from_spec(0, 1);
        }
        let evicted = self.deque[self.index];
        let count2 = if self.count < self.period {
            self.count + 1
        } else {
            self.count
        };
        let (mean2, m22) = if self.count < self.period {
            let delta = match dec_sub(input, self.m) {
                Some(v) => v,
                None => {
                    return None;
                },
            };
            let shift = match dec_div(delta, Dec::from_usize(count2)) {
                Some(v) => v,
                None => {
                    return None;
                },
            };
            let mean2 = match dec_add(self.m, shift) {
                Some(v) => v,
                None => {
                    return None;
                },
            };
            let delta2 = match dec_sub(input, mean2) {
                Some(v) => v,
                None => {
                    return None;
                },
            };
            let prod = match dec_mul(delta, delta2) {
                Some(v) => v,
                None => {
                    return None;
                },
            };
            let m22 = match dec_add(self.m2, prod) {
                Some(v) => v,
                None => {
                    return None;
                },
            };
            (mean2, m22)
        } else {
            let delta = match dec_sub(input, evicted) {
                Some(v) => v,
                None => {
                    return None;
                },
            };
            let shift = match dec_div(delta, Dec::from_usize(self.period)) {
                Some(v) => v,
                None => {
                    return None;
                },
            };
            let mean2 = match dec_add(self.m, shift) {
                Some(v) => v,
                None => {
                    return None;
                },
            };
            let t1 = match dec_sub(input, mean2) {
                Some(v) => v,
                None => {
                    return None;
                },
            };
            let t2 = match dec_add(t1, evicted) {
                Some(v) => v,
                None => {
                    return None;
                },
            };
            let delta2 = match dec_sub(t2, self.m) {
                Some(v) => v,
                None => {
                    return None;
                },
            };
            let prod = match dec_mul(delta, delta2) {
                Some(v) => v,
                None => {
                    return None;
                },
            };
            let m22 = match dec_add(self.m2, prod) {
                Some(v) => v,
                None => {
                    return None;
                },
            };
            (mean2, m22)
        };
        let zero = Dec::new(0, 1);
        let clamped = dec_lt(&m22, &zero);
        let m2c = if clamped {
            zero
        } else {
            m22
        };
        proof {
            if !clamped {
                lemma_not_below_zero(m22, zero);
            }
        }
        let ratio = match dec_div(m2c, Dec::from_usize(count2)) {
            Some(v) => v,
            None => {
                return None;
            },
        };
        let out = match dec_sqrt(ratio) {
            Some(v) => v,
            None => {
                return None;
            },
        };
        let index2 = if self.index + 1 < self.period {
            self.index + 1
        } else {
            0
        };
        self.deque[self.index] = input;
        self.index = index2;
        self.count = count2;
        self.m = mean2;
        self.m2 = m2c;
        Some(out)
    }
}

impl<T: Close> Next<&T> for StandardDeviation {
    type Output = Option<Dec>;

    fn next(&mut self, input: &T) -> (r: Option<Dec>)
        ensures
            old(self)@.step(input.close_spec()) matches Some(sr) ==> r == Some(sr.1) && final(self)@ == sr.0,
            old(self)@.step(input.close_spec()) is None ==> r is None && final(self)@ == old(self)@,
    {
        self.next(input.close())
    }
}

impl Reset for StandardDeviation {
    fn reset(&mut self)
        ensures
            final(self)@ == StandardDeviationView::init(old(self)@.period),
    {
        proof {
            use_type_invariant(&*self);
        }
        self.index = 0;
        self.count = 0;
        self.m = Dec::new(0, 1);
        self.m2 = Dec::new(0, 1);
        self.deque = zero_window(self.period);
    }
}

impl Default for StandardDeviation {
    /// The documented default period of 9.
    fn default() -> (r: Self)
        ensures
            r@ == StandardDeviationView::init(9),
    {
        Self::with_period(9)
    }
}

impl StandardDeviation {
    /// The human-readable label `SD(period)`.
    pub fn label(&self) -> (s: String)
        ensures
            s@ == "SD("@ + digits_of(self@.period) + ")"@,
    {
        String::from_str("SD(").concat(format_usize(self.period).as_str()).concat(")")
    }
}

/// The output sequence an indicator in state `v` produces over a whole
/// input stream, advancing one observation at a time. A step whose
/// arithmetic left the representable range reports `None` and leaves the
/// state unchanged.
pub open spec fn run(v: StandardDeviationView, inputs: Seq<Dec>) -> Seq<Option<Dec>>
    decreases inputs.len(),
{
    if inputs.len() == 0 {
        Seq::empty()
    } else {
        match v.step(inputs[0]) {
            Some(sr) => seq![Some(sr.1)] + run(sr.0, inputs.drop_first()),
            None => seq![Option::<Dec>::None] + run(v, inputs.drop_first()),
        }
    }
}

/// Replay determinism: advancing is a pure function of the state and the
/// input, so two indicators in equal states — a freshly constructed one
/// and one just reset to the same parameters, whose contracts both give
/// the view `init` — produce identical output sequences for identical
/// input sequences, however long.
pub proof fn lemma_reset_replay(a: StandardDeviationView, b: StandardDeviationView, inputs: Seq<Dec>)
    requires
        a == b,
    ensures
        run(a, inputs) == run(b, inputs),
{
}

/// Fixed memory and a capped count: one advance replaces a slot but
/// never grows the window, so the buffer keeps exactly `period` entries
/// no matter how many observations have streamed through, and the
/// observation count grows only until it reaches the period.
pub proof fn lemma_window_length(v: StandardDeviationView, input: Dec)
    requires
        v.index < v.window.len(),
    ensures
        v.step(input) matches Some(sr) ==> sr.0.window.len() == v.window.len() && sr.0.period == v.period && sr.0.count == (if v.count < v.period { v.count + 1 } else { v.count }),
{
    match v.step(input) {
        Some(sr) => {
            assert(sr.0.window == v.window.update(v.index as int, input));
        },
        None => {},
    }
}

} // verus!
