//! Rate of change (ROC): the percentage move against the value `period`
//! observations ago.
//!
//! Before the window has filled once, the reference value is the very
//! first observation ever seen, not a zero-filled slot; this is a
//! deliberate edge-case policy that avoids division artifacts during the
//! cold start.

use crate::decimal::{dec_div, dec_mul, dec_sub, digits_of, div_of, format_usize, mul_of, sub_of, Dec};
use crate::errors::TaError;
use crate::helpers::{zero_window, zero_window_spec};
use crate::traits::{Close, Next, Period, Reset};
use vstd::prelude::*;

verus! {

/// The mathematical state of a rate-of-change indicator.
pub struct RateOfChangeView {
    /// The lag, fixed at construction.
    pub period: nat,
    /// The write cursor: the slot the next observation lands in.
    pub index: nat,
    /// How many observations have been seen, capped at `period + 1`.
    pub count: nat,
    /// The retained observations, in slot order.
    pub window: Seq<Dec>,
}

impl RateOfChangeView {
    /// The state directly after construction with the given period.
    pub open spec fn init(period: nat) -> RateOfChangeView {
        RateOfChangeView { period, index: 0, count: 0, window: zero_window_spec(period) }
    }

    /// The reference value: the retained observation `period` steps back
    /// once enough have been seen; until then the first observation ever
    /// seen, which on the very first call is the input itself.
    pub open spec fn reference(self, input: Dec) -> Dec {
        if self.count > self.period {
            self.window[self.index as int]
        } else if self.count + 1 == 1 {
            input
        } else {
            self.window[0]
        }
    }

    /// One advance: the result is `(input - reference) / reference * 100`.
    /// `None` when the reference is zero or the decimal arithmetic leaves
    /// the representable range.
    pub open spec fn step(self, input: Dec) -> Option<(RateOfChangeView, Dec)> {
        let previous = self.reference(input);
        let count2: nat = if self.count > self.period {
            self.count
        } else {
            self.count + 1
        };
        let index2: nat = if self.index + 1 < self.period {
            self.index + 1
        } else {
            0
        };
        let state2 = RateOfChangeView {
            period: self.period,
            index: index2,
            count: count2,
            window: self.window.update(self.index as int, input),
        };
        match sub_of(input, previous) {
            Some(moved) => match div_of(moved, previous) {
                Some(ratio) => match mul_of(ratio, Dec::from_spec(1000, 1)) {
                    Some(out) => Some((state2, out)),
                    None => None,
                },
                None => None,
            },
            None => None,
        }
    }
}

/// Rate of change against the observation `period` steps back.
#[derive(Debug)]
pub struct RateOfChange {
    period: usize,
    index: usize,
    count: usize,
    deque: Vec<Dec>,
}

impl View for RateOfChange {
    type V = RateOfChangeView;

    closed spec fn view(&self) -> RateOfChangeView {
        RateOfChangeView {
            period: self.period as nat,
            index: self.index as nat,
            count: self.count as nat,
            window: self.deque@,
        }
    }
}

impl RateOfChange {
    #[verifier::type_invariant]
    spec fn inv(self) -> bool {
        &&& 1 <= self.period < usize::MAX
        &&& self.index < self.period
        &&& self.count <= self.period + 1
        &&& self.deque@.len() == self.period as nat
    }

    /// Builds the indicator with a zero-filled window.
    fn with_period(period: usize) -> (r: RateOfChange)
        requires
            1 <= period < usize::MAX,
        ensures
            r@ == RateOfChangeView::init(period as nat),
    {
        RateOfChange { period, index: 0, count: 0, deque: zero_window(period) }
    }

    /// Constructs the indicator, rejecting a zero period and accepting any
    /// other that leaves room for the observation count to pass it.
    pub fn new(period: usize) -> (r: Result<RateOfChange, TaError>)
        requires
            period < usize::MAX,
        ensures
            period == 0 <==> r is Err,
            r matches Err(e) ==> e == TaError::InvalidParameter,
            r matches Ok(s) ==> s@ == RateOfChangeView::init(period as nat),
    {
        if period == 0 {
            Err(TaError::InvalidParameter)
        } else {
            Ok(Self::with_period(period))
        }
    }
}

impl Period for RateOfChange {
    fn period(&self) -> (r: usize)
        ensures
            r as nat == self@.period,
    {
        self.period
    }
}

impl Next<Dec> for RateOfChange {
    type Output = Option<Dec>;

    /// Besides the exact step, the cold-start policy is a law of its
    /// own: on the very first advance the reference is the input itself,
    /// so any nonzero input moves against itself by exactly zero.
    fn next(&mut self, input: Dec) -> (r: Option<Dec>)
        ensures
            old(self)@.step(input) matches Some(sr) ==> r == Some(sr.1) && final(self)@ == sr.0,
            old(self)@.step(input) is None ==> r is None && final(self)@ == old(self)@,
            old(self)@.count == 0 && input.m() != 0 ==> r == Some(Dec::from_spec(0, 0)),
    {
        proof {
            use_type_invariant(&*self);
        }
        let previous = if self.count > self.period {
            self.deque[self.index]
        } else if self.count == 0 {
            input
        } else {
            self.deque[0]
        };
        let count2 = if self.count > self.period {
            self.count
        } else {
            self.count + 1
        };
        let moved = match dec_sub(input, previous) {
            Some(v) => v,
            None => {
                return None;
            },
        };
        let ratio = match dec_div(moved, previous) {
            Some(v) => v,
            None => {
                return None;
            },
        };
        let out = match dec_mul(ratio, Dec::new(1000, 1)) {
            Some(v) => v,
            None => {
                return None;
            },
        };
        let index2 = if self.index + 1 < self.period {
            self.index + 1
        } else {
            0
        };
        self.deque[self.index] = input;
        self.index = index2;
        self.count = count2;
        Some(out)
    }
}

impl<T: Close> Next<&T> for RateOfChange {
    type Output = Option<Dec>;

    fn next(&mut self, input: &T) -> (r: Option<Dec>)
        ensures
            old(self)@.step(input.close_spec()) matches Some(sr) ==> r == Some(sr.1) && final(self)@ == sr.0,
            old(self)@.step(input.close_spec()) is None ==> r is None && final(self)@ == old(self)@,
    {
        self.next(input.close())
    }
}

impl Reset for RateOfChange {
    fn reset(&mut self)
        ensures
            final(self)@ == RateOfChangeView::init(old(self)@.period),
    {
        proof {
            use_type_invariant(&*self);
        }
        self.index = 0;
        self.count = 0;
        self.deque = zero_window(self.period);
    }
}

impl Default for RateOfChange {
    /// The documented default period of 9.
    fn default() -> (r: Self)
        ensures
            r@ == RateOfChangeView::init(9),
    {
        Self::with_period(9)
    }
}

impl RateOfChange {
    /// The human-readable label `ROC(period)`.
    pub fn label(&self) -> (s: String)
        ensures
            s@ == "ROC("@ + digits_of(self@.period) + ")"@,
    {
        String::from_str("ROC(").concat(format_usize(self.period).as_str()).concat(")")
    }
}

/// The output sequence an indicator in state `v` produces over a whole
/// input stream, advancing one observation at a time. A step whose
/// arithmetic left the representable range reports `None` and leaves the
/// state unchanged.
pub open spec fn run(v: RateOfChangeView, inputs: Seq<Dec>) -> Seq<Option<Dec>>
    decreases inputs.len(),
{
    if inputs.len() == 0 {
        Seq::empty()
    } else {
        match v.step(inputs[0]) {
            Some(sr) => seq![Some(sr.1)] + run(sr.0, inputs.drop_first()),
            None => seq![Option::<Dec>::None] + run(v, inputs.drop_first()),
        }
    }
}

/// Replay determinism: advancing is a pure function of the state and the
/// input, so two indicators in equal states — a freshly constructed one
/// and one just reset to the same parameters, whose contracts both give
/// the view `init` — produce identical output sequences for identical
/// input sequences, however long.
pub proof fn lemma_reset_replay(a: RateOfChangeView, b: RateOfChangeView, inputs: Seq<Dec>)
    requires
        a == b,
    ensures
        run(a, inputs) == run(b, inputs),
{
}

/// Fixed memory and a capped count: one advance replaces a slot but
/// never grows the window, so the buffer keeps exactly `period` entries
/// no matter how many observations have streamed through, and the
/// observation count grows only until it first exceeds the period.
pub proof fn lemma_window_length(v: RateOfChangeView, input: Dec)
    requires
        v.index < v.window.len(),
    ensures
        v.step(input) matches Some(sr) ==> sr.0.window.len() == v.window.len() && sr.0.period == v.period && sr.0.count == (if v.count > v.period { v.count } else { v.count + 1 }),
{
    match v.step(input) {
        Some(sr) => {
            assert(sr.0.window == v.window.update(v.index as int, input));
        },
        None => {},
    }
}

} // verus!
