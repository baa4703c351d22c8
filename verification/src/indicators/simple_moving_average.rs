//! Simple moving average (SMA): the mean of the most recent `period`
//! observations, maintained in constant time per update.
//!
//! A fixed-capacity circular window stores the last `period` inputs. Each
//! advance overwrites the slot under the write cursor, shifts the running
//! sum by the evicted and inserted values, and divides by the number of
//! observations retained: the count seen so far until the window first
//! fills, and the period from then on.

use crate::decimal::{add_of, dec_add, dec_div, dec_sub, digits_of, div_of, format_usize, sub_of, Dec};
use crate::errors::TaError;
use crate::helpers::{zero_window, zero_window_spec};
use crate::traits::{Close, Next, Period, Reset};
use vstd::prelude::*;

verus! {

/// The mathematical state of a simple moving average.
pub struct SimpleMovingAverageView {
    /// The window length, fixed at construction.
    pub period: nat,
    /// The write cursor: the slot the next observation lands in.
    pub index: nat,
    /// How many observations have been seen, capped at the period.
    pub count: nat,
    /// The running sum of the retained observations.
    pub sum: Dec,
    /// The retained observations, in slot order.
    pub window: Seq<Dec>,
}

impl SimpleMovingAverageView {
    /// The state directly after construction with the given period.
    pub open spec fn init(period: nat) -> SimpleMovingAverageView {
        SimpleMovingAverageView {
            period,
            index: 0,
            count: 0,
            sum: Dec::from_spec(0, 1),
            window: zero_window_spec(period),
        }
    }

    /// One advance: the slot under the cursor is overwritten, the running
    /// sum sheds the evicted value and absorbs the new one, and the result
    /// is the sum divided by the observation count capped at the period.
    /// `None` when the decimal arithmetic leaves the representable range.
    pub open spec fn step(self, input: Dec) -> Option<(SimpleMovingAverageView, Dec)> {
        let evicted = self.window[self.index as int];
        let index2: nat = if self.index + 1 < self.period {
            self.index + 1
        } else {
            0
        };
        let count2: nat = if self.count < self.period {
            self.count + 1
        } else {
            self.count
        };
        match sub_of(self.sum, evicted) {
            Some(shed) => match add_of(shed, input) {
                Some(sum2) => match div_of(sum2, Dec::from_spec(count2 as int, 0)) {
                    Some(out) => Some(
                        (
                            SimpleMovingAverageView {
                                period: self.period,
                                index: index2,
                                count: count2,
                                sum: sum2,
                                window: self.window.update(self.index as int, input),
                            },
                            out,
                        ),
                    ),
                    None => None,
                },
                None => None,
            },
            None => None,
        }
    }
}

/// Simple moving average over the last `period` observations.
#[derive(Debug)]
pub struct SimpleMovingAverage {
    period: usize,
    index: usize,
    count: usize,
    sum: Dec,
    deque: Vec<Dec>,
}

impl View for SimpleMovingAverage {
    type V = SimpleMovingAverageView;

    closed spec fn view(&self) -> SimpleMovingAverageView {
        SimpleMovingAverageView {
            period: self.period as nat,
            index: self.index as nat,
            count: self.count as nat,
            sum: self.sum,
            window: self.deque@,
        }
    }
}

impl SimpleMovingAverage {
    #[verifier::type_invariant]
    spec fn inv(self) -> bool {
        &&& self.period >= 1
        &&& self.index < self.period
        &&& self.count <= self.period
        &&& self.deque@.len() == self.period as nat
    }

    /// Builds the indicator with every accumulator zeroed.
    fn with_period(period: usize) -> (r: SimpleMovingAverage)
        requires
            period >= 1,
        ensures
            r@ == SimpleMovingAverageView::init(period as nat),
    {
        SimpleMovingAverage {
            period,
            index: 0,
            count: 0,
            sum: Dec::new(0, 1),
            deque: zero_window(period),
        }
    }

    /// Constructs the indicator, rejecting a zero period and accepting any
    /// other.
    pub fn new(period: usize) -> (r: Result<SimpleMovingAverage, TaError>)
        ensures
            period == 0 <==> r is Err,
            r matches Err(e) ==> e == TaError::InvalidParameter,
            r matches Ok(s) ==> s@ == SimpleMovingAverageView::init(period as nat),
    {
        if period == 0 {
            Err(TaError::InvalidParameter)
        } else {
            Ok(Self::with_period(period))
        }
    }
}

impl Period for SimpleMovingAverage {
    fn period(&self) -> (r: usize)
        ensures
            r as nat == self@.period,
    {
        self.period
    }
}

impl Next<Dec> for SimpleMovingAverage {
    type Output = Option<Dec>;

    fn next(&mut self, input: Dec) -> (r: Option<Dec>)
        ensures
            old(self)@.step(input) matches Some(sr) ==> r == Some(sr.1) && final(self)@ == sr.0,
            old(self)@.step(input) is None ==> r is None && final(self)@ == old(self)@,
    {
        proof {
            use_type_invariant(&*self);
        }
        let evicted = self.deque[self.index];
        let shed = match dec_sub(self.sum, evicted) {
            Some(v) => v,
            None => {
                return None;
            },
        };
        let sum2 = match dec_add(shed, input) {
            Some(v) => v,
            None => {
                return None;
            },
        };
        let count2 = if self.count < self.period {
            self.count + 1
        } else {
            self.count
        };
        let out = match dec_div(sum2, Dec::from_usize(count2)) {
            Some(v) => v,
            None => {
                return None;
            },
        };
        let index2 = if self.index + 1 < self.period {
            self.index + 1
        } else {
            0
        };
        self.deque[self.index] = input;
        self.index = index2;
        self.count = count2;
        self.sum = sum2;
        Some(out)
    }
}

impl<T: Close> Next<&T> for SimpleMovingAverage {
    type Output = Option<Dec>;

    fn next(&mut self, input: &T) -> (r: Option<Dec>)
        ensures
            old(self)@.step(input.close_spec()) matches Some(sr) ==> r == Some(sr.1) && final(self)@ == sr.0,
            old(self)@.step(input.close_spec()) is None ==> r is None && final(self)@ == old(self)@,
    {
        self.next(input.close())
    }
}

impl Reset for SimpleMovingAverage {
    fn reset(&mut self)
        ensures
            final(self)@ == SimpleMovingAverageView::init(old(self)@.period),
    {
        proof {
            use_type_invariant(&*self);
        }
        self.index = 0;
        self.count = 0;
        self.sum = Dec::new(0, 1);
        self.deque = zero_window(self.period);
    }
}

impl Default for SimpleMovingAverage {
    /// The documented default period of 9.
    fn default() -> (r: Self)
        ensures
            r@ == SimpleMovingAverageView::init(9),
    {
        Self::with_period(9)
    }
}

impl SimpleMovingAverage {
    /// The human-readable label `SMA(period)`.
    pub fn label(&self) -> (s: String)
        ensures
            s@ == "SMA("@ + digits_of(self@.period) + ")"@,
    {
        String::from_str("SMA(").concat(format_usize(self.period).as_str()).concat(")")
    }
}

/// The output sequence an indicator in state `v` produces over a whole
/// input stream, advancing one observation at a time. A step whose
/// arithmetic left the representable range reports `None` and leaves the
/// state unchanged.
pub open spec fn run(v: SimpleMovingAverageView, inputs: Seq<Dec>) -> Seq<Option<Dec>>
    decreases inputs.len(),
{
    if inputs.len() == 0 {
        Seq::empty()
    } else {
        match v.step(inputs[0]) {
            Some(sr) => seq![Some(sr.1)] + run(sr.0, inputs.drop_first()),
            None => seq![Option::<Dec>::None] + run(v, inputs.drop_first()),
        }
    }
}

/// Replay determinism: advancing is a pure function of the state and the
/// input, so two indicators in equal states — a freshly constructed one
/// and one just reset to the same parameters, whose contracts both give
/// the view `init` — produce identical output sequences for identical
/// input sequences, however long.
pub proof fn lemma_reset_replay(a: SimpleMovingAverageView, b: SimpleMovingAverageView, inputs: Seq<Dec>)
    requires
        a == b,
    ensures
        run(a, inputs) == run(b, inputs),
{
}

/// Fixed memory and a capped count: one advance replaces a slot but
/// never grows the window, so the buffer keeps exactly `period` entries
/// no matter how many observations have streamed through, and the
/// observation count grows only until it reaches the period.
pub proof fn lemma_window_length(v: SimpleMovingAverageView, input: Dec)
    requires
        v.index < v.window.len(),
    ensures
        v.step(input) matches Some(sr) ==> sr.0.window.len() == v.window.len() && sr.0.period == v.period && sr.0.count == (if v.count < v.period { v.count + 1 } else { v.count }),
{
    match v.step(input) {
        Some(sr) => {
            assert(sr.0.window == v.window.update(v.index as int, input));
        },
        None => {},
    }
}

} // verus!
