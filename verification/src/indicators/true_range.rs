//! True range: the day's range extended to yesterday's close when that
//! close fell outside it.
//!
//! For a full bar the result is the largest of `high - low`,
//! `|high - previous close|` and `|low - previous close|`; on the very
//! first call, with no previous close remembered, it is `high - low`
//! alone. A bare scalar stream degenerates to `|price - previous price|`,
//! zero on the first call.

use crate::decimal::{dec_sub, sub_of, Dec};
use crate::helpers::{max3, max3_spec};
use crate::traits::{Close, High, Low, Next, Reset};
use vstd::prelude::*;

verus! {

/// The mathematical state of a true-range indicator: only the remembered
/// previous close.
pub struct TrueRangeView {
    /// The close of the previous observation, once one has been seen.
    pub prev_close: Option<Dec>,
}

impl TrueRangeView {
    /// The state directly after construction.
    pub open spec fn init() -> TrueRangeView {
        TrueRangeView { prev_close: None }
    }

    /// One scalar advance: the absolute move against the previous value,
    /// zero on the first call. `None` when the subtraction leaves the
    /// representable range.
    pub open spec fn step(self, input: Dec) -> Option<(TrueRangeView, Dec)> {
        let state2 = TrueRangeView { prev_close: Some(input) };
        match self.prev_close {
            Some(prev) => match sub_of(input, prev) {
                Some(moved) => Some((state2, moved.abs_spec())),
                None => None,
            },
            None => Some((state2, Dec::from_spec(0, 1))),
        }
    }

    /// One bar advance: the largest of the range and the two distances to
    /// the previous close; the range alone on the first call.
    pub open spec fn step_bar(self, high: Dec, low: Dec, close: Dec) -> Option<
        (TrueRangeView, Dec),
    > {
        let state2 = TrueRangeView { prev_close: Some(close) };
        match self.prev_close {
            Some(prev) => match (sub_of(high, low), sub_of(high, prev), sub_of(low, prev)) {
                (Some(range), Some(up), Some(down)) => Some(
                    (state2, max3_spec(range, up.abs_spec(), down.abs_spec())),
                ),
                _ => None,
            },
            None => match sub_of(high, low) {
                Some(range) => Some((state2, range)),
                None => None,
            },
        }
    }
}

/// True range of a price stream.
#[derive(Debug)]
pub struct TrueRange {
    prev_close: Option<Dec>,
}

impl View for TrueRange {
    type V = TrueRangeView;

    closed spec fn view(&self) -> TrueRangeView {
        TrueRangeView { prev_close: self.prev_close }
    }
}

impl TrueRange {
    /// Constructs the indicator with no remembered close.
    pub fn new() -> (r: TrueRange)
        ensures
            r@ == TrueRangeView::init(),
    {
        TrueRange { prev_close: None }
    }
}

impl Next<Dec> for TrueRange {
    type Output = Option<Dec>;

    fn next(&mut self, input: Dec) -> (r: Option<Dec>)
        ensures
            old(self)@.step(input) matches Some(sr) ==> r == Some(sr.1) && final(self)@ == sr.0,
            old(self)@.step(input) is None ==> r is None && final(self)@ == old(self)@,
    {
        let distance = match self.prev_close {
            Some(prev) => {
                match dec_sub(input, prev) {
                    Some(moved) => moved.abs(),
                    None => {
                        return None;
                    },
                }
            },
            None => Dec::new(0, 1),
        };
        self.prev_close = Some(input);
        Some(distance)
    }
}

impl<T: High + Low + Close> Next<&T> for TrueRange {
    type Output = Option<Dec>;

    fn next(&mut self, bar: &T) -> (r: Option<Dec>)
        ensures
            old(self)@.step_bar(bar.high_spec(), bar.low_spec(), bar.close_spec()) matches Some(sr) ==> r == Some(sr.1) && final(self)@ == sr.0,
            old(self)@.step_bar(bar.high_spec(), bar.low_spec(), bar.close_spec()) is None ==> r is None && final(self)@ == old(self)@,
    {
        let max_dist = match self.prev_close {
            Some(prev) => {
                let range = match dec_sub(bar.high(), bar.low()) {
                    Some(v) => v,
                    None => {
                        return None;
                    },
                };
                let up = match dec_sub(bar.high(), prev) {
                    Some(v) => v,
                    None => {
                        return None;
                    },
                };
                let down = match dec_sub(bar.low(), prev) {
                    Some(v) => v,
                    None => {
                        return None;
                    },
                };
                max3(range, up.abs(), down.abs())
            },
            None => {
                match dec_sub(bar.high(), bar.low()) {
                    Some(v) => v,
                    None => {
                        return None;
                    },
                }
            },
        };
        self.prev_close = Some(bar.close());
        Some(max_dist)
    }
}

impl Reset for TrueRange {
    fn reset(&mut self)
        ensures
            final(self)@ == TrueRangeView::init(),
    {
        self.prev_close = None;
    }
}

impl Default for TrueRange {
    fn default() -> (r: Self)
        ensures
            r@ == TrueRangeView::init(),
    {
        Self::new()
    }
}

impl TrueRange {
    /// The human-readable label `TRUE_RANGE()`.
    pub fn label(&self) -> (s: String)
        ensures
            s@ == "TRUE_RANGE()"@,
    {
        String::from_str("TRUE_RANGE()")
    }
}

/// The output sequence an indicator in state `v` produces over a whole
/// input stream, advancing one observation at a time. A step whose
/// arithmetic left the representable range reports `None` and leaves the
/// state unchanged.
pub open spec fn run(v: TrueRangeView, inputs: Seq<Dec>) -> Seq<Option<Dec>>
    decreases inputs.len(),
{
    if inputs.len() == 0 {
        Seq::empty()
    } else {
        match v.step(inputs[0]) {
            Some(sr) => seq![Some(sr.1)] + run(sr.0, inputs.drop_first()),
            None => seq![Option::<Dec>::None] + run(v, inputs.drop_first()),
        }
    }
}

/// Replay determinism: advancing is a pure function of the state and the
/// input, so two indicators in equal states — a freshly constructed one
/// and one just reset to the same parameters, whose contracts both give
/// the view `init` — produce identical output sequences for identical
/// input sequences, however long.
pub proof fn lemma_reset_replay(a: TrueRangeView, b: TrueRangeView, inputs: Seq<Dec>)
    requires
        a == b,
    ensures
        run(a, inputs) == run(b, inputs),
{
}

} // verus!
