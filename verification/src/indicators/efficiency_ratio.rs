//! Kaufman's efficiency ratio (ER): net price change over a window,
//! divided by the sum of the absolute step-by-step changes that produced
//! it.
//!
//! The ratio ranges between 0 and 1, with higher values marking a more
//! efficient, trending market. Computing the denominator walks the window
//! in chronological order, split into two bounded scans around the wrap
//! point; a flat window makes the denominator exactly zero, and the ratio
//! is defined as 1 in that case.

use crate::decimal::{
    add_of, dec_add, dec_div, dec_eq, dec_sub, diff_aligned, digits_of, div_of, eq_num,
    format_usize, lemma_dec_parts_determine, lemma_from_spec, lemma_not_zero, lemma_pow10_pos,
    pow10, sub_of, Dec,
};
use crate::errors::TaError;
use crate::helpers::{zero_window, zero_window_spec};
use crate::traits::{Close, Next, Period, Reset};
use vstd::prelude::*;

verus! {

/// The total distance travelled: the sum of the absolute differences of
/// each adjacent pair, walked from `previous` through `values` while
/// accumulating onto `acc`. `None` when a difference or the running sum
/// leaves the representable range.
pub open spec fn volatility_fold(previous: Dec, acc: Dec, values: Seq<Dec>) -> Option<Dec>
    decreases values.len(),
{
    if values.len() == 0 {
        Some(acc)
    } else {
        match sub_of(previous, values[0]) {
            Some(moved) => match add_of(acc, moved.abs_spec()) {
                Some(acc2) => volatility_fold(values[0], acc2, values.drop_first()),
                None => None,
            },
            None => None,
        }
    }
}

/// The mathematical state of an efficiency ratio.
pub struct EfficiencyRatioView {
    /// The window length, fixed at construction.
    pub period: nat,
    /// The write cursor: the slot the next observation lands in.
    pub index: nat,
    /// How many observations have been seen, capped at the period.
    pub count: nat,
    /// The retained observations, in slot order.
    pub window: Seq<Dec>,
}

impl EfficiencyRatioView {
    /// The state directly after construction with the given period.
    pub open spec fn init(period: nat) -> EfficiencyRatioView {
        EfficiencyRatioView { period, index: 0, count: 0, window: zero_window_spec(period) }
    }

    /// How many retained slots hold data.
    pub open spec fn retained(self) -> nat {
        if self.count < self.period {
            self.count
        } else {
            self.period
        }
    }

    /// Whether every retained observation is exactly the given value.
    pub open spec fn flat_at(self, x: Dec) -> bool {
        forall|j: int| 0 <= j < self.retained() ==> self.window[j] == x
    }

    /// The reference value: the oldest retained observation, or the
    /// oldest slot overall once the window has wrapped.
    pub open spec fn oldest(self) -> Dec {
        if self.count >= self.period {
            self.window[self.index as int]
        } else {
            self.window[0]
        }
    }

    /// The observation count after one advance.
    pub open spec fn grown_count(self) -> nat {
        if self.count >= self.period {
            self.count
        } else {
            self.count + 1
        }
    }

    /// The write cursor after one advance.
    pub open spec fn next_index(self) -> nat {
        if self.index + 1 < self.period {
            self.index + 1
        } else {
            0
        }
    }

    /// The window after the input lands in the slot under the cursor.
    pub open spec fn stored(self, input: Dec) -> Seq<Dec> {
        self.window.update(self.index as int, input)
    }

    /// The retained observations after the insert, in chronological
    /// order: the two bounded scans around the wrap point, oldest first.
    pub open spec fn walk(self, input: Dec) -> Seq<Dec> {
        self.stored(input).subrange(self.next_index() as int, self.grown_count() as int)
            + self.stored(input).subrange(0, self.next_index() as int)
    }

    /// One advance: the reference is the oldest retained value, the slot
    /// under the cursor is overwritten, and the result is the net change
    /// against the reference divided by the volatility of the window in
    /// chronological order; exactly 1 when the volatility is exactly
    /// zero. `None` when the decimal arithmetic leaves the representable
    /// range.
    pub open spec fn step(self, input: Dec) -> Option<(EfficiencyRatioView, Dec)> {
        let state2 = EfficiencyRatioView {
            period: self.period,
            index: self.next_index(),
            count: self.grown_count(),
            window: self.stored(input),
        };
        match volatility_fold(self.oldest(), Dec::from_spec(0, 1), self.walk(input)) {
            Some(volatility) => {
                if eq_num(volatility, Dec::from_spec(0, 1)) {
                    Some((state2, Dec::from_spec(10, 1)))
                } else {
                    match sub_of(self.oldest(), input) {
                        Some(moved) => match div_of(moved.abs_spec(), volatility) {
                            Some(out) => Some((state2, out)),
                            None => None,
                        },
                        None => None,
                    }
                }
            },
            None => None,
        }
    }
}

/// Kaufman's efficiency ratio over the last `period` observations.
///
/// Until the window first fills, the observation count equals the write
/// cursor, so only a flag recording whether the window has wrapped is
/// stored besides the cursor itself.
#[derive(Debug)]
pub struct EfficiencyRatio {
    period: usize,
    index: usize,
    full: bool,
    deque: Vec<Dec>,
}

impl View for EfficiencyRatio {
    type V = EfficiencyRatioView;

    closed spec fn view(&self) -> EfficiencyRatioView {
        EfficiencyRatioView {
            period: self.period as nat,
            index: self.index as nat,
            count: if self.full {
                self.period as nat
            } else {
                self.index as nat
            },
            window: self.deque@,
        }
    }
}

impl EfficiencyRatio {
    #[verifier::type_invariant]
    spec fn inv(self) -> bool {
        &&& self.period >= 1
        &&& self.index < self.period
        &&& self.deque@.len() == self.period as nat
    }

    /// Builds the indicator with a zero-filled window.
    fn with_period(period: usize) -> (r: EfficiencyRatio)
        requires
            period >= 1,
        ensures
            r@ == EfficiencyRatioView::init(period as nat),
    {
        EfficiencyRatio { period, index: 0, full: false, deque: zero_window(period) }
    }

    /// Constructs the indicator, rejecting a zero period and accepting
    /// any other.
    pub fn new(period: usize) -> (r: Result<EfficiencyRatio, TaError>)
        ensures
            period == 0 <==> r is Err,
            r matches Err(e) ==> e == TaError::InvalidParameter,
            r matches Ok(s) ==> s@ == EfficiencyRatioView::init(period as nat),
    {
        if period == 0 {
            Err(TaError::InvalidParameter)
        } else {
            Ok(Self::with_period(period))
        }
    }
}

impl Period for EfficiencyRatio {
    fn period(&self) -> (r: usize)
        ensures
            r as nat == self@.period,
    {
        self.period
    }
}

/// Whether positions `lo..hi` of the stored window, with `input`
/// standing in for the slot under the cursor `idx0`, appear inside the
/// chronological walk `ordered` starting at `offset`.
spec fn covers(
    ordered: Seq<Dec>,
    offset: int,
    window: Seq<Dec>,
    idx0: int,
    input: Dec,
    lo: int,
    hi: int,
) -> bool {
    forall|t: int| offset <= t < offset + (hi - lo) ==> #[trigger] ordered[t] == (if lo + (t - offset) == idx0 {
        input
    } else {
        window[lo + (t - offset)]
    })
}

/// Walks one contiguous run of slots in chronological order,
/// accumulating the absolute adjacent differences onto `volatility`. The
/// run covers slots `lo..hi` of the stored window, with `input` standing
/// in for the slot under the old cursor `idx0`; `offset` says where the
/// run begins inside the whole chronological walk `ordered`. Returns the
/// carried-forward previous value and accumulated volatility, or `None`
/// when a difference or the sum left the representable range.
fn scan_segment(
    deque: &Vec<Dec>,
    idx0: usize,
    input: Dec,
    lo: usize,
    hi: usize,
    previous: Dec,
    volatility: Dec,
    Ghost(ordered): Ghost<Seq<Dec>>,
    Ghost(offset): Ghost<int>,
    Ghost(flat): Ghost<bool>,
) -> (r: Option<(Dec, Dec)>)
    requires
        lo <= hi <= deque.len(),
        idx0 < deque.len(),
        0 <= offset,
        offset + (hi - lo) <= ordered.len(),
        covers(ordered, offset, deque@, idx0 as int, input, lo as int, hi as int),
        flat ==> previous == input && volatility.m() == 0,
        flat ==> forall|t: int| 0 <= t < ordered.len() ==> ordered[t] == input,
    ensures
        r matches Some(pv) ==> volatility_fold(previous, volatility, ordered.skip(offset)) == volatility_fold(pv.0, pv.1, ordered.skip(offset + (hi - lo))),
        r is None ==> volatility_fold(previous, volatility, ordered.skip(offset)) is None,
        flat ==> r is Some && r->Some_0.0 == input && r->Some_0.1.m() == 0,
        hi == lo ==> r == Some((previous, volatility)),
        volatility.m() >= 0 && r is Some ==> r->Some_0.1.m() >= 0,
        previous.m() == 0 && volatility.m() == 0 && hi - lo == 1 && ordered[offset] == input ==> r is Some && r->Some_0.1.m() == (if input.m() < 0 { -input.m() } else { input.m() }) && r->Some_0.1.s() == input.s(),
{
    let ghost lone = previous.m() == 0 && volatility.m() == 0 && hi - lo == 1 && ordered[offset]
        == input;
    let mut prev = previous;
    let mut vol = volatility;
    let mut i = lo;
    while i < hi
        invariant
            lo <= i <= hi <= deque.len(),
            idx0 < deque.len(),
            0 <= offset,
            offset + (hi - lo) <= ordered.len(),
            covers(ordered, offset, deque@, idx0 as int, input, lo as int, hi as int),
            volatility_fold(previous, volatility, ordered.skip(offset)) == volatility_fold(prev, vol, ordered.skip(offset + (i - lo))),
            flat ==> prev == input && vol.m() == 0,
            flat ==> forall|t: int| 0 <= t < ordered.len() ==> ordered[t] == input,
            volatility.m() >= 0 ==> vol.m() >= 0,
            i == lo ==> prev == previous && vol == volatility,
            lone == (previous.m() == 0 && volatility.m() == 0 && hi - lo == 1 && ordered[offset] == input),
            lone && i == hi ==> vol.m() == (if input.m() < 0 { -input.m() } else { input.m() }) && vol.s() == input.s(),
        decreases hi - i,
    {
        let value = if i == idx0 {
            input
        } else {
            deque[i]
        };
        proof {
            assert(value == ordered[offset + (i - lo)]);
            assert(ordered.skip(offset + (i - lo))[0] == ordered[offset + (i - lo)]);
        }
        let moved = match dec_sub(prev, value) {
            Some(v) => v,
            None => {
                proof {
                    assert(volatility_fold(prev, vol, ordered.skip(offset + (i - lo))) is None);
                    if flat {
                        assert(diff_aligned(prev, value) == 0);
                        assert(false);
                    }
                    if lone {
                        assert(false);
                    }
                }
                return None;
            },
        };
        let vol2 = match dec_add(vol, moved.abs()) {
            Some(v) => v,
            None => {
                proof {
                    assert(volatility_fold(prev, vol, ordered.skip(offset + (i - lo))) is None);
                    if flat {
                        assert(false);
                    }
                    if lone {
                        assert(false);
                    }
                }
                return None;
            },
        };
        proof {
            assert(ordered.skip(offset + (i - lo)).drop_first() =~= ordered.skip(offset + (i + 1 - lo)));
        }
        vol = vol2;
        prev = value;
        i += 1;
    }
    Some((prev, vol))
}

impl Next<Dec> for EfficiencyRatio {
    type Output = Option<Dec>;

    /// Besides the exact step, three consequences of the formulas are
    /// laws of their own: the ratio is never negative; once at least one
    /// observation has been seen, feeding the same value again yields
    /// exactly 1; and the very first advance after construction or reset
    /// yields a value numerically equal to 1 for any input at all.
    fn next(&mut self, input: Dec) -> (r: Option<Dec>)
        ensures
            old(self)@.step(input) matches Some(sr) ==> r == Some(sr.1) && final(self)@ == sr.0,
            old(self)@.step(input) is None ==> r is None && final(self)@ == old(self)@,
            old(self)@.count >= 1 && old(self)@.flat_at(input) ==> r is Some && r->Some_0 == Dec::from_spec(10, 1),
            r matches Some(v) ==> v.m() >= 0,
            old(self)@ == EfficiencyRatioView::init(old(self)@.period) ==> r is Some && eq_num(r->Some_0, Dec::from_spec(10, 1)),
    {
        proof {
            use_type_invariant(&*self);
        }
        let ghost pre = self@;
        let idx0 = self.index;
        let (first, count2) = if self.full {
            (self.deque[self.index], self.period)
        } else {
            (self.deque[0], self.index + 1)
        };
        let index2 = if self.index + 1 < self.period {
            self.index + 1
        } else {
            0
        };
        let full2 = self.full || self.index + 1 >= self.period;
        let ghost window2 = pre.stored(input);
        let ghost ordered = pre.walk(input);
        let ghost flat = pre.count >= 1 && pre.flat_at(input);
        let ghost fresh = pre == EfficiencyRatioView::init(pre.period);
        proof {
            lemma_from_spec(0, 1);
            lemma_from_spec(1, 0);
            lemma_from_spec(10, 1);
            assert(first == pre.oldest());
            assert(count2 as nat == pre.grown_count());
            assert(index2 as nat == pre.next_index());
            assert(ordered == window2.subrange(index2 as int, count2 as int) + window2.subrange(0, index2 as int));
            assert forall|t: int| 0 <= t < count2 - index2 implies #[trigger] ordered[t] == (if index2 + t == idx0 { input } else { self.deque@[index2 + t] }) by {
                assert(ordered[t] == window2[index2 + t]);
            }
            assert(covers(ordered, 0, self.deque@, idx0 as int, input, index2 as int, count2 as int));
            assert forall|t: int| count2 - index2 <= t < count2 implies #[trigger] ordered[t] == (if t - (count2 - index2) == idx0 { input } else { self.deque@[t - (count2 - index2)] }) by {
                assert(ordered[t] == window2[t - (count2 - index2)]);
            }
            assert(covers(ordered, count2 - index2, self.deque@, idx0 as int, input, 0, index2 as int));
            if flat {
                assert forall|t: int| 0 <= t < ordered.len() implies ordered[t] == input by {
                    if t < count2 - index2 {
                        assert(ordered[t] == window2[index2 + t]);
                    } else {
                        assert(ordered[t] == window2[t - (count2 - index2)]);
                    }
                }
            }
            assert(ordered.skip(0) =~= ordered);
            if fresh {
                assert(pre.window[0] == Dec::from_spec(0, 1));
                assert(first == Dec::from_spec(0, 1));
                assert(count2 == 1 && ordered.len() == 1);
                assert(ordered[0] == input);
            }
        }

        let zero = Dec::new(0, 1);
        let ghost zero_offset: int = 0;
        let (previous, volatility) = match scan_segment(
            &self.deque,
            idx0,
            input,
            index2,
            count2,
            first,
            zero,
            Ghost(ordered),
            Ghost(zero_offset),
            Ghost(flat),
        ) {
            Some(pv) => pv,
            None => {
                proof {
                    assert(pre.step(input) is None);
                }
                return None;
            },
        };
        let ghost done1: int = count2 - index2;
        let (_, volatility) = match scan_segment(
            &self.deque,
            idx0,
            input,
            0,
            index2,
            previous,
            volatility,
            Ghost(ordered),
            Ghost(done1),
            Ghost(flat),
        ) {
            Some(pv) => pv,
            None => {
                proof {
                    assert(volatility_fold(first, Dec::from_spec(0, 1), ordered) is None);
                    assert(pre.step(input) is None);
                }
                return None;
            },
        };
        proof {
            assert(ordered.skip(count2 as int).len() == 0);
            assert(volatility_fold(first, Dec::from_spec(0, 1), ordered) == Some(volatility));
            if fresh {
                assert(volatility.m() == (if input.m() < 0 { -input.m() } else { input.m() }));
                assert(volatility.s() == input.s());
            }
        }

        let flat_window = dec_eq(&volatility, &zero);
        proof {
            if fresh && input.m() != 0 {
                lemma_pow10_pos(zero.s());
                assert(volatility.m() * pow10(zero.s()) != 0) by (nonlinear_arith)
                    requires
                        volatility.m() > 0,
                        pow10(zero.s()) >= 1,
                ;
                assert(!flat_window);
            }
        }
        let result = if flat_window {
            Dec::new(10, 1)
        } else {
            proof {
                lemma_not_zero(volatility, zero);
            }
            let moved = match dec_sub(first, input) {
                Some(v) => v,
                None => {
                    return None;
                },
            };
            let reach = moved.abs();
            proof {
                if fresh {
                    lemma_dec_parts_determine(reach, volatility);
                }
            }
            match dec_div(reach, volatility) {
                Some(v) => v,
                None => {
                    return None;
                },
            }
        };
        self.deque[self.index] = input;
        self.index = index2;
        self.full = full2;
        Some(result)
    }
}

impl<T: Close> Next<&T> for EfficiencyRatio {
    type Output = Option<Dec>;

    fn next(&mut self, input: &T) -> (r: Option<Dec>)
        ensures
            old(self)@.step(input.close_spec()) matches Some(sr) ==> r == Some(sr.1) && final(self)@ == sr.0,
            old(self)@.step(input.close_spec()) is None ==> r is None && final(self)@ == old(self)@,
    {
        self.next(input.close())
    }
}

impl Reset for EfficiencyRatio {
    fn reset(&mut self)
        ensures
            final(self)@ == EfficiencyRatioView::init(old(self)@.period),
    {
        proof {
            use_type_invariant(&*self);
        }
        self.index = 0;
        self.full = false;
        self.deque = zero_window(self.period);
    }
}

impl Default for EfficiencyRatio {
    /// The documented default period of 14.
    fn default() -> (r: Self)
        ensures
            r@ == EfficiencyRatioView::init(14),
    {
        Self::with_period(14)
    }
}

impl EfficiencyRatio {
    /// The human-readable label `ER(period)`.
    pub fn label(&self) -> (s: String)
        ensures
            s@ == "ER("@ + digits_of(self@.period) + ")"@,
    {
        String::from_str("ER(").concat(format_usize(self.period).as_str()).concat(")")
    }
}

/// The output sequence an indicator in state `v` produces over a whole
/// input stream, advancing one observation at a time. A step whose
/// arithmetic left the representable range reports `None` and leaves the
/// state unchanged.
pub open spec fn run(v: EfficiencyRatioView, inputs: Seq<Dec>) -> Seq<Option<Dec>>
    decreases inputs.len(),
{
    if inputs.len() == 0 {
        Seq::empty()
    } else {
        match v.step(inputs[0]) {
            Some(sr) => seq![Some(sr.1)] + run(sr.0, inputs.drop_first()),
            None => seq![Option::<Dec>::None] + run(v, inputs.drop_first()),
        }
    }
}

/// Replay determinism: advancing is a pure function of the state and the
/// input, so two indicators in equal states — a freshly constructed one
/// and one just reset to the same parameters, whose contracts both give
/// the view `init` — produce identical output sequences for identical
/// input sequences, however long.
pub proof fn lemma_reset_replay(a: EfficiencyRatioView, b: EfficiencyRatioView, inputs: Seq<Dec>)
    requires
        a == b,
    ensures
        run(a, inputs) == run(b, inputs),
{
}

/// Fixed memory and a capped count: one advance replaces a slot but
/// never grows the window, so the buffer keeps exactly `period` entries
/// no matter how many observations have streamed through, and the
/// observation count grows only until it reaches the period.
pub proof fn lemma_window_length(v: EfficiencyRatioView, input: Dec)
    requires
        v.index < v.window.len(),
    ensures
        v.step(input) matches Some(sr) ==> sr.0.window.len() == v.window.len() && sr.0.period == v.period && sr.0.count == v.grown_count(),
{
    match v.step(input) {
        Some(sr) => {
            assert(sr.0.window == v.stored(input));
        },
        None => {},
    }
}

} // verus!
