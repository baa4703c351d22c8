//! On-balance volume (OBV): a running total that adds the volume on up
//! days, subtracts it on down days, and stands still when the close
//! repeats.
//!
//! The remembered previous close starts at zero and is updated on every
//! call regardless of direction. There is no period: the indicator is not
//! windowed.

use crate::decimal::{add_of, dec_add, dec_lt, dec_sub, lt_num, sub_of, Dec};
use crate::traits::{Close, Next, Reset, Volume};
use vstd::prelude::*;

verus! {

/// The mathematical state of an on-balance-volume indicator.
pub struct OnBalanceVolumeView {
    /// The running signed volume total.
    pub obv: Dec,
    /// The close of the previous observation; zero before any is seen.
    pub prev_close: Dec,
}

impl OnBalanceVolumeView {
    /// The state directly after construction.
    pub open spec fn init() -> OnBalanceVolumeView {
        OnBalanceVolumeView { obv: Dec::from_spec(0, 1), prev_close: Dec::from_spec(0, 1) }
    }

    /// One advance: the volume is added when the close rose, subtracted
    /// when it fell, and ignored when it stayed; the close is remembered
    /// either way. `None` when the running total leaves the representable
    /// range.
    pub open spec fn step(self, close: Dec, volume: Dec) -> Option<(OnBalanceVolumeView, Dec)> {
        let total = if lt_num(self.prev_close, close) {
            add_of(self.obv, volume)
        } else if lt_num(close, self.prev_close) {
            sub_of(self.obv, volume)
        } else {
            Some(self.obv)
        };
        match total {
            Some(obv2) => Some((OnBalanceVolumeView { obv: obv2, prev_close: close }, obv2)),
            None => None,
        }
    }
}

/// On-balance volume: cumulative volume signed by price direction.
#[derive(Debug)]
pub struct OnBalanceVolume {
    obv: Dec,
    prev_close: Dec,
}

impl View for OnBalanceVolume {
    type V = OnBalanceVolumeView;

    closed spec fn view(&self) -> OnBalanceVolumeView {
        OnBalanceVolumeView { obv: self.obv, prev_close: self.prev_close }
    }
}

impl OnBalanceVolume {
    /// Constructs the indicator with a zero total and no remembered
    /// close.
    pub fn new() -> (r: OnBalanceVolume)
        ensures
            r@ == OnBalanceVolumeView::init(),
    {
        OnBalanceVolume { obv: Dec::new(0, 1), prev_close: Dec::new(0, 1) }
    }
}

impl<T: Close + Volume> Next<&T> for OnBalanceVolume {
    type Output = Option<Dec>;

    fn next(&mut self, input: &T) -> (r: Option<Dec>)
        ensures
            old(self)@.step(input.close_spec(), input.volume_spec()) matches Some(sr) ==> r == Some(sr.1) && final(self)@ == sr.0,
            old(self)@.step(input.close_spec(), input.volume_spec()) is None ==> r is None && final(self)@ == old(self)@,
    {
        let close = input.close();
        let obv2 = if dec_lt(&self.prev_close, &close) {
            match dec_add(self.obv, input.volume()) {
                Some(v) => v,
                None => {
                    return None;
                },
            }
        } else if dec_lt(&close, &self.prev_close) {
            match dec_sub(self.obv, input.volume()) {
                Some(v) => v,
                None => {
                    return None;
                },
            }
        } else {
            self.obv
        };
        self.obv = obv2;
        self.prev_close = close;
        Some(obv2)
    }
}

impl Reset for OnBalanceVolume {
    fn reset(&mut self)
        ensures
            final(self)@ == OnBalanceVolumeView::init(),
    {
        self.obv = Dec::new(0, 1);
        self.prev_close = Dec::new(0, 1);
    }
}

impl Default for OnBalanceVolume {
    fn default() -> (r: Self)
        ensures
            r@ == OnBalanceVolumeView::init(),
    {
        Self::new()
    }
}

impl OnBalanceVolume {
    /// The human-readable label `OBV`.
    pub fn label(&self) -> (s: String)
        ensures
            s@ == "OBV"@,
    {
        String::from_str("OBV")
    }
}

/// The output sequence an indicator in state `v` produces over a whole
/// stream of close/volume pairs, advancing one observation at a time. A
/// step whose running total left the representable range reports `None`
/// and leaves the state unchanged.
pub open spec fn run(v: OnBalanceVolumeView, inputs: Seq<(Dec, Dec)>) -> Seq<Option<Dec>>
    decreases inputs.len(),
{
    if inputs.len() == 0 {
        Seq::empty()
    } else {
        match v.step(inputs[0].0, inputs[0].1) {
            Some(sr) => seq![Some(sr.1)] + run(sr.0, inputs.drop_first()),
            None => seq![Option::<Dec>::None] + run(v, inputs.drop_first()),
        }
    }
}

/// Replay determinism: advancing is a pure function of the state and the
/// input, so two indicators in equal states — a freshly constructed one
/// and one just reset to the same parameters, whose contracts both give
/// the view `init` — produce identical output sequences for identical
/// input sequences, however long.
pub proof fn lemma_reset_replay(a: OnBalanceVolumeView, b: OnBalanceVolumeView, inputs: Seq<(Dec, Dec)>)
    requires
        a == b,
    ensures
        run(a, inputs) == run(b, inputs),
{
}

} // verus!
