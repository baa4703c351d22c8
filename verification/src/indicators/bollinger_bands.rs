//! Bollinger Bands (BB): a standard-deviation accumulator wrapped in a
//! band.
//!
//! Each advance feeds the observation to the owned standard deviation;
//! the middle band is that accumulator's running mean, and the upper and
//! lower bands sit `multiplier` standard deviations away on either side.

use crate::decimal::{
    add_of, dec_add, dec_mul, dec_sub, dec_text, digits_of, format_usize, lemma_from_spec,
    mul_of, sub_of, text_of, Dec,
};
use crate::errors::TaError;
use crate::indicators::standard_deviation::{StandardDeviation, StandardDeviationView};
use crate::traits::{Close, Next, Period, Reset};
use vstd::prelude::*;

verus! {

/// The three bands one advance produces.
#[derive(Clone, Copy, Debug)]
pub struct BollingerBandsOutput {
    /// The middle band: the running mean of the window.
    pub average: Dec,
    /// The upper band: `average + deviation * multiplier`.
    pub upper: Dec,
    /// The lower band: `average - deviation * multiplier`.
    pub lower: Dec,
}

/// The mathematical state of a Bollinger Bands indicator.
pub struct BollingerBandsView {
    /// How far the outer bands sit, in standard deviations.
    pub multiplier: Dec,
    /// The owned standard-deviation accumulator.
    pub sd: StandardDeviationView,
}

impl BollingerBandsView {
    /// The window length, fixed at construction: the deviation
    /// accumulator's own period.
    pub open spec fn period(self) -> nat {
        self.sd.period
    }

    /// The state directly after construction.
    pub open spec fn init(period: nat, multiplier: Dec) -> BollingerBandsView {
        BollingerBandsView { multiplier, sd: StandardDeviationView::init(period) }
    }

    /// One advance: the deviation accumulator moves one step, and the
    /// bands are read off its mean and output. The state after the call
    /// is always the first component; the output is `None` when the
    /// decimal arithmetic left the representable range.
    pub open spec fn step(self, input: Dec) -> (BollingerBandsView, Option<BollingerBandsOutput>) {
        match self.sd.step(input) {
            Some((sd2, deviation)) => {
                let state2 = BollingerBandsView { multiplier: self.multiplier, sd: sd2 };
                match mul_of(deviation, self.multiplier) {
                    Some(band) => match add_of(sd2.mean, band) {
                        Some(upper) => match sub_of(sd2.mean, band) {
                            Some(lower) => (
                                state2,
                                Some(
                                    BollingerBandsOutput { average: sd2.mean, upper, lower },
                                ),
                            ),
                            None => (state2, None),
                        },
                        None => (state2, None),
                    },
                    None => (state2, None),
                }
            },
            None => (self, None),
        }
    }
}

/// Bollinger Bands around a running mean.
#[derive(Debug)]
pub struct BollingerBands {
    multiplier: Dec,
    sd: StandardDeviation,
}

impl View for BollingerBands {
    type V = BollingerBandsView;

    closed spec fn view(&self) -> BollingerBandsView {
        BollingerBandsView { multiplier: self.multiplier, sd: self.sd@ }
    }
}

impl BollingerBands {
    /// Constructs the indicator, rejecting a zero period and accepting any
    /// other.
    pub fn new(period: usize, multiplier: Dec) -> (r: Result<BollingerBands, TaError>)
        ensures
            period == 0 <==> r is Err,
            r matches Err(e) ==> e == TaError::InvalidParameter,
            r matches Ok(s) ==> s@ == BollingerBandsView::init(period as nat, multiplier),
    {
        match StandardDeviation::new(period) {
            Ok(sd) => Ok(BollingerBands { multiplier, sd }),
            Err(e) => Err(e),
        }
    }

    /// The configured band width, in standard deviations.
    pub fn multiplier(&self) -> (r: Dec)
        ensures
            r == self@.multiplier,
    {
        self.multiplier
    }
}

impl Period for BollingerBands {
    fn period(&self) -> (r: usize)
        ensures
            r as nat == self@.period(),
    {
        self.sd.period()
    }
}

impl Next<Dec> for BollingerBands {
    type Output = Option<BollingerBandsOutput>;

    /// Besides the exact step, the cold start is a law of its own: on
    /// the very first advance the deviation is exactly zero, so for any
    /// nonzero input the bands collapse onto the average, which is the
    /// input itself.
    fn next(&mut self, input: Dec) -> (r: Option<BollingerBandsOutput>)
        ensures
            final(self)@ == old(self)@.step(input).0,
            r == old(self)@.step(input).1,
            old(self)@.sd == StandardDeviationView::init(old(self)@.sd.period) && input.m() != 0 ==> r is Some && r->Some_0.average == input && r->Some_0.upper == input && r->Some_0.lower == input,
    {
        proof {
            lemma_from_spec(0, 0);
        }
        let deviation = match self.sd.next(input) {
            Some(v) => v,
            None => {
                return None;
            },
        };
        let mean = self.sd.mean();
        let band = match dec_mul(deviation, self.multiplier) {
            Some(v) => v,
            None => {
                return None;
            },
        };
        let upper = match dec_add(mean, band) {
            Some(v) => v,
            None => {
                return None;
            },
        };
        let lower = match dec_sub(mean, band) {
            Some(v) => v,
            None => {
                return None;
            },
        };
        Some(BollingerBandsOutput { average: mean, upper, lower })
    }
}

impl<T: Close> Next<&T> for BollingerBands {
    type Output = Option<BollingerBandsOutput>;

    fn next(&mut self, input: &T) -> (r: Option<BollingerBandsOutput>)
        ensures
            final(self)@ == old(self)@.step(input.close_spec()).0,
            r == old(self)@.step(input.close_spec()).1,
    {
        self.next(input.close())
    }
}

impl Reset for BollingerBands {
    fn reset(&mut self)
        ensures
            final(self)@ == BollingerBandsView::init(old(self)@.period(), old(self)@.multiplier),
    {
        self.sd.reset();
    }
}

impl Default for BollingerBands {
    /// The documented default: period 9, multiplier 2.
    fn default() -> (r: Self)
        ensures
            r@ == BollingerBandsView::init(9, Dec::from_spec(20, 1)),
    {
        match Self::new(9, Dec::new(20, 1)) {
            Ok(s) => s,
            Err(_) => {
                // A period of 9 is never rejected.
                proof {
                    assert(false);
                }
                BollingerBands { multiplier: Dec::new(20, 1), sd: StandardDeviation::default() }
            },
        }
    }
}

impl BollingerBands {
    /// The human-readable label `BB(period, multiplier)`.
    pub fn label(&self) -> (s: String)
        ensures
            s@ == "BB("@ + digits_of(self@.period()) + ", "@ + text_of(self@.multiplier) + ")"@,
    {
        String::from_str("BB(").concat(format_usize(self.sd.period()).as_str()).concat(", ").concat(
            dec_text(&self.multiplier).as_str(),
        ).concat(")")
    }
}

/// The output sequence an indicator in state `v` produces over a whole
/// input stream, advancing one observation at a time.
pub open spec fn run(v: BollingerBandsView, inputs: Seq<Dec>) -> Seq<Option<BollingerBandsOutput>>
    decreases inputs.len(),
{
    if inputs.len() == 0 {
        Seq::empty()
    } else {
        seq![v.step(inputs[0]).1] + run(v.step(inputs[0]).0, inputs.drop_first())
    }
}

/// Replay determinism: advancing is a pure function of the state and the
/// input, so two indicators in equal states — a freshly constructed one
/// and one just reset to the same parameters, whose contracts both give
/// the view `init` — produce identical output sequences for identical
/// input sequences, however long.
pub proof fn lemma_reset_replay(a: BollingerBandsView, b: BollingerBandsView, inputs: Seq<Dec>)
    requires
        a == b,
    ensures
        run(a, inputs) == run(b, inputs),
{
}

} // verus!
