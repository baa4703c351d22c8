//! Small shared helpers: the three-way maximum the true range needs, and
//! the zero-filled window the ring-buffer indicators start from.

use crate::decimal::{le_num, Dec, dec_le};
use vstd::prelude::*;

verus! {

/// The largest of three numbers, decided by the numeric order. Of two
/// numerically equal arguments the later one is kept, as `Ord::max` keeps
/// the second of two equal values.
pub open spec fn max3_spec(a: Dec, b: Dec, c: Dec) -> Dec {
    let ab = if le_num(a, b) {
        b
    } else {
        a
    };
    if le_num(ab, c) {
        c
    } else {
        ab
    }
}

/// Returns the largest of 3 given numbers.
pub fn max3(a: Dec, b: Dec, c: Dec) -> (r: Dec)
    ensures
        r == max3_spec(a, b, c),
{
    let ab = if dec_le(&a, &b) {
        b
    } else {
        a
    };
    if dec_le(&ab, &c) {
        c
    } else {
        ab
    }
}

/// The window every ring-buffer indicator starts from: `period` slots, all
/// holding the zero that a fresh accumulator carries.
pub open spec fn zero_window_spec(period: nat) -> Seq<Dec> {
    Seq::new(period, |i: int| Dec::from_spec(0, 1))
}

/// Allocates the zero-filled window of the given length.
pub(crate) fn zero_window(period: usize) -> (v: Vec<Dec>)
    ensures
        v@ == zero_window_spec(period as nat),
{
    let mut v: Vec<Dec> = Vec::new();
    let mut i: usize = 0;
    while i < period
        invariant
            i <= period,
            v@.len() == i as nat,
            forall|j: int| 0 <= j < i ==> v@[j] == Dec::from_spec(0, 1),
        decreases period - i,
    {
        v.push(Dec::new(0, 1));
        i += 1;
    }
    proof {
        assert(v@ =~= zero_window_spec(period as nat));
    }
    v
}

} // verus!
