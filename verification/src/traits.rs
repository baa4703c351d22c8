//! The three-operation protocol every indicator exposes, and the
//! capability traits through which indicators read observations.
//!
//! An indicator declares exactly the observation capabilities it needs: one
//! that needs only a closing price accepts any input type that can report
//! a close value.

use crate::decimal::Dec;
use vstd::prelude::*;

verus! {

/// Restores an indicator to its exact post-construction state.
pub trait Reset {
    fn reset(&mut self);
}

/// Reports the period an indicator was constructed with.
pub trait Period {
    fn period(&self) -> usize;
}

/// Consumes one observation of type `T` and produces an `Output`.
pub trait Next<T> {
    type Output;

    fn next(&mut self, input: T) -> Self::Output;
}

/// Open price of a trading period.
pub trait Open {
    /// Which value `open` reports. A verified implementation overrides
    /// this and proves the match; one outside the verifier inherits the
    /// placeholder and promises nothing.
    open spec fn open_spec(&self) -> Dec {
        Dec::from_spec(0, 0)
    }

    fn open(&self) -> (r: Dec)
        ensures
            r == self.open_spec(),
    ;
}

/// Closing price of a trading period.
pub trait Close {
    /// Which value `close` reports. A verified implementation overrides
    /// this and proves the match; one outside the verifier inherits the
    /// placeholder and promises nothing.
    open spec fn close_spec(&self) -> Dec {
        Dec::from_spec(0, 0)
    }

    fn close(&self) -> (r: Dec)
        ensures
            r == self.close_spec(),
    ;
}

/// Lowest price of a trading period.
pub trait Low {
    /// Which value `low` reports. A verified implementation overrides
    /// this and proves the match; one outside the verifier inherits the
    /// placeholder and promises nothing.
    open spec fn low_spec(&self) -> Dec {
        Dec::from_spec(0, 0)
    }

    fn low(&self) -> (r: Dec)
        ensures
            r == self.low_spec(),
    ;
}

/// Highest price of a trading period.
pub trait High {
    /// Which value `high` reports. A verified implementation overrides
    /// this and proves the match; one outside the verifier inherits the
    /// placeholder and promises nothing.
    open spec fn high_spec(&self) -> Dec {
        Dec::from_spec(0, 0)
    }

    fn high(&self) -> (r: Dec)
        ensures
            r == self.high_spec(),
    ;
}

/// Traded volume of a trading period.
pub trait Volume {
    /// Which value `volume` reports. A verified implementation overrides
    /// this and proves the match; one outside the verifier inherits the
    /// placeholder and promises nothing.
    open spec fn volume_spec(&self) -> Dec {
        Dec::from_spec(0, 0)
    }

    fn volume(&self) -> (r: Dec)
        ensures
            r == self.volume_spec(),
    ;
}

} // verus!
