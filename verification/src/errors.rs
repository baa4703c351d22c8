//! The error taxonomy: every failure the library reports is one of these
//! values, returned from a constructor or a builder. Advancing a
//! successfully constructed indicator never raises an error.

use vstd::prelude::*;

verus! {

/// What a constructor or the observation builder can reject.
#[derive(Clone, Copy, Debug, PartialEq, Eq, Structural)]
pub enum TaError {
    /// A period or multiplier argument of zero or otherwise out of domain,
    /// reported synchronously at construction and never after.
    InvalidParameter,
    /// A field the observation builder needs was never supplied.
    DataItemIncomplete,
    /// Observation fields that contradict each other, such as a low above
    /// the high.
    DataItemInvalid,
}

} // verus!
