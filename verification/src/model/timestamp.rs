//! Points in time, as the records of the service carry them.

use vstd::prelude::*;

verus! {

/// A moment in UTC.
///
/// The records carry their times as text; whoever decodes a record turns
/// that text into a count from the start of 1970, and this crate carries
/// the count along unchanged.
#[derive(Clone, Copy, Debug, PartialEq, Eq, Structural)]
pub struct Timestamp {
    /// Whole seconds since 1970-01-01T00:00:00Z; negative before it.
    pub seconds: i64,
    /// Nanoseconds into that second.
    pub nanoseconds: u32,
}

} // verus!
