//! Points in time.

use vstd::prelude::*;

verus! {

/// A point in time, in UTC: whole seconds since the start of 1970, and the
/// nanoseconds that have passed within the second.
#[derive(Clone, Copy, Debug, PartialEq, Eq, Hash, Structural)]
pub struct Timestamp {
    pub seconds: i64,
    pub nanoseconds: u32,
}

} // verus!
