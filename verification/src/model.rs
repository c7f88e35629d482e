//! The visitors' addresses table.

use vstd::prelude::*;
use crate::time::PostedAt;

verus! {

/// An address to record, or to mark as seen again.
pub struct NewIp {
    pub ipaddr: String,
}

/// A recorded address: its id, the address, and when it was first and last
/// seen.
pub struct DoneIp {
    pub id: i32,
    pub ipaddr: String,
    pub timefirst: PostedAt,
    pub timelast: PostedAt,
}

} // verus!
