//! Freshness policy and fixed tuning values.
use vstd::prelude::*;

verus! {

/// How long a cached entry stays fresh, in seconds, per kind of object.
/// Manifests get a short time, since a tag may move; blobs are content
/// addressed and may keep theirs for as long as wanted.
#[derive(Debug, Clone, Copy, PartialEq, Eq, Structural)]
pub struct InvalidationTime {
    pub manifest: u64,
    pub blob: u64,
}

/// How many chunks a blob fan-out holds in flight.
pub const FAN_OUT_CAPACITY: usize = 16;

/// The length announced to the cache writer: the declared size where it
/// fits an `i64`, the largest `i64` where it is larger or unknown.
pub open spec fn announced_length(size: Option<u64>) -> i64 {
    match size {
        Some(n) => if n <= i64::MAX as u64 {
            n as i64
        } else {
            i64::MAX
        },
        None => i64::MAX,
    }
}

/// Computes `announced_length(size)`.
pub fn announce_length(size: Option<u64>) -> (r: i64)
    ensures
        r == announced_length(size),
{
    match size {
        Some(n) => if n <= i64::MAX as u64 {
            n as i64
        } else {
            i64::MAX
        },
        None => i64::MAX,
    }
}

/// A byte count as an `i64`, the largest `i64` where it does not fit.
pub fn length_of(n: usize) -> (r: i64)
    ensures
        r == announced_length(Some(n as u64)),
{
    announce_length(Some(n as u64))
}

} // verus!
