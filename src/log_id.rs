//! Log identifiers and their ordering.
use vstd::prelude::*;

verus! {

/// Identifier of a node; unique within a cluster.
pub type NodeId = u64;

/// Identifies a log entry by the term it was written in and its index.
#[derive(Debug, Clone, Copy, PartialEq, Eq, Structural, PartialOrd, Ord, Hash)]
pub struct LogId {
    pub term: u64,
    pub index: u64,
}

/// `a <= b` in lexicographic `(term, index)` order.
pub open spec fn log_id_le(a: LogId, b: LogId) -> bool {
    a.term < b.term || (a.term == b.term && a.index <= b.index)
}

/// `a < b` over optional log ids, where `None` is below every `Some`.
pub open spec fn opt_log_id_lt(a: Option<LogId>, b: Option<LogId>) -> bool {
    match (a, b) {
        (None, None) => false,
        (None, Some(_)) => true,
        (Some(_), None) => false,
        (Some(x), Some(y)) => log_id_le(x, y) && x != y,
    }
}

/// The index that follows `o`: `index + 1`, or `0` when nothing was written
/// (saturating at the top of `u64`).
pub open spec fn next_index_of(o: Option<LogId>) -> u64 {
    match o {
        None => 0,
        Some(l) => if l.index == u64::MAX { u64::MAX } else { (l.index + 1) as u64 },
    }
}

/// `a - b`, or `0` when `b >= a`.
pub open spec fn saturating_distance(a: u64, b: u64) -> u64 {
    if a >= b { (a - b) as u64 } else { 0 }
}

/// Exec form of [`opt_log_id_lt`].
pub fn opt_log_id_less(a: Option<LogId>, b: Option<LogId>) -> (r: bool)
    ensures
        r == opt_log_id_lt(a, b),
{
    match (a, b) {
        (None, None) => false,
        (None, Some(_)) => true,
        (Some(_), None) => false,
        (Some(x), Some(y)) => x.term < y.term || (x.term == y.term && x.index < y.index),
    }
}

/// The index that follows an optional log id.
pub fn next_index(o: Option<LogId>) -> (r: u64)
    ensures
        r == next_index_of(o),
{
    match o {
        None => 0,
        Some(l) => l.index.saturating_add(1),
    }
}

} // verus!
