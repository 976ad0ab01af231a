//! Per-peer replication progress as the leader sees it.
use vstd::prelude::*;

use crate::log_id::next_index;
use crate::log_id::next_index_of;
use crate::log_id::opt_log_id_less;
use crate::log_id::opt_log_id_lt;
use crate::log_id::saturating_distance;
use crate::log_id::LogId;

verus! {

/// Runtime settings that the membership logic reads.
#[derive(Debug, Clone, Copy, PartialEq, Eq, Structural)]
pub struct Config {
    /// How many entries a peer may lag behind the leader's last log and
    /// still count as caught up.
    pub replication_lag_threshold: u64,
}

/// The leader's record of one peer.
#[derive(Debug, Clone, Copy, PartialEq, Eq, Structural)]
pub struct ReplicationTracker {
    /// The highest log id the peer has confirmed.
    pub matched: Option<LogId>,
    /// The index of the committed membership that first excluded the peer.
    pub remove_since: Option<u64>,
}

/// How many entries a peer that matched `matched` lags behind a leader whose
/// last log id is `last`.
pub open spec fn lag_of(last: Option<LogId>, matched: Option<LogId>) -> u64 {
    saturating_distance(next_index_of(last), next_index_of(matched))
}

/// Exec form of [`lag_of`].
pub fn lag(last: Option<LogId>, matched: Option<LogId>) -> (r: u64)
    ensures
        r == lag_of(last, matched),
{
    next_index(last).saturating_sub(next_index(matched))
}

impl ReplicationTracker {
    /// A tracker for a peer that has confirmed nothing yet.
    pub fn new() -> (r: ReplicationTracker)
        ensures
            r == (ReplicationTracker { matched: None, remove_since: None }),
    {
        ReplicationTracker { matched: None, remove_since: None }
    }

    /// Caught up closely enough with `last` to become a voter.
    pub open spec fn line_rate_spec(&self, last: Option<LogId>, config: Config) -> bool {
        lag_of(last, self.matched) <= config.replication_lag_threshold
    }

    /// The peer holds the entry that removed it, so it may be forgotten.
    pub open spec fn removable(&self) -> bool {
        match (self.remove_since, self.matched) {
            (Some(since), Some(m)) => m.index >= since,
            _ => false,
        }
    }

    /// Whether the peer is caught up closely enough with the leader's last
    /// log id `last_log_id` to become a voter.
    pub fn is_line_rate(&self, last_log_id: &Option<LogId>, config: &Config) -> (r: bool)
        ensures
            r == self.line_rate_spec(*last_log_id, *config),
    {
        lag(*last_log_id, self.matched) <= config.replication_lag_threshold
    }

    /// Whether the peer may be forgotten.
    pub fn is_removable(&self) -> (r: bool)
        ensures
            r == self.removable(),
    {
        match (self.remove_since, self.matched) {
            (Some(since), Some(m)) => m.index >= since,
            _ => false,
        }
    }

    /// Records progress reported by the peer; a report below what is already
    /// matched is ignored.
    pub fn update_matched(&mut self, matched: Option<LogId>)
        ensures
            final(self).matched == if opt_log_id_lt(old(self).matched, matched) {
                matched
            } else {
                old(self).matched
            },
            final(self).remove_since == old(self).remove_since,
    {
        if opt_log_id_less(self.matched, matched) {
            self.matched = matched;
        }
    }
}

} // verus!
