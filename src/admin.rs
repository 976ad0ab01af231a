//! Membership changes driven by the leader.
use std::collections::BTreeMap;
use std::collections::BTreeSet;
use vstd::prelude::*;

use crate::error::ChangeMembershipError;
use crate::error::ClientWriteError;
use crate::error::StorageError;
use crate::log_id::opt_log_id_less;
use crate::log_id::next_index_of;
use crate::log_id::opt_log_id_lt;
use crate::log_id::LogId;
use crate::log_id::NodeId;
use crate::membership::next_safe_of;
use crate::membership::Membership;
use crate::node::Entry;
use crate::node::EntryPayload;
use crate::node::NodeCore;
use crate::node::RaftStorage;
use crate::node::State;
use crate::replication::lag;
use crate::replication::lag_of;
use crate::replication::ReplicationTracker;

verus! {

broadcast use vstd::std_specs::btree::group_btree_axioms;

/// A node in the leader role, with one tracker per peer it replicates to.
#[derive(Debug)]
pub struct LeaderState {
    pub core: NodeCore,
    pub nodes: BTreeMap<NodeId, ReplicationTracker>,
}

/// The reply to an add-learner request.
#[derive(Debug, Clone, Copy, PartialEq, Eq, Structural)]
pub struct AddLearnerResponse {
    pub matched: Option<LogId>,
}

/// What the caller of [`LeaderState::add_learner`] has to do.
#[derive(Debug, Clone, Copy, PartialEq, Eq, Structural)]
pub enum AddLearnerAction {
    /// Reply at once; nothing else changed.
    Reply(AddLearnerResponse),
    /// A tracker for `target` was created: start replicating to it. Reply
    /// with `reply_now` at once, or, when it is `None`, hand the reply to the
    /// replication stream, which answers once the peer has caught up.
    SpawnReplication { target: NodeId, reply_now: Option<AddLearnerResponse> },
}

/// What came of committing a uniform membership.
#[derive(Debug, Clone, PartialEq, Eq)]
pub enum UniformCommitOutcome {
    /// This node is no voter any more: it leaves the leader role, which drops
    /// every tracker.
    SteppedDown,
    /// These peers were forgotten; their replication has to stop.
    Reconciled { removed: Vec<NodeId> },
}

/// The trackers and the action after `add_learner(target, blocking)` on a
/// leader `id` whose last log id is `last`.
pub open spec fn add_learner_step(
    id: NodeId,
    last: Option<LogId>,
    nodes: Map<NodeId, ReplicationTracker>,
    target: NodeId,
    blocking: bool,
) -> (Map<NodeId, ReplicationTracker>, AddLearnerAction) {
    if target == id {
        (nodes, AddLearnerAction::Reply(AddLearnerResponse { matched: last }))
    } else if nodes.contains_key(target) {
        (nodes, AddLearnerAction::Reply(AddLearnerResponse { matched: nodes[target].matched }))
    } else {
        (
            nodes.insert(target, ReplicationTracker { matched: None, remove_since: None }),
            AddLearnerAction::SpawnReplication {
                target,
                reply_now: if blocking {
                    None
                } else {
                    Some(AddLearnerResponse { matched: None })
                },
            },
        )
    }
}

/// Adding a peer a second time changes nothing and answers with what the
/// peer has matched so far.
pub proof fn lemma_add_learner_idempotent(
    id: NodeId,
    last: Option<LogId>,
    nodes: Map<NodeId, ReplicationTracker>,
    target: NodeId,
    first_blocking: bool,
    second_blocking: bool,
)
    ensures
        ({
            let first = add_learner_step(id, last, nodes, target, first_blocking);
            let second = add_learner_step(id, last, first.0, target, second_blocking);
            &&& second.0 == first.0
            &&& target != id ==> second.1 == AddLearnerAction::Reply(
                AddLearnerResponse { matched: first.0[target].matched },
            )
        }),
{
}

/// Tracker `t` of peer `k` once a uniform membership whose nodes are `all`
/// committed at `index`: a peer outside `all` is marked removed since
/// `index`, unless it was marked before.
pub open spec fn marked(k: NodeId, t: ReplicationTracker, all: Set<NodeId>, index: u64) -> ReplicationTracker {
    if !all.contains(k) && t.remove_since is None {
        ReplicationTracker { remove_since: Some(index), ..t }
    } else {
        t
    }
}

/// Every peer kept from `old` to `new` keeps a removal mark it had.
pub open spec fn remove_since_kept(
    old: Map<NodeId, ReplicationTracker>,
    new: Map<NodeId, ReplicationTracker>,
) -> bool {
    forall|k: NodeId|
        #![trigger new[k]]
        old.contains_key(k) && new.contains_key(k) && old[k].remove_since is Some
            ==> new[k].remove_since == old[k].remove_since
}

impl LeaderState {
    pub open spec fn wf(&self) -> bool {
        self.core.wf()
    }

    /// Takes up the leader role: one fresh tracker for every other node of
    /// the effective membership.
    pub fn new(core: NodeCore) -> (r: LeaderState)
        requires
            core.wf(),
        ensures
            r.core == core,
            r.wf(),
            forall|k: NodeId| #[trigger]
                r.nodes@.contains_key(k) <==> (core.effective_membership.membership.all_nodes_spec().contains(k)
                    && k != core.id),
            forall|k: NodeId| #[trigger]
                r.nodes@.contains_key(k) ==> r.nodes@[k] == (ReplicationTracker {
                    matched: None,
                    remove_since: None,
                }),
    {
        let all = core.effective_membership.membership.all_nodes();
        let mut nodes: BTreeMap<NodeId, ReplicationTracker> = BTreeMap::new();
        let ghost mut seen: Set<NodeId> = Set::empty();
        for n in it: all.iter()
            invariant
                it.seq().unref().to_set() == all@,
                seen.subset_of(all@),
                forall|k: NodeId| #[trigger]
                    nodes@.contains_key(k) <==> (seen.contains(k) && k != core.id),
                forall|k: NodeId| #[trigger]
                    nodes@.contains_key(k) ==> nodes@[k] == (ReplicationTracker {
                        matched: None,
                        remove_since: None,
                    }),
                forall|y: NodeId| #[trigger]
                    all@.contains(y) ==> seen.contains(y) || exists|j: int|
                        it.index() <= j < it.seq().len() && *it.seq()[j] == y,
        {
            assert(it.seq().unref()[it.index() as int] == *n);
            if *n != core.id {
                nodes.insert(*n, ReplicationTracker::new());
            }
            proof {
                seen = seen.insert(*n);
            }
        }
        LeaderState { core, nodes }
    }

    /// The voters of `members` that the effective membership lacks.
    pub open spec fn new_voters(&self, members: Set<NodeId>) -> Set<NodeId> {
        members.difference(self.core.effective_membership.membership.all_nodes_spec())
    }

    /// New voter `n` keeps a change from going ahead: it has no tracker, or
    /// it lags and the caller will not wait.
    pub open spec fn blocks_change(&self, n: NodeId, blocking: bool) -> bool {
        !self.nodes@.contains_key(n) || (!blocking && !self.nodes@[n].line_rate_spec(
            self.core.last_log_id,
            self.core.config,
        ))
    }

    /// The error that new voter `n` causes when it blocks a change.
    pub open spec fn candidate_error(&self, n: NodeId) -> ChangeMembershipError {
        if !self.nodes@.contains_key(n) {
            ChangeMembershipError::LearnerNotFound { node_id: n }
        } else {
            ChangeMembershipError::LearnerIsLagging {
                node_id: n,
                matched: self.nodes@[n].matched,
                distance: lag_of(self.core.last_log_id, self.nodes@[n].matched),
            }
        }
    }

    /// The previous membership change has not committed yet.
    pub open spec fn change_in_progress(&self) -> bool {
        opt_log_id_lt(self.core.committed, Some(self.core.effective_membership.log_id))
    }

    /// Adds `target` as a learner, or answers at once when it is this node or
    /// already tracked.
    pub fn add_learner(&mut self, target: NodeId, blocking: bool) -> (r: AddLearnerAction)
        ensures
            final(self).core == old(self).core,
            (final(self).nodes@, r) == add_learner_step(
                old(self).core.id,
                old(self).core.last_log_id,
                old(self).nodes@,
                target,
                blocking,
            ),
    {
        if target == self.core.id {
            return AddLearnerAction::Reply(AddLearnerResponse { matched: self.core.last_log_id });
        }
        if let Some(t) = self.nodes.get(&target) {
            return AddLearnerAction::Reply(AddLearnerResponse { matched: t.matched });
        }
        self.nodes.insert(target, ReplicationTracker::new());
        if blocking {
            AddLearnerAction::SpawnReplication { target, reply_now: None }
        } else {
            AddLearnerAction::SpawnReplication {
                target,
                reply_now: Some(AddLearnerResponse { matched: None }),
            }
        }
    }

    /// Appends a membership entry; the caller hands the entry to replication.
    pub fn append_membership_log<S: RaftStorage>(&mut self, store: &mut S, mem: Membership) -> (r: Result<
        Entry,
        StorageError,
    >)
        requires
            old(self).wf(),
            mem.wf(),
        ensures
            final(self).wf(),
            final(self).nodes == old(self).nodes,
            final(self).core.current_term == old(self).core.current_term,
            final(self).core.committed == old(self).core.committed,
            final(self).core.id == old(self).core.id,
            final(self).core.target_state == old(self).core.target_state,
            match r {
                Ok(e) => {
                    &&& e.log_id == old(self).core.next_log_id()
                    &&& (next_index_of(old(self).core.last_log_id) != u64::MAX ==> opt_log_id_lt(
                        old(self).core.last_log_id,
                        Some(e.log_id),
                    ))
                    &&& e.payload is Membership
                    &&& e.payload->Membership_0@ == mem@
                    &&& final(self).core.last_log_id == Some(old(self).core.next_log_id())
                    &&& final(self).core.effective_membership.log_id == old(self).core.next_log_id()
                    &&& final(self).core.effective_membership.membership@ == mem@
                },
                Err(_) => *final(self) == *old(self),
            },
    {
        self.core.append_payload_to_log(store, EntryPayload::Membership(mem))
    }

    /// Proposes `members` as the voter set. A rejection is the inner error
    /// and changes nothing; on acceptance the next safe membership is
    /// appended and the entry returned, for the caller to replicate with the
    /// reply. A storage failure is the outer error.
    pub fn change_membership<S: RaftStorage>(
        &mut self,
        store: &mut S,
        members: BTreeSet<NodeId>,
        blocking: bool,
    ) -> (r: Result<Result<Entry, ClientWriteError>, StorageError>)
        requires
            old(self).wf(),
        ensures
            final(self).wf(),
            final(self).nodes == old(self).nodes,
            final(self).core.current_term == old(self).core.current_term,
            members@.is_empty() ==> {
                &&& r == Ok::<Result<Entry, ClientWriteError>, StorageError>(
                    Err(ClientWriteError::ChangeMembershipError(ChangeMembershipError::EmptyMembership)),
                )
                &&& *final(self) == *old(self)
            },
            !members@.is_empty() && old(self).change_in_progress() ==> {
                &&& r == Ok::<Result<Entry, ClientWriteError>, StorageError>(
                    Err(
                        ClientWriteError::ChangeMembershipError(
                            ChangeMembershipError::InProgress {
                                membership_log_id: old(self).core.effective_membership.log_id,
                            },
                        ),
                    ),
                )
                &&& *final(self) == *old(self)
            },
            !members@.is_empty() && !old(self).change_in_progress() ==> {
                &&& (r matches Ok(Err(_))) <==> exists|n: NodeId|
                    old(self).new_voters(members@).contains(n) && #[trigger] old(self).blocks_change(
                        n,
                        blocking,
                    )
                &&& r matches Ok(Err(e)) ==> {
                    &&& *final(self) == *old(self)
                    &&& exists|n: NodeId|
                        old(self).new_voters(members@).contains(n) && #[trigger] old(self).blocks_change(
                            n,
                            blocking,
                        ) && e == ClientWriteError::ChangeMembershipError(old(self).candidate_error(n))
                }
                &&& r matches Ok(Ok(e)) ==> {
                    let next = next_safe_of(old(self).core.effective_membership.membership@, members@);
                    &&& e.log_id == old(self).core.next_log_id()
                    &&& (next_index_of(old(self).core.last_log_id) != u64::MAX ==> opt_log_id_lt(
                        old(self).core.last_log_id,
                        Some(e.log_id),
                    ))
                    &&& e.payload is Membership
                    &&& e.payload->Membership_0@ == next
                    &&& final(self).core.last_log_id == Some(old(self).core.next_log_id())
                    &&& final(self).core.effective_membership.log_id == old(self).core.next_log_id()
                    &&& final(self).core.effective_membership.membership@ == next
                    &&& final(self).core.committed == old(self).core.committed
                }
                &&& r is Err ==> *final(self) == *old(self)
            },
            r matches Ok(Ok(_)) ==> !old(self).change_in_progress(),
    {
        if members.is_empty() {
            return Ok(Err(ClientWriteError::ChangeMembershipError(ChangeMembershipError::EmptyMembership)));
        }
        if opt_log_id_less(self.core.committed, Some(self.core.effective_membership.log_id)) {
            return Ok(
                Err(
                    ClientWriteError::ChangeMembershipError(
                        ChangeMembershipError::InProgress {
                            membership_log_id: self.core.effective_membership.log_id,
                        },
                    ),
                ),
            );
        }
        let all = self.core.effective_membership.membership.all_nodes();
        let ghost mut seen: Set<NodeId> = Set::empty();
        for n in it: members.iter()
            invariant
                self.wf(),
                *self == *old(self),
                !self.change_in_progress(),
                all@ == self.core.effective_membership.membership.all_nodes_spec(),
                it.seq().unref().to_set() == members@,
                forall|y: NodeId| #[trigger]
                    seen.contains(y) ==> !(self.new_voters(members@).contains(y) && self.blocks_change(
                        y,
                        blocking,
                    )),
                forall|y: NodeId| #[trigger]
                    members@.contains(y) ==> seen.contains(y) || exists|k: int|
                        it.index() <= k < it.seq().len() && *it.seq()[k] == y,
        {
            assert(it.seq().unref()[it.index() as int] == *n);
            assert(members@.contains(*n));
            if !all.contains(n) {
                assert(self.new_voters(members@).contains(*n));
                match self.nodes.get(n) {
                    Some(t) => {
                        if !blocking && !t.is_line_rate(&self.core.last_log_id, &self.core.config) {
                            let distance = lag(self.core.last_log_id, t.matched);
                            assert(self.blocks_change(*n, blocking));
                            return Ok(
                                Err(
                                    ClientWriteError::ChangeMembershipError(
                                        ChangeMembershipError::LearnerIsLagging {
                                            node_id: *n,
                                            matched: t.matched,
                                            distance,
                                        },
                                    ),
                                ),
                            );
                        }
                    },
                    None => {
                        assert(self.blocks_change(*n, blocking));
                        return Ok(
                            Err(
                                ClientWriteError::ChangeMembershipError(
                                    ChangeMembershipError::LearnerNotFound { node_id: *n },
                                ),
                            ),
                        );
                    },
                }
            }
            proof {
                seen = seen.insert(*n);
            }
        }
        let new_config = self.core.effective_membership.membership.next_safe(members);
        match self.append_membership_log(store, new_config) {
            Ok(e) => Ok(Ok(e)),
            Err(e) => Err(e),
        }
    }

    /// Forgets peer `target` when it is marked removed and has matched the
    /// entry that removed it. Returns whether it was forgotten.
    pub fn try_remove_replication(&mut self, target: u64) -> (r: bool)
        ensures
            final(self).core == old(self).core,
            r == (old(self).nodes@.contains_key(target) && old(self).nodes@[target].removable()),
            final(self).nodes@ == if r {
                old(self).nodes@.remove(target)
            } else {
                old(self).nodes@
            },
            remove_since_kept(old(self).nodes@, final(self).nodes@),
    {
        match self.nodes.get(&target) {
            Some(n) => {
                if !n.is_removable() {
                    return false;
                }
            },
            None => {
                return false;
            },
        }
        self.nodes.remove(&target);
        true
    }

    /// Records progress reported by peer `target` (a report below what it
    /// already matched is ignored), then forgets the peer if it may be.
    /// Returns whether it was forgotten.
    pub fn handle_update_matched(&mut self, target: NodeId, matched: Option<LogId>) -> (r: bool)
        ensures
            final(self).core == old(self).core,
            !old(self).nodes@.contains_key(target) ==> !r && final(self).nodes@ == old(self).nodes@,
            old(self).nodes@.contains_key(target) ==> {
                let t = old(self).nodes@[target];
                let u = ReplicationTracker {
                    matched: if opt_log_id_lt(t.matched, matched) {
                        matched
                    } else {
                        t.matched
                    },
                    ..t
                };
                &&& r == u.removable()
                &&& final(self).nodes@ == if r {
                    old(self).nodes@.remove(target)
                } else {
                    old(self).nodes@.insert(target, u)
                }
            },
            remove_since_kept(old(self).nodes@, final(self).nodes@),
    {
        let t = match self.nodes.get(&target) {
            Some(t) => *t,
            None => {
                return false;
            },
        };
        let mut u = t;
        u.update_matched(matched);
        self.nodes.insert(target, u);
        let r = self.try_remove_replication(target);
        proof {
            if r {
                assert(final(self).nodes@ =~= old(self).nodes@.remove(target));
            }
        }
        r
    }

    /// Reconciles the trackers once a uniform membership committed at
    /// `log_id`: a leader that is no voter any more steps down; otherwise
    /// every peer outside the membership is marked removed since
    /// `log_id.index` (a mark once set is kept), and every peer that may be
    /// forgotten is.
    pub fn handle_uniform_consensus_committed(&mut self, log_id: &LogId) -> (r: UniformCommitOutcome)
        requires
            old(self).wf(),
        ensures
            final(self).wf(),
            ({
                let all = old(self).core.effective_membership.membership.all_nodes_spec();
                let index = log_id.index;
                if !all.contains(old(self).core.id) {
                    &&& r == UniformCommitOutcome::SteppedDown
                    &&& final(self).core == (NodeCore {
                        target_state: State::Learner,
                        current_leader: None,
                        ..old(self).core
                    })
                    &&& final(self).nodes == old(self).nodes
                } else {
                    &&& r is Reconciled
                    &&& final(self).core == old(self).core
                    &&& forall|k: NodeId|
                        #[trigger] final(self).nodes@.contains_key(k) <==> (old(self).nodes@.contains_key(k)
                            && !marked(k, old(self).nodes@[k], all, index).removable())
                    &&& forall|k: NodeId|
                        #[trigger] final(self).nodes@.contains_key(k) ==> final(self).nodes@[k]
                            == marked(k, old(self).nodes@[k], all, index)
                    &&& forall|k: NodeId|
                        #[trigger] r->removed@.contains(k) <==> (old(self).nodes@.contains_key(k)
                            && !final(self).nodes@.contains_key(k))
                    &&& forall|k: NodeId|
                        old(self).nodes@.contains_key(k) && !#[trigger] final(self).nodes@.contains_key(k) ==> {
                            let m = marked(k, old(self).nodes@[k], all, index);
                            &&& m.remove_since is Some
                            &&& m.matched is Some
                            &&& m.matched->Some_0.index >= m.remove_since->Some_0
                        }
                }
            }),
            remove_since_kept(old(self).nodes@, final(self).nodes@),
            final(self).core.current_term == old(self).core.current_term,
    {
        let index = log_id.index;
        if !self.core.effective_membership.membership.contains(self.core.id) {
            self.core.set_target_state(State::Learner);
            self.core.current_leader = None;
            return UniformCommitOutcome::SteppedDown;
        }
        let all = self.core.effective_membership.membership.all_nodes();
        let ghost all_spec = all@;
        let ghost old_nodes = self.nodes@;
        let mut keys: Vec<NodeId> = Vec::new();
        let ghost mut seen: Set<NodeId> = Set::empty();
        for k in it: self.nodes.keys()
            invariant
                it.seq().unref().to_set() == old_nodes.dom(),
                self.nodes@ == old_nodes,
                forall|y: NodeId| seen.contains(y) ==> #[trigger] keys@.contains(y),
                forall|y: NodeId| #[trigger]
                    old_nodes.contains_key(y) ==> seen.contains(y) || exists|j: int|
                        it.index() <= j < it.seq().len() && *it.seq()[j] == y,
        {
            assert(it.seq().unref()[it.index() as int] == *k);
            let ghost prev = keys@;
            let ghost seen_prev = seen;
            keys.push(*k);
            proof {
                seen = seen.insert(*k);
                assert forall|y: NodeId| seen.contains(y) implies #[trigger] keys@.contains(y) by {
                    if y != *k {
                        assert(seen_prev.contains(y));
                        assert(prev.contains(y));
                        let j = choose|j: int| 0 <= j < prev.len() && prev[j] == y;
                        assert(keys@[j] == y);
                    } else {
                        assert(keys@[prev.len() as int] == y);
                    }
                }
            }
        }
        let mut removed: Vec<NodeId> = Vec::new();
        let ghost mut processed: Set<NodeId> = Set::empty();
        for i in 0..keys.len()
            invariant
                forall|j: int| 0 <= j < i ==> processed.contains(#[trigger] keys@[j]),
                self.wf(),
                self.core == old(self).core,
                old_nodes == old(self).nodes@,
                all_spec == all@,
                all_spec == self.core.effective_membership.membership.all_nodes_spec(),
                forall|y: NodeId| old_nodes.contains_key(y) ==> keys@.contains(y),
                forall|y: NodeId| #[trigger]
                    self.nodes@.contains_key(y) ==> old_nodes.contains_key(y),
                forall|y: NodeId|
                    #![trigger self.nodes@.contains_key(y)]
                    old_nodes.contains_key(y) && processed.contains(y) ==> (
                    self.nodes@.contains_key(y) <==> !marked(y, old_nodes[y], all_spec, index).removable()),
                forall|y: NodeId|
                    #![trigger self.nodes@.contains_key(y)]
                    old_nodes.contains_key(y) && processed.contains(y)
                        && self.nodes@.contains_key(y) ==> self.nodes@[y] == marked(
                        y,
                        old_nodes[y],
                        all_spec,
                        index,
                    ),
                forall|y: NodeId|
                    #![trigger self.nodes@.contains_key(y)]
                    old_nodes.contains_key(y) && !processed.contains(y) ==> (
                    self.nodes@.contains_key(y) && self.nodes@[y] == old_nodes[y]),
                forall|y: NodeId| #[trigger]
                    removed@.contains(y) <==> (old_nodes.contains_key(y) && !self.nodes@.contains_key(y)),
        {
            let k = keys[i];
            let ghost before = self.nodes@;
            if let Some(t) = self.nodes.get(&k) {
                let t = *t;
                if !all.contains(&k) && t.remove_since.is_none() {
                    self.nodes.insert(k, ReplicationTracker { remove_since: Some(index), ..t });
                }
                if self.try_remove_replication(k) {
                    let ghost prev = removed@;
                    removed.push(k);
                    proof {
                        assert forall|y: NodeId| #[trigger] removed@.contains(y) <==> (prev.contains(y) || y == k) by {
                            if prev.contains(y) {
                                let j = choose|j: int| 0 <= j < prev.len() && prev[j] == y;
                                assert(removed@[j] == y);
                            }
                            if y == k {
                                assert(removed@[prev.len() as int] == y);
                            }
                        }
                    }
                }
            }
            proof {
                assert forall|y: NodeId| y != k implies (#[trigger] self.nodes@.contains_key(y) == before.contains_key(y)
                    && (before.contains_key(y) ==> self.nodes@[y] == before[y])) by {
                }
                processed = processed.insert(k);
            }
        }
        assert forall|y: NodeId| old_nodes.contains_key(y) implies processed.contains(y) by {
            let j = choose|j: int| 0 <= j < keys.len() && keys@[j] == y;
        }
        UniformCommitOutcome::Reconciled { removed }
    }
}

} // verus!
