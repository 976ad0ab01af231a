//! State shared by every role of a Raft node, and bootstrap of a pristine node.
use std::collections::BTreeSet;
use vstd::prelude::*;

use crate::error::Fatal;
use crate::error::InitializeError;
use crate::error::StorageError;
use crate::log_id::next_index;
use crate::log_id::next_index_of;
use crate::log_id::opt_log_id_lt;
use crate::log_id::LogId;
use crate::log_id::NodeId;
use crate::membership::set_eq;
use crate::membership::EffectiveMembership;
use crate::membership::Membership;
use crate::replication::Config;

verus! {

broadcast use vstd::std_specs::btree::group_btree_axioms;

/// The role a node is in, or is about to enter.
#[derive(Debug, Clone, Copy, PartialEq, Eq, Structural)]
pub enum State {
    Learner,
    Follower,
    Candidate,
    Leader,
    Shutdown,
}

/// What a log entry carries.
#[derive(Debug, Clone)]
pub enum EntryPayload {
    /// An entry with no content.
    Blank,
    /// Application data, opaque to this core.
    Normal(Vec<u8>),
    /// A new voter configuration.
    Membership(Membership),
}

/// A log entry.
#[derive(Debug, Clone)]
pub struct Entry {
    pub log_id: LogId,
    pub payload: EntryPayload,
}

/// The term and vote that must survive a restart.
#[derive(Debug, Clone, Copy, PartialEq, Eq, Structural)]
pub struct HardState {
    pub current_term: u64,
    pub voted_for: Option<NodeId>,
}

/// The durable storage of a node, implemented by the application.
pub trait RaftStorage {
    /// Appends `entry` to the log.
    fn append_to_log(&mut self, entry: &Entry) -> Result<(), StorageError>;

    /// Durably records the term and vote.
    fn save_hard_state(&mut self, hs: &HardState) -> Result<(), StorageError>;
}

/// State of a Raft node that every role reads and changes.
#[derive(Debug)]
pub struct NodeCore {
    pub id: NodeId,
    pub current_term: u64,
    pub voted_for: Option<NodeId>,
    pub last_log_id: Option<LogId>,
    pub committed: Option<LogId>,
    /// The most recently appended membership, committed or not.
    pub effective_membership: EffectiveMembership,
    pub target_state: State,
    pub current_leader: Option<NodeId>,
    pub config: Config,
}

/// A node in the learner role; a pristine node is one.
#[derive(Debug)]
pub struct LearnerState {
    pub core: NodeCore,
}

impl Membership {
    /// A copy with the same voter sets.
    pub fn duplicate(&self) -> (r: Membership)
        requires
            self.wf(),
        ensures
            r.wf(),
            r@ == self@,
    {
        if self.configs.len() == 1 {
            Membership::new_single(self.configs[0].clone())
        } else {
            Membership::new_joint(self.configs[0].clone(), self.configs[1].clone())
        }
    }
}

impl NodeCore {
    /// The membership is well formed, and no entry of the log is from a
    /// term later than the current one.
    pub open spec fn wf(&self) -> bool {
        &&& self.effective_membership.membership.wf()
        &&& self.last_log_id matches Some(l) ==> l.term <= self.current_term
    }

    /// The term and vote to persist.
    pub open spec fn hard_state_spec(&self) -> HardState {
        HardState { current_term: self.current_term, voted_for: self.voted_for }
    }

    /// The log id that the next appended entry gets.
    pub open spec fn next_log_id(&self) -> LogId {
        LogId { term: self.current_term, index: next_index_of(self.last_log_id) }
    }

    /// A pristine node: term 0, an empty log, and itself as the only voter.
    pub fn new(id: NodeId, config: Config) -> (r: NodeCore)
        ensures
            r.wf(),
            r.id == id,
            r.current_term == 0,
            r.voted_for is None,
            r.last_log_id is None,
            r.committed is None,
            r.effective_membership.log_id == (LogId { term: 0, index: 0 }),
            r.effective_membership.membership@ == seq![set![id]],
            r.target_state == State::Learner,
            r.current_leader is None,
            r.config == config,
    {
        let mut members: BTreeSet<NodeId> = BTreeSet::new();
        members.insert(id);
        assert(members@ =~= set![id]);
        NodeCore {
            id,
            current_term: 0,
            voted_for: None,
            last_log_id: None,
            committed: None,
            effective_membership: EffectiveMembership {
                log_id: LogId { term: 0, index: 0 },
                membership: Membership::new_single(members),
            },
            target_state: State::Learner,
            current_leader: None,
            config,
        }
    }

    /// Appends an entry carrying `payload` at the next log id. On success the
    /// last log id moves to it and a membership payload becomes the effective
    /// membership; on a storage error nothing changes.
    pub fn append_payload_to_log<S: RaftStorage>(&mut self, store: &mut S, payload: EntryPayload) -> (r:
        Result<Entry, StorageError>)
        requires
            old(self).wf(),
            payload is Membership ==> payload->Membership_0.wf(),
        ensures
            final(self).wf(),
            final(self).id == old(self).id,
            final(self).current_term == old(self).current_term,
            final(self).voted_for == old(self).voted_for,
            final(self).committed == old(self).committed,
            final(self).target_state == old(self).target_state,
            final(self).current_leader == old(self).current_leader,
            final(self).config == old(self).config,
            match r {
                Ok(e) => {
                    &&& e.log_id == old(self).next_log_id()
                    &&& (next_index_of(old(self).last_log_id) != u64::MAX ==> opt_log_id_lt(
                        old(self).last_log_id,
                        Some(e.log_id),
                    ))
                    &&& e.payload == payload
                    &&& final(self).last_log_id == Some(old(self).next_log_id())
                    &&& match payload {
                        EntryPayload::Membership(m) => {
                            &&& final(self).effective_membership.log_id == old(self).next_log_id()
                            &&& final(self).effective_membership.membership@ == m@
                        },
                        _ => final(self).effective_membership == old(self).effective_membership,
                    }
                },
                Err(_) => *final(self) == *old(self),
            },
    {
        let log_id = LogId { term: self.current_term, index: next_index(self.last_log_id) };
        let entry = Entry { log_id, payload };
        match store.append_to_log(&entry) {
            Ok(()) => {},
            Err(e) => {
                return Err(e);
            },
        }
        self.last_log_id = Some(log_id);
        if let EntryPayload::Membership(m) = &entry.payload {
            self.effective_membership = EffectiveMembership { log_id, membership: m.duplicate() };
        }
        Ok(entry)
    }

    /// Persists the current term and vote.
    /// The term and vote to persist.
    pub fn hard_state(&self) -> (r: HardState)
        ensures
            r == self.hard_state_spec(),
    {
        HardState { current_term: self.current_term, voted_for: self.voted_for }
    }

    /// Hands [`NodeCore::hard_state`] to the store, and returns what the
    /// store answered.
    pub fn save_hard_state<S: RaftStorage>(&self, store: &mut S) -> (r: Result<(), StorageError>) {
        let hs = self.hard_state();
        store.save_hard_state(&hs)
    }

    /// Sets the role the node is to enter.
    pub fn set_target_state(&mut self, state: State)
        ensures
            *final(self) == (NodeCore { target_state: state, ..*old(self) }),
    {
        self.target_state = state;
    }
}

impl LearnerState {
    /// Bootstraps a pristine node: appends a uniform membership of `members`
    /// and this node, then becomes candidate, or, when this node is the only
    /// voter, leader of term 1 with a first entry of that term committed.
    pub fn handle_init_with_config<S: RaftStorage>(&mut self, store: &mut S, members: BTreeSet<NodeId>) -> (r:
        Result<(), InitializeError>)
        requires
            old(self).core.wf(),
        ensures
            final(self).core.wf(),
            final(self).core.current_term >= old(self).core.current_term,
            final(self).core.current_term <= old(self).core.current_term + 1,
            final(self).core.id == old(self).core.id,
            old(self).core.last_log_id is Some || old(self).core.current_term != 0 ==> {
                &&& r matches Err(InitializeError::NotAllowed)
                &&& *final(self) == *old(self)
            },
            old(self).core.last_log_id is None && old(self).core.current_term == 0 ==> {
                let voters = members@.insert(old(self).core.id);
                let log_id = LogId { term: 0, index: 0 };
                match r {
                    Ok(()) => {
                        &&& final(self).core.effective_membership.log_id == log_id
                        &&& final(self).core.effective_membership.membership@ == seq![voters]
                        &&& if voters == set![old(self).core.id] {
                            &&& final(self).core.current_term == 1
                            &&& final(self).core.voted_for == Some(old(self).core.id)
                            &&& final(self).core.hard_state_spec() == (HardState {
                                current_term: 1,
                                voted_for: Some(old(self).core.id),
                            })
                            &&& final(self).core.target_state == State::Leader
                            &&& final(self).core.last_log_id == Some(LogId { term: 1, index: 1 })
                            &&& final(self).core.committed == Some(LogId { term: 1, index: 1 })
                        } else {
                            &&& final(self).core.last_log_id == Some(log_id)
                            &&& final(self).core.committed == old(self).core.committed
                            &&& final(self).core.current_term == 0
                            &&& final(self).core.voted_for == old(self).core.voted_for
                            &&& final(self).core.target_state == State::Candidate
                        }
                    },
                    Err(e) => e matches InitializeError::Fatal(Fatal::StorageError(_)),
                }
            },
    {
        if self.core.last_log_id.is_some() || self.core.current_term != 0 {
            return Err(InitializeError::NotAllowed);
        }
        let ghost requested = members@;
        let mut members = members;
        // The bootstrapping node is always a voter.
        if !members.contains(&self.core.id) {
            members.insert(self.core.id);
        }
        assert(members@ =~= requested.insert(self.core.id));
        let mut only_self: BTreeSet<NodeId> = BTreeSet::new();
        only_self.insert(self.core.id);
        let single = set_eq(&members, &only_self);
        let membership = Membership::new_single(members);
        let appended = self.core.append_payload_to_log(store, EntryPayload::Membership(membership));
        match appended {
            Ok(_) => {},
            Err(e) => {
                return Err(InitializeError::Fatal(Fatal::StorageError(e)));
            },
        }
        if single {
            self.core.current_term = self.core.current_term + 1;
            self.core.voted_for = Some(self.core.id);
            self.core.set_target_state(State::Leader);
            match self.core.save_hard_state(store) {
                Ok(()) => {},
                Err(e) => {
                    return Err(InitializeError::Fatal(Fatal::StorageError(e)));
                },
            }
            // The only voter holds every entry it appends: the first entry of
            // its term is committed at once.
            match self.core.append_payload_to_log(store, EntryPayload::Blank) {
                Ok(e) => {
                    self.core.committed = Some(e.log_id);
                },
                Err(e) => {
                    return Err(InitializeError::Fatal(Fatal::StorageError(e)));
                },
            }
        } else {
            self.core.set_target_state(State::Candidate);
        }
        Ok(())
    }
}

} // verus!
