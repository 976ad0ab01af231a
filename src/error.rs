//! Errors of the membership-change core and the separation of fatal ones.
use std::collections::BTreeSet;
use std::time::Duration;
use vstd::prelude::*;

use crate::log_id::LogId;
use crate::log_id::NodeId;
use crate::membership::Membership;

verus! {

/// Declares `std::io::Error` so that `ReplicationError::IO` can carry it; it
/// is an opaque value here, and nothing is assumed of it.
#[verifier::external_type_specification]
#[verifier::external_body]
pub struct ExIoError(std::io::Error);

/// Declares `anyhow::Error` so that `ReplicationError::Network` can carry a
/// transport's error; it is an opaque value here, and nothing is assumed of
/// it.
#[verifier::external_type_specification]
#[verifier::external_body]
pub struct ExAnyhowError(anyhow::Error);

/// What a storage operation was working on when it failed.
#[derive(Debug, Clone, Copy, PartialEq, Eq, Structural)]
pub enum ErrorSubject {
    Store,
    HardState,
    Log(LogId),
    Logs,
    StateMachine,
    Snapshot,
}

/// What a storage operation was doing when it failed.
#[derive(Debug, Clone, Copy, PartialEq, Eq, Structural)]
pub enum ErrorVerb {
    Read,
    Write,
    Delete,
}

/// A failure of the log or hard-state store.
#[derive(Debug, Clone, Copy, PartialEq, Eq, Structural)]
pub struct StorageError {
    pub subject: ErrorSubject,
    pub verb: ErrorVerb,
}

/// Fatal is unrecoverable and shuts down raft at once.
#[derive(Debug, Clone, Copy, PartialEq, Eq, Structural)]
pub enum Fatal {
    StorageError(StorageError),
    Stopped,
}

/// An error that may hold a [`Fatal`] one.
pub trait FatalSource: Sized {
    /// The fatal error held, if any.
    spec fn fatal_spec(&self) -> Option<Fatal>;

    /// Extracts the fatal error held, if any.
    fn try_into_fatal(&self) -> (r: Option<Fatal>)
        ensures
            r == self.fatal_spec(),
    ;
}

/// Extract Fatal from a Result.
///
/// Fatal will shutdown the raft and needs to be dealt separately,
/// such as StorageError.
pub trait ExtractFatal: Sized {
    /// The result of [`ExtractFatal::extract_fatal`].
    spec fn extract_fatal_spec(self) -> Result<Self, Fatal>;

    fn extract_fatal(self) -> (r: Result<Self, Fatal>)
        ensures
            r == self.extract_fatal_spec(),
    ;
}

impl<T, E: FatalSource> ExtractFatal for Result<T, E> {
    /// An error that holds a fatal one becomes that fatal error; anything else
    /// is kept as it is.
    open spec fn extract_fatal_spec(self) -> Result<Self, Fatal> {
        match self {
            Err(e) => match e.fatal_spec() {
                Some(f) => Err(f),
                None => Ok(self),
            },
            Ok(_) => Ok(self),
        }
    }

    fn extract_fatal(self) -> (r: Result<Self, Fatal>) {
        if let Err(e) = &self {
            if let Some(f) = e.try_into_fatal() {
                return Err(f);
            }
        }
        Ok(self)
    }
}

#[derive(Debug, Clone)]
pub enum AppendEntriesError {
    Fatal(Fatal),
}

#[derive(Debug, Clone)]
pub enum VoteError {
    Fatal(Fatal),
}

#[derive(Debug, Clone)]
pub enum InstallSnapshotError {
    SnapshotMismatch(SnapshotMismatch),
    Fatal(Fatal),
}

/// An error related to a client read request.
#[derive(Debug, Clone)]
pub enum ClientReadError {
    ForwardToLeader(ForwardToLeader),
    QuorumNotEnough(QuorumNotEnough),
    Fatal(Fatal),
}

/// An error related to a client write request.
#[derive(Debug, Clone)]
pub enum ClientWriteError {
    ForwardToLeader(ForwardToLeader),
    /// When writing a change-membership entry.
    ChangeMembershipError(ChangeMembershipError),
    Fatal(Fatal),
}

/// The set of errors which may take place when requesting to propose a config change.
#[derive(Debug, Clone)]
pub enum ChangeMembershipError {
    /// The cluster is already undergoing a configuration change at this log.
    InProgress { membership_log_id: LogId },
    /// The new membership can not be empty.
    EmptyMembership,
    /// A new voter has first to be added as a learner.
    LearnerNotFound { node_id: NodeId },
    /// Replication to a new voter lags `distance` entries behind.
    LearnerIsLagging { node_id: NodeId, matched: Option<LogId>, distance: u64 },
    /// The change is refused by policy.
    Incompatible { curr: Membership, to: BTreeSet<NodeId> },
}

#[derive(Debug)]
pub enum AddLearnerError {
    ForwardToLeader(ForwardToLeader),
    /// The node is already a learner.
    Exists(NodeId),
    Fatal(Fatal),
}

/// The set of errors which may take place when initializing a pristine Raft node.
#[derive(Debug)]
#[non_exhaustive]
pub enum InitializeError {
    /// The requested action is not allowed due to the Raft node's current state.
    NotAllowed,
    Fatal(Fatal),
}

/// Error variants related to the Replication.
#[derive(Debug)]
#[non_exhaustive]
#[allow(inconsistent_fields)]
pub enum ReplicationError {
    HigherTerm { higher: u64, mine: u64 },
    Closed,
    LackEntry(LackEntry),
    CommittedAdvanceTooMany { committed_index: u64, target_index: u64 },
    StorageError(StorageError),
    IO { source: std::io::Error },
    Timeout { id: NodeId, target: NodeId, timeout: Duration },
    Network { source: anyhow::Error },
}

/// The store has no log at `index`.
#[derive(Debug, Clone)]
pub struct LackEntry {
    pub index: Option<u64>,
}

/// The request has to be forwarded to `leader_id`, where known.
#[derive(Debug, Clone)]
pub struct ForwardToLeader {
    pub leader_id: Option<NodeId>,
}

/// Identifies a segment of a snapshot stream.
#[derive(Debug, Clone, PartialEq, Eq)]
pub struct SnapshotSegmentId {
    pub id: String,
    pub offset: u64,
}

/// A snapshot segment arrived out of order.
#[derive(Debug, Clone)]
pub struct SnapshotMismatch {
    pub expect: SnapshotSegmentId,
    pub got: SnapshotSegmentId,
}

/// Not enough nodes answered to form a quorum.
#[derive(Debug, Clone)]
pub struct QuorumNotEnough {
    pub cluster: String,
    pub got: BTreeSet<NodeId>,
}

impl FatalSource for AppendEntriesError {
    open spec fn fatal_spec(&self) -> Option<Fatal> {
        match self {
            AppendEntriesError::Fatal(f) => Some(*f),
        }
    }

    fn try_into_fatal(&self) -> (r: Option<Fatal>) {
        match self {
            AppendEntriesError::Fatal(f) => Some(*f),
        }
    }
}

impl FatalSource for VoteError {
    open spec fn fatal_spec(&self) -> Option<Fatal> {
        match self {
            VoteError::Fatal(f) => Some(*f),
        }
    }

    fn try_into_fatal(&self) -> (r: Option<Fatal>) {
        match self {
            VoteError::Fatal(f) => Some(*f),
        }
    }
}

impl FatalSource for InstallSnapshotError {
    open spec fn fatal_spec(&self) -> Option<Fatal> {
        match self {
            InstallSnapshotError::Fatal(f) => Some(*f),
            _ => None,
        }
    }

    fn try_into_fatal(&self) -> (r: Option<Fatal>) {
        match self {
            InstallSnapshotError::Fatal(f) => Some(*f),
            _ => None,
        }
    }
}

impl FatalSource for ClientReadError {
    open spec fn fatal_spec(&self) -> Option<Fatal> {
        match self {
            ClientReadError::Fatal(f) => Some(*f),
            _ => None,
        }
    }

    fn try_into_fatal(&self) -> (r: Option<Fatal>) {
        match self {
            ClientReadError::Fatal(f) => Some(*f),
            _ => None,
        }
    }
}

impl FatalSource for ClientWriteError {
    open spec fn fatal_spec(&self) -> Option<Fatal> {
        match self {
            ClientWriteError::Fatal(f) => Some(*f),
            _ => None,
        }
    }

    fn try_into_fatal(&self) -> (r: Option<Fatal>) {
        match self {
            ClientWriteError::Fatal(f) => Some(*f),
            _ => None,
        }
    }
}

impl FatalSource for AddLearnerError {
    open spec fn fatal_spec(&self) -> Option<Fatal> {
        match self {
            AddLearnerError::Fatal(f) => Some(*f),
            _ => None,
        }
    }

    fn try_into_fatal(&self) -> (r: Option<Fatal>) {
        match self {
            AddLearnerError::Fatal(f) => Some(*f),
            _ => None,
        }
    }
}

impl FatalSource for InitializeError {
    open spec fn fatal_spec(&self) -> Option<Fatal> {
        match self {
            InitializeError::Fatal(f) => Some(*f),
            _ => None,
        }
    }

    fn try_into_fatal(&self) -> (r: Option<Fatal>) {
        match self {
            InitializeError::Fatal(f) => Some(*f),
            _ => None,
        }
    }
}

impl From<StorageError> for AppendEntriesError {
    fn from(s: StorageError) -> Self {
        AppendEntriesError::Fatal(Fatal::StorageError(s))
    }
}

impl vstd::std_specs::convert::FromSpecImpl<StorageError> for AppendEntriesError {
    open spec fn obeys_from_spec() -> bool {
        true
    }

    open spec fn from_spec(s: StorageError) -> Self {
        AppendEntriesError::Fatal(Fatal::StorageError(s))
    }
}

impl From<StorageError> for VoteError {
    fn from(s: StorageError) -> Self {
        VoteError::Fatal(Fatal::StorageError(s))
    }
}

impl vstd::std_specs::convert::FromSpecImpl<StorageError> for VoteError {
    open spec fn obeys_from_spec() -> bool {
        true
    }

    open spec fn from_spec(s: StorageError) -> Self {
        VoteError::Fatal(Fatal::StorageError(s))
    }
}

impl From<StorageError> for InstallSnapshotError {
    fn from(s: StorageError) -> Self {
        InstallSnapshotError::Fatal(Fatal::StorageError(s))
    }
}

impl vstd::std_specs::convert::FromSpecImpl<StorageError> for InstallSnapshotError {
    open spec fn obeys_from_spec() -> bool {
        true
    }

    open spec fn from_spec(s: StorageError) -> Self {
        InstallSnapshotError::Fatal(Fatal::StorageError(s))
    }
}

impl From<StorageError> for ClientReadError {
    fn from(s: StorageError) -> Self {
        ClientReadError::Fatal(Fatal::StorageError(s))
    }
}

impl vstd::std_specs::convert::FromSpecImpl<StorageError> for ClientReadError {
    open spec fn obeys_from_spec() -> bool {
        true
    }

    open spec fn from_spec(s: StorageError) -> Self {
        ClientReadError::Fatal(Fatal::StorageError(s))
    }
}

impl From<StorageError> for InitializeError {
    fn from(s: StorageError) -> Self {
        InitializeError::Fatal(Fatal::StorageError(s))
    }
}

impl vstd::std_specs::convert::FromSpecImpl<StorageError> for InitializeError {
    open spec fn obeys_from_spec() -> bool {
        true
    }

    open spec fn from_spec(s: StorageError) -> Self {
        InitializeError::Fatal(Fatal::StorageError(s))
    }
}

impl From<StorageError> for AddLearnerError {
    fn from(s: StorageError) -> Self {
        AddLearnerError::Fatal(Fatal::StorageError(s))
    }
}

impl vstd::std_specs::convert::FromSpecImpl<StorageError> for AddLearnerError {
    open spec fn obeys_from_spec() -> bool {
        true
    }

    open spec fn from_spec(s: StorageError) -> Self {
        AddLearnerError::Fatal(Fatal::StorageError(s))
    }
}

} // verus!
