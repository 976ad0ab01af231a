use std::collections::BTreeSet;

use openraft::error::AddLearnerError;
use openraft::error::AppendEntriesError;
use openraft::error::ClientReadError;
use openraft::error::ErrorSubject;
use openraft::error::ErrorVerb;
use openraft::error::ExtractFatal;
use openraft::error::Fatal;
use openraft::error::ForwardToLeader;
use openraft::error::InitializeError;
use openraft::error::InstallSnapshotError;
use openraft::error::StorageError;
use openraft::error::VoteError;
use openraft::log_id::next_index;
use openraft::log_id::opt_log_id_less;
use openraft::log_id::LogId;
use openraft::membership::set_eq;
use openraft::membership::set_union;
use openraft::membership::Membership;
use openraft::replication::lag;
use openraft::replication::Config;
use openraft::replication::ReplicationTracker;

fn set(ids: &[u64]) -> BTreeSet<u64> {
    ids.iter().copied().collect()
}

fn lid(term: u64, index: u64) -> LogId {
    LogId { term, index }
}

#[test]
fn next_safe_uniform_same_target() {
    let m = Membership::new_single(set(&[1, 2, 3]));
    assert_eq!(m.next_safe(set(&[3, 2, 1])).configs, vec![set(&[1, 2, 3])]);
}

#[test]
fn next_safe_uniform_to_joint() {
    let m = Membership::new_single(set(&[1, 2, 3]));
    assert_eq!(m.next_safe(set(&[1, 2, 4])).configs, vec![set(&[1, 2, 3]), set(&[1, 2, 4])]);
}

#[test]
fn next_safe_joint_completes() {
    let m = Membership::new_joint(set(&[1, 2, 3]), set(&[1, 2, 4]));
    assert_eq!(m.next_safe(set(&[1, 2, 4])).configs, vec![set(&[1, 2, 4])]);
}

#[test]
fn next_safe_joint_chains() {
    let m = Membership::new_joint(set(&[1, 2, 3]), set(&[1, 2, 4]));
    assert_eq!(m.next_safe(set(&[5])).configs, vec![set(&[1, 2, 4]), set(&[5])]);
}

#[test]
fn next_safe_fixed_point() {
    let m = Membership::new_joint(set(&[1]), set(&[2]));
    let once = m.next_safe(set(&[2]));
    let twice = once.next_safe(set(&[2]));
    assert_eq!(once.configs, twice.configs);
}

#[test]
fn membership_nodes() {
    let m = Membership::new_joint(set(&[1, 2]), set(&[2, 5]));
    assert!(m.is_joint());
    assert_eq!(m.all_nodes(), set(&[1, 2, 5]));
    assert!(m.contains(5));
    assert!(!m.contains(3));
    assert!(!Membership::new_single(set(&[1])).is_joint());
    assert_eq!(m.duplicate().configs, m.configs);
}

#[test]
fn set_helpers() {
    assert!(set_eq(&set(&[1, 2]), &set(&[2, 1])));
    assert!(!set_eq(&set(&[1, 2]), &set(&[1])));
    assert!(!set_eq(&set(&[1]), &set(&[1, 3])));
    assert_eq!(set_union(&set(&[1, 2]), &set(&[3])), set(&[1, 2, 3]));
}

#[test]
fn log_id_order() {
    assert!(opt_log_id_less(None, Some(lid(0, 0))));
    assert!(!opt_log_id_less(None, None));
    assert!(!opt_log_id_less(Some(lid(0, 0)), None));
    assert!(opt_log_id_less(Some(lid(5, 10)), Some(lid(5, 11))));
    assert!(opt_log_id_less(Some(lid(4, 99)), Some(lid(5, 1))));
    assert!(!opt_log_id_less(Some(lid(5, 11)), Some(lid(5, 11))));
    assert_eq!(next_index(None), 0);
    assert_eq!(next_index(Some(lid(1, 9))), 10);
    assert_eq!(next_index(Some(lid(1, u64::MAX))), u64::MAX);
}

#[test]
fn lag_and_line_rate() {
    assert_eq!(lag(Some(lid(7, 100)), Some(lid(7, 40))), 60);
    assert_eq!(lag(Some(lid(7, 100)), None), 101);
    assert_eq!(lag(Some(lid(7, 10)), Some(lid(7, 40))), 0);
    let c = Config { replication_lag_threshold: 5 };
    let t = ReplicationTracker { matched: Some(lid(1, 95)), remove_since: None };
    assert!(t.is_line_rate(&Some(lid(1, 100)), &c));
    assert!(!t.is_line_rate(&Some(lid(1, 101)), &c));
}

#[test]
fn tracker_progress_never_decreases() {
    let mut t = ReplicationTracker::new();
    t.update_matched(Some(lid(1, 5)));
    assert_eq!(t.matched, Some(lid(1, 5)));
    t.update_matched(Some(lid(1, 3)));
    assert_eq!(t.matched, Some(lid(1, 5)));
    t.update_matched(None);
    assert_eq!(t.matched, Some(lid(1, 5)));
    assert!(!t.is_removable());
    t.remove_since = Some(5);
    assert!(t.is_removable());
}

fn storage_error() -> StorageError {
    StorageError { subject: ErrorSubject::HardState, verb: ErrorVerb::Write }
}

#[test]
fn extract_fatal_separates_fatal() {
    let r: Result<u8, ClientReadError> = Err(ClientReadError::from(storage_error()));
    assert_eq!(r.extract_fatal().unwrap_err(), Fatal::StorageError(storage_error()));

    let r: Result<u8, ClientReadError> = Err(ClientReadError::ForwardToLeader(ForwardToLeader { leader_id: Some(2) }));
    assert!(matches!(r.extract_fatal(), Ok(Err(ClientReadError::ForwardToLeader(_)))));

    let r: Result<u8, ClientReadError> = Ok(3);
    assert!(matches!(r.extract_fatal(), Ok(Ok(3))));

    let r: Result<(), VoteError> = Err(VoteError::Fatal(Fatal::Stopped));
    assert_eq!(r.extract_fatal().unwrap_err(), Fatal::Stopped);
}

#[test]
fn storage_errors_become_fatal() {
    let s = storage_error();
    assert!(matches!(AppendEntriesError::from(s), AppendEntriesError::Fatal(Fatal::StorageError(_))));
    assert!(matches!(VoteError::from(s), VoteError::Fatal(Fatal::StorageError(_))));
    assert!(matches!(InstallSnapshotError::from(s), InstallSnapshotError::Fatal(Fatal::StorageError(_))));
    assert!(matches!(InitializeError::from(s), InitializeError::Fatal(Fatal::StorageError(_))));
    assert!(matches!(AddLearnerError::from(s), AddLearnerError::Fatal(Fatal::StorageError(_))));
    let r: Result<(), AddLearnerError> = Err(AddLearnerError::Exists(3));
    assert!(matches!(r.extract_fatal(), Ok(Err(AddLearnerError::Exists(3)))));
    let r: Result<(), InitializeError> = Err(InitializeError::from(s));
    assert_eq!(r.extract_fatal().unwrap_err(), Fatal::StorageError(s));
}
