//! The leader-side membership-change core of a Raft node.
pub mod admin;
pub mod error;
pub mod log_id;
pub mod membership;
pub mod node;
pub mod replication;
