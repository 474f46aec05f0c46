//! Verified core of a reference state log (RSL) for git: the decisions that
//! keep a push history tamper-evident, separated from the repository and
//! network operations that feed them.
pub mod object_id;
pub mod chain;
pub mod fetch_head;
pub mod refspec;
pub mod auth;
pub mod push_protocol;
