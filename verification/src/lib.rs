//! Decoding of ledger transactions into trade events, and the decisions of the
//! service that streams the decoded events to its subscribers.

pub mod server;
pub mod transaction;
