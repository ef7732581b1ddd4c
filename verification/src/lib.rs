//! A log-ingestion core: an access filter over mutable allow/deny sets, a
//! self-administered control handler, and a router that stamps accepted log
//! records with their sender and multiplexes them onto per-sender append
//! targets. Transport and durable storage are collaborators at the edge: the
//! router returns the append action to perform, and the caller carries it out.

pub mod control;
pub mod dispatch;
pub mod errors;
pub mod filter;
pub mod identity;
pub mod members;
pub mod router;
pub mod state;
