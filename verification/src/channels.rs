//! Adapter implementations: the pure core of the channel contract.
//!
//! The transport-facing operations (sending, listening, liveness probes,
//! typing indicators) perform network I/O and live outside this crate's
//! verified core; everything an adapter decides or computes from its own
//! configuration is here.

pub mod feishu;
pub mod lark;
