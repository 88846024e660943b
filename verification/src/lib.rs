//! Chat-platform channel adapters for the Lark platform family.
//!
//! The crate models one platform family with two regional variants: a
//! generalized adapter parameterized by a regional-variant flag and a
//! receive mode, and a specialized adapter that pins the flag and narrows
//! the configuration surface. Each adapter owns a recipient allow-list
//! that decides which inbound senders may be processed.

pub mod allowlist;
pub mod channels;
pub mod config;
