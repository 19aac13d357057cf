//! Identity of a managed child process.

pub use crate::types::ManagedChildIdentity;
