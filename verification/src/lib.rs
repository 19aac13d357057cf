//! Process orchestration for host/child IPC workflows.
//!
//! The library holds the configuration, protocol and bookkeeping logic of a
//! small process orchestrator: strongly typed identifiers and payloads, child
//! process specifications with their builder, the shared control protocol, and
//! the registry that tracks managed processes by id and by name.

pub mod child;
pub mod env;
pub mod error;
pub mod host;
pub mod orchestrator;
pub mod protocol;
pub mod spec;
pub mod types;

use vstd::prelude::*;

verus! {

/// Environment variable name used to pass the data channel handshake server name
/// from the host process to a managed child.
pub const DEFAULT_BOOTSTRAP_ENV: &'static str = "PORK_IPC_BOOTSTRAP";

/// Environment variable name used to pass the control channel handshake server name
/// from the host process to a managed child.
pub const CONTROL_BOOTSTRAP_ENV: &'static str = "PORK_CONTROL_BOOTSTRAP";

} // verus!
