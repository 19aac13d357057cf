//! Error types and convenience aliases used by the orchestration API.

use vstd::prelude::*;
use vstd::std_specs::convert::FromSpecImpl;

use crate::protocol::PorkProtoCodecError;
use crate::types::{BootstrapEnvName, ManagedChildName, ProcessId};

verus! {

#[verifier::external_type_specification]
#[verifier::external_body]
pub struct ExIoError(std::io::Error);

#[verifier::external_type_specification]
#[verifier::external_body]
pub struct ExIpcError(ipc_channel::IpcError);

/// Convenience result type used throughout the orchestration API.
pub type Result<T> = core::result::Result<T, OrchestratorError>;

/// Errors returned by the process orchestration API.
#[derive(Debug)]
pub enum OrchestratorError {
    /// I/O error.
    Io(std::io::Error),
    /// IPC error.
    Ipc(ipc_channel::IpcError),
    /// Child process with the given id was not found.
    ProcessNotFound(ProcessId),
    /// Child process with the given managed name was not found.
    ProcessNameNotFound(ManagedChildName),
    /// A managed name was already registered for another child process.
    DuplicateProcessName(ManagedChildName),
    /// Required bootstrap environment variable was missing.
    MissingBootstrapEnv(BootstrapEnvName),
    /// Required bootstrap value was expected but not present.
    MissingBootstrapValue,
    /// Required control codec environment variable was missing.
    MissingControlCodec,
    /// The provided control codec value is not supported.
    UnsupportedControlCodec(String),
    /// The configured control codec could not encode or decode a control message.
    ControlCodec(PorkProtoCodecError),
    /// Timed out waiting for a child process to shut down gracefully.
    GracefulShutdownTimeout(ProcessId),
    /// Timed out waiting for one or more dependencies to become ready.
    DependencyTimeout(Vec<ManagedChildName>),
    /// A declared dependency is not known to the orchestrator.
    UnknownDependency(ManagedChildName),
    /// A declared dependency name was not found in the registry.
    DependencyNotFound(ManagedChildName),
    /// A dependency cycle was detected in the managed-child graph.
    DependencyCycle(Vec<ManagedChildName>),
    /// Every process id has been handed out; no further process can be started.
    ProcessIdsExhausted,
}

impl From<std::io::Error> for OrchestratorError {
    fn from(value: std::io::Error) -> (error: Self) {
        OrchestratorError::Io(value)
    }
}

impl FromSpecImpl<std::io::Error> for OrchestratorError {
    open spec fn obeys_from_spec() -> bool {
        true
    }

    open spec fn from_spec(value: std::io::Error) -> Self {
        OrchestratorError::Io(value)
    }
}

impl From<ipc_channel::IpcError> for OrchestratorError {
    fn from(value: ipc_channel::IpcError) -> (error: Self) {
        OrchestratorError::Ipc(value)
    }
}

impl FromSpecImpl<ipc_channel::IpcError> for OrchestratorError {
    open spec fn obeys_from_spec() -> bool {
        true
    }

    open spec fn from_spec(value: ipc_channel::IpcError) -> Self {
        OrchestratorError::Ipc(value)
    }
}

impl From<PorkProtoCodecError> for OrchestratorError {
    fn from(value: PorkProtoCodecError) -> (error: Self) {
        OrchestratorError::ControlCodec(value)
    }
}

impl FromSpecImpl<PorkProtoCodecError> for OrchestratorError {
    open spec fn obeys_from_spec() -> bool {
        true
    }

    open spec fn from_spec(value: PorkProtoCodecError) -> Self {
        OrchestratorError::ControlCodec(value)
    }
}

} // verus!
