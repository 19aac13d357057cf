//! Host-side process bookkeeping: the orchestrator's configuration, the plan
//! of a child's launch, and the registry that tracks managed processes by id
//! and by managed name.

pub mod launch;
pub mod managed_child;
pub mod registry;

pub use crate::spec;

use vstd::prelude::*;

use crate::types::duration_from_secs;

verus! {

/// Default size of the buffer for inbound child messages.
pub const DEFAULT_MESSAGE_BUFFER_SIZE: usize = 1024;

/// Default time, in seconds, a graceful shutdown waits before the child is
/// stopped by force.
pub const DEFAULT_GRACEFUL_SHUTDOWN_SECS: u64 = 5;

/// Default time, in seconds, a start waits for its declared dependencies to
/// be running before it fails with `DependencyTimeout`.
pub const DEFAULT_DEPENDENCY_TIMEOUT_SECS: u64 = 30;

/// Interval, in milliseconds, between two polls of the dependencies while a
/// start waits for them.
pub const DEPENDENCY_POLL_INTERVAL_MS: u64 = 50;

/// The settings an orchestrator is built with.
#[derive(Debug, Clone, Copy)]
pub struct OrchestratorSettings {
    /// Size of the buffer for inbound child messages.
    pub message_buffer_size: usize,
    /// Time a graceful shutdown waits before the child is stopped by force.
    pub graceful_shutdown_timeout: core::time::Duration,
    /// Time a start waits for its declared dependencies to be running.
    pub dependency_timeout: core::time::Duration,
}

/// The settings of a builder that was not configured.
pub open spec fn default_settings() -> OrchestratorSettings {
    OrchestratorSettings {
        message_buffer_size: DEFAULT_MESSAGE_BUFFER_SIZE,
        graceful_shutdown_timeout: duration_from_secs(DEFAULT_GRACEFUL_SHUTDOWN_SECS),
        dependency_timeout: duration_from_secs(DEFAULT_DEPENDENCY_TIMEOUT_SECS),
    }
}

/// Builder for configuring a process orchestrator.
#[derive(Debug, Clone, Copy)]
pub struct ProcessOrchestratorBuilder {
    settings: OrchestratorSettings,
}

impl View for ProcessOrchestratorBuilder {
    type V = OrchestratorSettings;

    closed spec fn view(&self) -> OrchestratorSettings {
        self.settings
    }
}

impl Default for ProcessOrchestratorBuilder {
    fn default() -> (builder: Self)
        ensures
            builder@ == default_settings(),
    {
        ProcessOrchestratorBuilder {
            settings: OrchestratorSettings {
                message_buffer_size: DEFAULT_MESSAGE_BUFFER_SIZE,
                graceful_shutdown_timeout: core::time::Duration::from_secs(
                    DEFAULT_GRACEFUL_SHUTDOWN_SECS,
                ),
                dependency_timeout: core::time::Duration::from_secs(DEFAULT_DEPENDENCY_TIMEOUT_SECS),
            },
        }
    }
}

impl ProcessOrchestratorBuilder {
    /// Creates a builder with the default settings.
    pub fn new() -> (builder: Self)
        ensures
            builder@ == default_settings(),
    {
        ProcessOrchestratorBuilder::default()
    }

    /// Sets the size of the async buffer used for inbound child messages.
    pub fn message_buffer_size(self, value: usize) -> (builder: Self)
        ensures
            builder@ == (OrchestratorSettings { message_buffer_size: value, ..self@ }),
    {
        ProcessOrchestratorBuilder {
            settings: OrchestratorSettings { message_buffer_size: value, ..self.settings },
        }
    }

    /// Sets the default timeout used for graceful shutdown operations.
    pub fn graceful_shutdown_timeout(self, value: core::time::Duration) -> (builder: Self)
        ensures
            builder@ == (OrchestratorSettings { graceful_shutdown_timeout: value, ..self@ }),
    {
        ProcessOrchestratorBuilder {
            settings: OrchestratorSettings { graceful_shutdown_timeout: value, ..self.settings },
        }
    }

    /// Sets the default timeout used when waiting for declared dependencies
    /// to be running before a dependent process is spawned.
    pub fn dependency_timeout(self, value: core::time::Duration) -> (builder: Self)
        ensures
            builder@ == (OrchestratorSettings { dependency_timeout: value, ..self@ }),
    {
        ProcessOrchestratorBuilder {
            settings: OrchestratorSettings { dependency_timeout: value, ..self.settings },
        }
    }

    /// Returns the settings configured so far.
    pub fn settings(&self) -> (settings: OrchestratorSettings)
        ensures
            settings == self@,
    {
        self.settings
    }
}

} // verus!
