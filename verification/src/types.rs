//! Strongly typed domain values used across the public API.

use vstd::prelude::*;
use vstd::string::*;
use vstd::slice::slice_to_vec;
use vstd::std_specs::cmp::PartialEqSpecImpl;
use vstd::std_specs::convert::FromSpecImpl;

verus! {

/// Stable identifier assigned to a managed child process.
#[derive(Debug, Clone, Copy, PartialEq, Eq, Structural, Hash, PartialOrd, Ord)]
pub struct ProcessId(pub u64);

impl ProcessId {
    /// Creates a process identifier from a raw numeric value.
    pub fn new(value: u64) -> (id: Self)
        ensures
            id.0 == value,
    {
        ProcessId(value)
    }

    /// Returns the raw numeric value.
    pub fn get(self) -> (value: u64)
        ensures
            value == self.0,
    {
        self.0
    }
}

impl From<u64> for ProcessId {
    fn from(value: u64) -> (id: Self) {
        ProcessId(value)
    }
}

impl FromSpecImpl<u64> for ProcessId {
    open spec fn obeys_from_spec() -> bool {
        true
    }

    open spec fn from_spec(value: u64) -> Self {
        ProcessId(value)
    }
}

impl From<ProcessId> for u64 {
    fn from(value: ProcessId) -> (raw: Self) {
        value.0
    }
}

impl FromSpecImpl<ProcessId> for u64 {
    open spec fn obeys_from_spec() -> bool {
        true
    }

    open spec fn from_spec(value: ProcessId) -> Self {
        value.0
    }
}

/// Managed name used to identify a child process inside an orchestrator.
#[derive(Debug, Hash, PartialOrd, Ord)]
pub struct ManagedChildName(String);

impl View for ManagedChildName {
    type V = Seq<char>;

    closed spec fn view(&self) -> Seq<char> {
        self.0@
    }
}

impl Clone for ManagedChildName {
    fn clone(&self) -> (copy: Self)
        ensures
            copy@ == self@,
    {
        ManagedChildName(self.0.clone())
    }
}

impl ManagedChildName {
    /// Creates a managed child name from an owned string.
    pub fn new(value: String) -> (name: Self)
        ensures
            name@ == value@,
    {
        ManagedChildName(value)
    }

    /// Creates a managed child name from a string slice.
    pub fn from_text(value: &str) -> (name: Self)
        ensures
            name@ == value@,
    {
        ManagedChildName(value.to_owned())
    }

    /// Returns the managed name as a string slice.
    pub fn as_str(&self) -> (s: &str)
        ensures
            s@ == self@,
    {
        self.0.as_str()
    }

    /// Returns a copy of this name that has the same text.
    pub fn duplicate(&self) -> (copy: Self)
        ensures
            copy@ == self@,
    {
        ManagedChildName(self.0.clone())
    }
}

impl PartialEq for ManagedChildName {
    fn eq(&self, other: &Self) -> (equal: bool) {
        self.0 == other.0
    }
}

impl Eq for ManagedChildName {

}

impl PartialEqSpecImpl for ManagedChildName {
    open spec fn obeys_eq_spec() -> bool {
        true
    }

    open spec fn eq_spec(&self, other: &Self) -> bool {
        self@ == other@
    }
}

impl From<String> for ManagedChildName {
    fn from(value: String) -> (name: Self) {
        ManagedChildName(value)
    }
}

impl FromSpecImpl<String> for ManagedChildName {
    open spec fn obeys_from_spec() -> bool {
        true
    }

    closed spec fn from_spec(value: String) -> Self {
        ManagedChildName(value)
    }
}

impl<'a> From<&'a str> for ManagedChildName {
    fn from(value: &'a str) -> (name: Self)
        ensures
            name@ == value@,
    {
        ManagedChildName(value.to_owned())
    }
}

impl<'a> FromSpecImpl<&'a str> for ManagedChildName {
    open spec fn obeys_from_spec() -> bool {
        false
    }

    closed spec fn from_spec(value: &'a str) -> Self {
        arbitrary()
    }
}

/// Raw application payload sent over the data channel.
#[derive(Debug, PartialEq, Eq)]
pub struct DataPayload(Vec<u8>);

impl View for DataPayload {
    type V = Seq<u8>;

    closed spec fn view(&self) -> Seq<u8> {
        self.0@
    }
}

impl Clone for DataPayload {
    fn clone(&self) -> (copy: Self)
        ensures
            copy@ == self@,
    {
        DataPayload(slice_to_vec(self.0.as_slice()))
    }
}

impl DataPayload {
    /// Creates a data payload from owned bytes.
    pub fn new(bytes: Vec<u8>) -> (payload: Self)
        ensures
            payload@ == bytes@,
    {
        DataPayload(bytes)
    }

    /// Returns the payload bytes.
    pub fn as_slice(&self) -> (bytes: &[u8])
        ensures
            bytes@ == self@,
    {
        self.0.as_slice()
    }

    /// Converts the payload into its owned bytes.
    pub fn into_inner(self) -> (bytes: Vec<u8>)
        ensures
            bytes@ == self@,
    {
        self.0
    }
}

impl From<Vec<u8>> for DataPayload {
    fn from(value: Vec<u8>) -> (payload: Self) {
        DataPayload(value)
    }
}

impl FromSpecImpl<Vec<u8>> for DataPayload {
    open spec fn obeys_from_spec() -> bool {
        true
    }

    closed spec fn from_spec(value: Vec<u8>) -> Self {
        DataPayload(value)
    }
}

impl<'a> From<&'a [u8]> for DataPayload {
    fn from(value: &'a [u8]) -> (payload: Self)
        ensures
            payload@ == value@,
    {
        DataPayload(slice_to_vec(value))
    }
}

impl<'a> FromSpecImpl<&'a [u8]> for DataPayload {
    open spec fn obeys_from_spec() -> bool {
        false
    }

    closed spec fn from_spec(value: &'a [u8]) -> Self {
        arbitrary()
    }
}

impl<'a> From<&'a str> for DataPayload {
    fn from(value: &'a str) -> (payload: Self)
        ensures
            payload@ == vstd::utf8::encode_utf8(value@),
    {
        DataPayload(slice_to_vec(value.as_bytes()))
    }
}

impl<'a> FromSpecImpl<&'a str> for DataPayload {
    open spec fn obeys_from_spec() -> bool {
        false
    }

    closed spec fn from_spec(value: &'a str) -> Self {
        arbitrary()
    }
}

impl From<String> for DataPayload {
    fn from(value: String) -> (payload: Self)
        ensures
            payload@ == vstd::utf8::encode_utf8(value@),
    {
        DataPayload(slice_to_vec(value.as_str().as_bytes()))
    }
}

impl FromSpecImpl<String> for DataPayload {
    open spec fn obeys_from_spec() -> bool {
        false
    }

    closed spec fn from_spec(value: String) -> Self {
        arbitrary()
    }
}

impl From<DataPayload> for Vec<u8> {
    fn from(value: DataPayload) -> (bytes: Self) {
        value.0
    }
}

impl FromSpecImpl<DataPayload> for Vec<u8> {
    open spec fn obeys_from_spec() -> bool {
        true
    }

    closed spec fn from_spec(value: DataPayload) -> Self {
        value.0
    }
}

/// Raw encoded framework payload sent over the control channel.
#[derive(Debug, PartialEq, Eq)]
pub struct ControlPayload(Vec<u8>);

impl View for ControlPayload {
    type V = Seq<u8>;

    closed spec fn view(&self) -> Seq<u8> {
        self.0@
    }
}

impl Clone for ControlPayload {
    fn clone(&self) -> (copy: Self)
        ensures
            copy@ == self@,
    {
        ControlPayload(slice_to_vec(self.0.as_slice()))
    }
}

impl ControlPayload {
    /// Creates a control payload from owned bytes.
    pub fn new(bytes: Vec<u8>) -> (payload: Self)
        ensures
            payload@ == bytes@,
    {
        ControlPayload(bytes)
    }

    /// Returns the payload bytes.
    pub fn as_slice(&self) -> (bytes: &[u8])
        ensures
            bytes@ == self@,
    {
        self.0.as_slice()
    }

    /// Converts the payload into its owned bytes.
    pub fn into_inner(self) -> (bytes: Vec<u8>)
        ensures
            bytes@ == self@,
    {
        self.0
    }
}

impl From<Vec<u8>> for ControlPayload {
    fn from(value: Vec<u8>) -> (payload: Self) {
        ControlPayload(value)
    }
}

impl FromSpecImpl<Vec<u8>> for ControlPayload {
    open spec fn obeys_from_spec() -> bool {
        true
    }

    closed spec fn from_spec(value: Vec<u8>) -> Self {
        ControlPayload(value)
    }
}

impl<'a> From<&'a [u8]> for ControlPayload {
    fn from(value: &'a [u8]) -> (payload: Self)
        ensures
            payload@ == value@,
    {
        ControlPayload(slice_to_vec(value))
    }
}

impl<'a> FromSpecImpl<&'a [u8]> for ControlPayload {
    open spec fn obeys_from_spec() -> bool {
        false
    }

    closed spec fn from_spec(value: &'a [u8]) -> Self {
        arbitrary()
    }
}

impl<'a> From<&'a str> for ControlPayload {
    fn from(value: &'a str) -> (payload: Self)
        ensures
            payload@ == vstd::utf8::encode_utf8(value@),
    {
        ControlPayload(slice_to_vec(value.as_bytes()))
    }
}

impl<'a> FromSpecImpl<&'a str> for ControlPayload {
    open spec fn obeys_from_spec() -> bool {
        false
    }

    closed spec fn from_spec(value: &'a str) -> Self {
        arbitrary()
    }
}

impl From<ControlPayload> for Vec<u8> {
    fn from(value: ControlPayload) -> (bytes: Self) {
        value.0
    }
}

impl FromSpecImpl<ControlPayload> for Vec<u8> {
    open spec fn obeys_from_spec() -> bool {
        true
    }

    closed spec fn from_spec(value: ControlPayload) -> Self {
        value.0
    }
}

/// Environment variable name used for a bootstrap handshake.
#[derive(Debug, Hash, PartialOrd, Ord)]
pub struct BootstrapEnvName(String);

impl View for BootstrapEnvName {
    type V = Seq<char>;

    closed spec fn view(&self) -> Seq<char> {
        self.0@
    }
}

impl Clone for BootstrapEnvName {
    fn clone(&self) -> (copy: Self)
        ensures
            copy@ == self@,
    {
        BootstrapEnvName(self.0.clone())
    }
}

impl BootstrapEnvName {
    /// Creates a bootstrap environment-variable name from an owned string.
    pub fn new(value: String) -> (name: Self)
        ensures
            name@ == value@,
    {
        BootstrapEnvName(value)
    }

    /// Creates a bootstrap environment-variable name from a string slice.
    pub fn from_text(value: &str) -> (name: Self)
        ensures
            name@ == value@,
    {
        BootstrapEnvName(value.to_owned())
    }

    /// Returns the environment-variable name as a string slice.
    pub fn as_str(&self) -> (s: &str)
        ensures
            s@ == self@,
    {
        self.0.as_str()
    }

    /// Returns a copy of this name that has the same text.
    pub fn duplicate(&self) -> (copy: Self)
        ensures
            copy@ == self@,
    {
        BootstrapEnvName(self.0.clone())
    }
}

impl PartialEq for BootstrapEnvName {
    fn eq(&self, other: &Self) -> (equal: bool) {
        self.0 == other.0
    }
}

impl Eq for BootstrapEnvName {

}

impl PartialEqSpecImpl for BootstrapEnvName {
    open spec fn obeys_eq_spec() -> bool {
        true
    }

    open spec fn eq_spec(&self, other: &Self) -> bool {
        self@ == other@
    }
}

impl From<String> for BootstrapEnvName {
    fn from(value: String) -> (name: Self) {
        BootstrapEnvName(value)
    }
}

impl FromSpecImpl<String> for BootstrapEnvName {
    open spec fn obeys_from_spec() -> bool {
        true
    }

    closed spec fn from_spec(value: String) -> Self {
        BootstrapEnvName(value)
    }
}

impl<'a> From<&'a str> for BootstrapEnvName {
    fn from(value: &'a str) -> (name: Self)
        ensures
            name@ == value@,
    {
        BootstrapEnvName(value.to_owned())
    }
}

impl<'a> FromSpecImpl<&'a str> for BootstrapEnvName {
    open spec fn obeys_from_spec() -> bool {
        false
    }

    closed spec fn from_spec(value: &'a str) -> Self {
        arbitrary()
    }
}

/// Child executable path used by a [`crate::spec::ProcessSpec`].
#[derive(Debug)]
pub struct ProcessExecutable(String);

impl View for ProcessExecutable {
    type V = Seq<char>;

    closed spec fn view(&self) -> Seq<char> {
        self.0@
    }
}

impl Clone for ProcessExecutable {
    fn clone(&self) -> (copy: Self)
        ensures
            copy@ == self@,
    {
        ProcessExecutable(self.0.clone())
    }
}

impl ProcessExecutable {
    /// Creates an executable path from its text.
    pub fn new(path: &str) -> (executable: Self)
        ensures
            executable@ == path@,
    {
        ProcessExecutable(path.to_owned())
    }

    /// Returns the executable path as text.
    pub fn as_str(&self) -> (s: &str)
        ensures
            s@ == self@,
    {
        self.0.as_str()
    }

    /// Returns a copy of this path that has the same text.
    pub fn duplicate(&self) -> (copy: Self)
        ensures
            copy@ == self@,
    {
        ProcessExecutable(self.0.clone())
    }
}

impl PartialEq for ProcessExecutable {
    fn eq(&self, other: &Self) -> (equal: bool) {
        self.0 == other.0
    }
}

impl Eq for ProcessExecutable {

}

impl PartialEqSpecImpl for ProcessExecutable {
    open spec fn obeys_eq_spec() -> bool {
        true
    }

    open spec fn eq_spec(&self, other: &Self) -> bool {
        self@ == other@
    }
}

impl<'a> From<&'a str> for ProcessExecutable {
    fn from(value: &'a str) -> (executable: Self)
        ensures
            executable@ == value@,
    {
        ProcessExecutable(value.to_owned())
    }
}

impl<'a> FromSpecImpl<&'a str> for ProcessExecutable {
    open spec fn obeys_from_spec() -> bool {
        false
    }

    closed spec fn from_spec(value: &'a str) -> Self {
        arbitrary()
    }
}

impl From<String> for ProcessExecutable {
    fn from(value: String) -> (executable: Self) {
        ProcessExecutable(value)
    }
}

impl FromSpecImpl<String> for ProcessExecutable {
    open spec fn obeys_from_spec() -> bool {
        true
    }

    closed spec fn from_spec(value: String) -> Self {
        ProcessExecutable(value)
    }
}

/// Log-file path used for child stdout and stderr capture.
#[derive(Debug)]
pub struct LogFilePath(String);

impl View for LogFilePath {
    type V = Seq<char>;

    closed spec fn view(&self) -> Seq<char> {
        self.0@
    }
}

impl Clone for LogFilePath {
    fn clone(&self) -> (copy: Self)
        ensures
            copy@ == self@,
    {
        LogFilePath(self.0.clone())
    }
}

impl LogFilePath {
    /// Creates a log-file path from its text.
    pub fn new(path: &str) -> (log: Self)
        ensures
            log@ == path@,
    {
        LogFilePath(path.to_owned())
    }

    /// Returns the log-file path as text.
    pub fn as_str(&self) -> (s: &str)
        ensures
            s@ == self@,
    {
        self.0.as_str()
    }

    /// Returns a copy of this path that has the same text.
    pub fn duplicate(&self) -> (copy: Self)
        ensures
            copy@ == self@,
    {
        LogFilePath(self.0.clone())
    }
}

impl PartialEq for LogFilePath {
    fn eq(&self, other: &Self) -> (equal: bool) {
        self.0 == other.0
    }
}

impl Eq for LogFilePath {

}

impl PartialEqSpecImpl for LogFilePath {
    open spec fn obeys_eq_spec() -> bool {
        true
    }

    open spec fn eq_spec(&self, other: &Self) -> bool {
        self@ == other@
    }
}

impl<'a> From<&'a str> for LogFilePath {
    fn from(value: &'a str) -> (log: Self)
        ensures
            log@ == value@,
    {
        LogFilePath(value.to_owned())
    }
}

impl<'a> FromSpecImpl<&'a str> for LogFilePath {
    open spec fn obeys_from_spec() -> bool {
        false
    }

    closed spec fn from_spec(value: &'a str) -> Self {
        arbitrary()
    }
}

/// The duration of a whole number of seconds, as `Duration::from_secs` builds it.
pub uninterp spec fn duration_from_secs(secs: u64) -> core::time::Duration;

/// `Duration::from_secs` builds a duration from a number of seconds; the
/// duration it returns is named by [`duration_from_secs`].
pub assume_specification[ core::time::Duration::from_secs ](secs: u64) -> (duration:
    core::time::Duration)
    ensures
        duration == duration_from_secs(secs),
;

/// The whole number of milliseconds in a duration, as `Duration::as_millis` counts them.
pub uninterp spec fn duration_millis(duration: core::time::Duration) -> u128;

/// `Duration::as_millis` returns the whole number of milliseconds in the
/// duration; that number is named by [`duration_millis`].
pub assume_specification[ core::time::Duration::as_millis ](duration: &core::time::Duration) -> (millis:
    u128)
    ensures
        millis == duration_millis(*duration),
;

/// Typed heartbeat interval used for child status reporting.
#[derive(Debug, Clone, Copy, PartialEq, Eq, PartialOrd, Ord)]
pub struct HeartbeatInterval(pub core::time::Duration);

impl HeartbeatInterval {
    /// Creates a heartbeat interval from a duration.
    pub fn new(duration: core::time::Duration) -> (interval: Self)
        ensures
            interval.0 == duration,
    {
        HeartbeatInterval(duration)
    }

    /// Returns the underlying duration.
    pub fn as_duration(self) -> (duration: core::time::Duration)
        ensures
            duration == self.0,
    {
        self.0
    }
}

impl From<core::time::Duration> for HeartbeatInterval {
    fn from(value: core::time::Duration) -> (interval: Self) {
        HeartbeatInterval(value)
    }
}

impl FromSpecImpl<core::time::Duration> for HeartbeatInterval {
    open spec fn obeys_from_spec() -> bool {
        true
    }

    open spec fn from_spec(value: core::time::Duration) -> Self {
        HeartbeatInterval(value)
    }
}

/// Stable identity of a managed child process.
///
/// This bundles the numeric process id assigned by the orchestrator with the
/// optional managed name configured in [`crate::spec::ProcessSpec`].
#[derive(Debug, Clone, Copy, PartialEq, Eq)]
pub struct ManagedChildIdentity<'a> {
    /// Stable process identifier assigned by the orchestrator.
    pub process_id: ProcessId,
    /// Managed name configured for this child, if any.
    pub managed_name: Option<&'a ManagedChildName>,
}

impl<'a> ManagedChildIdentity<'a> {
    /// Returns the stable process identifier assigned by the orchestrator.
    pub fn process_id(self) -> (id: ProcessId)
        ensures
            id == self.process_id,
    {
        self.process_id
    }

    /// Returns the configured managed name, if one was assigned.
    pub fn managed_name(self) -> (name: Option<&'a ManagedChildName>)
        ensures
            name == self.managed_name,
    {
        self.managed_name
    }

    /// Returns `true` when this child has a managed name.
    pub fn has_name(self) -> (named: bool)
        ensures
            named == self.managed_name.is_some(),
    {
        self.managed_name.is_some()
    }
}

} // verus!
