//! Child process specifications and their dedicated builder API.

use vstd::prelude::*;
use vstd::string::*;

use crate::env::EnvVars;
use crate::protocol::PorkControlCodec;
use crate::types::{
    BootstrapEnvName, HeartbeatInterval, LogFilePath, ManagedChildName, ProcessExecutable,
    duration_from_secs,
};
use crate::{CONTROL_BOOTSTRAP_ENV, DEFAULT_BOOTSTRAP_ENV};

verus! {

/// Default heartbeat interval, in seconds, when status reporting is enabled.
pub const DEFAULT_HEARTBEAT_SECS: u64 = 5;

/// The texts of a list of strings.
pub open spec fn texts_of(strings: Seq<String>) -> Seq<Seq<char>> {
    strings.map_values(|s: String| s@)
}

/// The texts of a list of managed names.
pub open spec fn names_of(names: Seq<ManagedChildName>) -> Seq<Seq<char>> {
    names.map_values(|n: ManagedChildName| n@)
}

/// The texts of a list of string slices.
pub open spec fn str_texts(strs: Seq<&str>) -> Seq<Seq<char>> {
    strs.map_values(|s: &str| s@)
}

/// Mapping over a sequence with one more element adds the image of that element.
pub proof fn lemma_map_values_push<A, B>(s: Seq<A>, x: A, f: spec_fn(A) -> B)
    ensures
        s.push(x).map_values(f) == s.map_values(f).push(f(x)),
{
    assert(s.push(x).map_values(f) =~= s.map_values(f).push(f(x)));
}

/// Output configuration of a specification, as texts.
pub enum ProcessOutputView {
    /// Inherit stdout and stderr from the parent process.
    Inherit,
    /// Pipe the selected streams back to the parent process.
    Capture { stdout: bool, stderr: bool },
    /// Append the streams to the selected log files.
    Log { stdout: Option<Seq<char>>, stderr: Option<Seq<char>> },
}

/// Whether an output configuration captures stdout.
pub open spec fn output_captures_stdout(output: ProcessOutputView) -> bool {
    match output {
        ProcessOutputView::Capture { stdout, .. } => stdout,
        _ => false,
    }
}

/// Whether an output configuration captures stderr.
pub open spec fn output_captures_stderr(output: ProcessOutputView) -> bool {
    match output {
        ProcessOutputView::Capture { stderr, .. } => stderr,
        _ => false,
    }
}

/// The log file an output configuration appends stdout to, if any.
pub open spec fn output_stdout_log(output: ProcessOutputView) -> Option<Seq<char>> {
    match output {
        ProcessOutputView::Log { stdout, .. } => stdout,
        _ => None,
    }
}

/// The log file an output configuration appends stderr to, if any.
pub open spec fn output_stderr_log(output: ProcessOutputView) -> Option<Seq<char>> {
    match output {
        ProcessOutputView::Log { stderr, .. } => stderr,
        _ => None,
    }
}

/// The configuration of a child process, as texts and values.
pub struct ProcessSpecView {
    pub executable: Seq<char>,
    pub managed_name: Option<Seq<char>>,
    pub control_codec: PorkControlCodec,
    pub args: Seq<Seq<char>>,
    pub current_dir: Option<Seq<char>>,
    pub env: Map<Seq<char>, Seq<char>>,
    pub data_bootstrap_env: Seq<char>,
    pub control_bootstrap_env: Seq<char>,
    pub output: ProcessOutputView,
    pub depends_on: Seq<Seq<char>>,
    pub heartbeat_interval: Option<HeartbeatInterval>,
}

/// The configuration a new specification starts with.
pub open spec fn default_spec_view(executable: Seq<char>) -> ProcessSpecView {
    ProcessSpecView {
        executable,
        managed_name: None,
        control_codec: PorkControlCodec::Json,
        args: Seq::empty(),
        current_dir: None,
        env: Map::empty(),
        data_bootstrap_env: DEFAULT_BOOTSTRAP_ENV@,
        control_bootstrap_env: CONTROL_BOOTSTRAP_ENV@,
        output: ProcessOutputView::Inherit,
        depends_on: Seq::empty(),
        heartbeat_interval: None,
    }
}

/// Output configuration for a managed child process.
#[derive(Debug, PartialEq, Eq)]
pub enum ProcessOutput {
    /// Inherit stdout and stderr from the parent process.
    Inherit,
    /// Pipe selected streams back to the parent process.
    Capture {
        /// Whether stdout is captured.
        stdout: bool,
        /// Whether stderr is captured.
        stderr: bool,
    },
    /// Append stdout and stderr to selected log files.
    Log {
        /// Log file for stdout, if configured.
        stdout: Option<LogFilePath>,
        /// Log file for stderr, if configured.
        stderr: Option<LogFilePath>,
    },
}

/// The text of an optional log file.
pub open spec fn log_text(log: Option<LogFilePath>) -> Option<Seq<char>> {
    match log {
        Some(path) => Some(path@),
        None => None,
    }
}

impl View for ProcessOutput {
    type V = ProcessOutputView;

    open spec fn view(&self) -> ProcessOutputView {
        match self {
            ProcessOutput::Inherit => ProcessOutputView::Inherit,
            ProcessOutput::Capture { stdout, stderr } => ProcessOutputView::Capture {
                stdout: *stdout,
                stderr: *stderr,
            },
            ProcessOutput::Log { stdout, stderr } => ProcessOutputView::Log {
                stdout: log_text(*stdout),
                stderr: log_text(*stderr),
            },
        }
    }
}

/// Returns a copy of an optional log file with the same text.
fn copy_log(log: &Option<LogFilePath>) -> (copy: Option<LogFilePath>)
    ensures
        log_text(copy) == log_text(*log),
{
    match log {
        Some(path) => Some(path.duplicate()),
        None => None,
    }
}

impl Clone for ProcessOutput {
    fn clone(&self) -> (copy: Self)
        ensures
            copy@ == self@,
    {
        match self {
            ProcessOutput::Inherit => ProcessOutput::Inherit,
            ProcessOutput::Capture { stdout, stderr } => ProcessOutput::Capture {
                stdout: *stdout,
                stderr: *stderr,
            },
            ProcessOutput::Log { stdout, stderr } => ProcessOutput::Log {
                stdout: copy_log(stdout),
                stderr: copy_log(stderr),
            },
        }
    }
}

impl Default for ProcessOutput {
    fn default() -> (output: Self)
        ensures
            output@ == ProcessOutputView::Inherit,
    {
        ProcessOutput::Inherit
    }
}

/// Returns a copy of a list of strings with the same texts.
pub fn copy_strings(strings: &Vec<String>) -> (copy: Vec<String>)
    ensures
        texts_of(copy@) == texts_of(strings@),
{
    let mut copy: Vec<String> = Vec::new();
    let mut i: usize = 0;
    while i < strings.len()
        invariant
            i <= strings@.len(),
            texts_of(copy@) == texts_of(strings@.take(i as int)),
        decreases strings@.len() - i,
    {
        let ghost prev = copy@;
        copy.push(strings[i].clone());
        proof {
            assert(strings@.take(i + 1) =~= strings@.take(i as int).push(strings@[i as int]));
            lemma_map_values_push(prev, copy@[i as int], |s: String| s@);
            lemma_map_values_push(strings@.take(i as int), strings@[i as int], |s: String| s@);
        }
        i = i + 1;
    }
    assert(strings@.take(strings@.len() as int) =~= strings@);
    copy
}

/// Returns a copy of a list of managed names with the same texts.
pub fn copy_names(names: &Vec<ManagedChildName>) -> (copy: Vec<ManagedChildName>)
    ensures
        names_of(copy@) == names_of(names@),
{
    let mut copy: Vec<ManagedChildName> = Vec::new();
    let mut i: usize = 0;
    while i < names.len()
        invariant
            i <= names@.len(),
            names_of(copy@) == names_of(names@.take(i as int)),
        decreases names@.len() - i,
    {
        let ghost prev = copy@;
        copy.push(names[i].duplicate());
        proof {
            assert(names@.take(i + 1) =~= names@.take(i as int).push(names@[i as int]));
            lemma_map_values_push(prev, copy@[i as int], |n: ManagedChildName| n@);
            lemma_map_values_push(names@.take(i as int), names@[i as int], |n: ManagedChildName| n@);
        }
        i = i + 1;
    }
    assert(names@.take(names@.len() as int) =~= names@);
    copy
}

/// Appends owned copies of string slices to a list of strings.
fn append_strs(strings: &mut Vec<String>, values: &[&str])
    ensures
        texts_of(final(strings)@) == texts_of(old(strings)@) + str_texts(values@),
{
    let ghost start = texts_of(strings@);
    let mut i: usize = 0;
    while i < values.len()
        invariant
            i <= values@.len(),
            texts_of(strings@) == start + str_texts(values@.take(i as int)),
        decreases values@.len() - i,
    {
        let ghost prev = strings@;
        strings.push(values[i].to_owned());
        proof {
            assert(values@.take(i + 1) =~= values@.take(i as int).push(values@[i as int]));
            lemma_map_values_push(prev, strings@[prev.len() as int], |s: String| s@);
            lemma_map_values_push(values@.take(i as int), values@[i as int], |s: &str| s@);
            assert(texts_of(strings@) =~= start + str_texts(values@.take(i + 1)));
        }
        i = i + 1;
    }
    assert(values@.take(values@.len() as int) =~= values@);
}

/// Appends managed names built from string slices to a list of names.
fn append_names(names: &mut Vec<ManagedChildName>, values: &[&str])
    ensures
        names_of(final(names)@) == names_of(old(names)@) + str_texts(values@),
{
    let ghost start = names_of(names@);
    let mut i: usize = 0;
    while i < values.len()
        invariant
            i <= values@.len(),
            names_of(names@) == start + str_texts(values@.take(i as int)),
        decreases values@.len() - i,
    {
        let ghost prev = names@;
        names.push(ManagedChildName::from_text(values[i]));
        proof {
            assert(values@.take(i + 1) =~= values@.take(i as int).push(values@[i as int]));
            lemma_map_values_push(prev, names@[prev.len() as int], |n: ManagedChildName| n@);
            lemma_map_values_push(values@.take(i as int), values@[i as int], |s: &str| s@);
            assert(names_of(names@) =~= start + str_texts(values@.take(i + 1)));
        }
        i = i + 1;
    }
    assert(values@.take(values@.len() as int) =~= values@);
}

/// Configuration used to start and manage a child process.
///
/// `ProcessSpec` is the configuration consumed by the orchestrator when it
/// spawns a managed child. Build it with [`ProcessSpec::builder`] or
/// [`ProcessSpecBuilder::new`].
#[derive(Debug)]
pub struct ProcessSpec {
    executable: ProcessExecutable,
    managed_name: Option<ManagedChildName>,
    control_codec: PorkControlCodec,
    args: Vec<String>,
    current_dir: Option<String>,
    env: EnvVars,
    data_bootstrap_env: BootstrapEnvName,
    control_bootstrap_env: BootstrapEnvName,
    output: ProcessOutput,
    depends_on: Vec<ManagedChildName>,
    heartbeat_interval: Option<HeartbeatInterval>,
}

/// The text of an optional managed name.
pub open spec fn name_text(name: Option<ManagedChildName>) -> Option<Seq<char>> {
    match name {
        Some(n) => Some(n@),
        None => None,
    }
}

/// The text of an optional string.
pub open spec fn opt_text(text: Option<String>) -> Option<Seq<char>> {
    match text {
        Some(t) => Some(t@),
        None => None,
    }
}

impl View for ProcessSpec {
    type V = ProcessSpecView;

    closed spec fn view(&self) -> ProcessSpecView {
        ProcessSpecView {
            executable: self.executable@,
            managed_name: name_text(self.managed_name),
            control_codec: self.control_codec,
            args: texts_of(self.args@),
            current_dir: opt_text(self.current_dir),
            env: self.env@,
            data_bootstrap_env: self.data_bootstrap_env@,
            control_bootstrap_env: self.control_bootstrap_env@,
            output: self.output@,
            depends_on: names_of(self.depends_on@),
            heartbeat_interval: self.heartbeat_interval,
        }
    }
}

/// Returns a copy of an optional managed name with the same text.
fn copy_name(name: &Option<ManagedChildName>) -> (copy: Option<ManagedChildName>)
    ensures
        name_text(copy) == name_text(*name),
{
    match name {
        Some(n) => Some(n.duplicate()),
        None => None,
    }
}

/// Returns a copy of an optional string with the same text.
fn copy_text(text: &Option<String>) -> (copy: Option<String>)
    ensures
        opt_text(copy) == opt_text(*text),
{
    match text {
        Some(t) => Some(t.clone()),
        None => None,
    }
}

impl Clone for ProcessSpec {
    fn clone(&self) -> (copy: Self)
        ensures
            copy@ == self@,
    {
        ProcessSpec {
            executable: self.executable.duplicate(),
            managed_name: copy_name(&self.managed_name),
            control_codec: self.control_codec,
            args: copy_strings(&self.args),
            current_dir: copy_text(&self.current_dir),
            env: self.env.clone(),
            data_bootstrap_env: self.data_bootstrap_env.duplicate(),
            control_bootstrap_env: self.control_bootstrap_env.duplicate(),
            output: self.output.clone(),
            depends_on: copy_names(&self.depends_on),
            heartbeat_interval: self.heartbeat_interval,
        }
    }
}

impl ProcessSpec {
    /// Creates a builder for a new process specification.
    ///
    /// The builder starts with no managed name, the default control codec,
    /// inherited output, the default bootstrap variable names, no
    /// dependencies, and heartbeat reporting disabled.
    pub fn builder(executable: &str) -> (builder: ProcessSpecBuilder)
        ensures
            builder@ == default_spec_view(executable@),
    {
        ProcessSpecBuilder::new(executable)
    }

    /// Creates a process specification with the defaults of [`Self::builder`].
    pub fn new(executable: &str) -> (spec: Self)
        ensures
            spec@ == default_spec_view(executable@),
    {
        let spec = ProcessSpec {
            executable: ProcessExecutable::new(executable),
            managed_name: None,
            control_codec: PorkControlCodec::default(),
            args: Vec::new(),
            current_dir: None,
            env: EnvVars::new(),
            data_bootstrap_env: BootstrapEnvName::from_text(DEFAULT_BOOTSTRAP_ENV),
            control_bootstrap_env: BootstrapEnvName::from_text(CONTROL_BOOTSTRAP_ENV),
            output: ProcessOutput::Inherit,
            depends_on: Vec::new(),
            heartbeat_interval: None,
        };
        assert(texts_of(spec.args@) =~= Seq::<Seq<char>>::empty());
        assert(names_of(spec.depends_on@) =~= Seq::<Seq<char>>::empty());
        spec
    }

    /// Returns the executable path used to spawn the child process.
    pub fn executable(&self) -> (executable: &ProcessExecutable)
        ensures
            executable@ == self@.executable,
    {
        &self.executable
    }

    /// Returns the configured managed name, if one was assigned.
    pub fn managed_name(&self) -> (name: Option<&ManagedChildName>)
        ensures
            name is Some <==> self@.managed_name is Some,
            name matches Some(n) ==> self@.managed_name == Some(n@),
    {
        self.managed_name.as_ref()
    }

    /// Returns the configured managed name as text, if one was assigned.
    pub fn managed_name_ref(&self) -> (name: Option<&str>)
        ensures
            name is Some <==> self@.managed_name is Some,
            name matches Some(n) ==> self@.managed_name == Some(n@),
    {
        match &self.managed_name {
            Some(name) => Some(name.as_str()),
            None => None,
        }
    }

    /// Returns the configured control-message codec.
    pub fn control_codec_ref(&self) -> (codec: PorkControlCodec)
        ensures
            codec == self@.control_codec,
    {
        self.control_codec
    }

    /// Returns the configured command-line arguments.
    pub fn args_ref(&self) -> (args: &[String])
        ensures
            texts_of(args@) == self@.args,
    {
        self.args.as_slice()
    }

    /// Returns the configured working directory, if one was assigned.
    pub fn current_dir_ref(&self) -> (dir: Option<&str>)
        ensures
            dir is Some <==> self@.current_dir is Some,
            dir matches Some(d) ==> self@.current_dir == Some(d@),
    {
        match &self.current_dir {
            Some(dir) => Some(dir.as_str()),
            None => None,
        }
    }

    /// Returns the configured child environment overrides.
    pub fn env_ref(&self) -> (env: &EnvVars)
        ensures
            env@ == self@.env,
    {
        &self.env
    }

    /// Returns the environment variable name used for the data-channel bootstrap handshake.
    pub fn data_bootstrap_env_ref(&self) -> (name: &BootstrapEnvName)
        ensures
            name@ == self@.data_bootstrap_env,
    {
        &self.data_bootstrap_env
    }

    /// Returns the environment variable name used for the control-channel bootstrap handshake.
    pub fn control_bootstrap_env_ref(&self) -> (name: &BootstrapEnvName)
        ensures
            name@ == self@.control_bootstrap_env,
    {
        &self.control_bootstrap_env
    }

    /// Returns the environment variable name used for the data-channel bootstrap
    /// handshake, as text.
    pub fn bootstrap_env_ref(&self) -> (name: &str)
        ensures
            name@ == self@.data_bootstrap_env,
    {
        self.data_bootstrap_env.as_str()
    }

    /// Returns whether stdout capture is enabled.
    pub fn captures_stdout(&self) -> (captured: bool)
        ensures
            captured == output_captures_stdout(self@.output),
    {
        match &self.output {
            ProcessOutput::Capture { stdout, .. } => *stdout,
            _ => false,
        }
    }

    /// Returns whether stderr capture is enabled.
    pub fn captures_stderr(&self) -> (captured: bool)
        ensures
            captured == output_captures_stderr(self@.output),
    {
        match &self.output {
            ProcessOutput::Capture { stderr, .. } => *stderr,
            _ => false,
        }
    }

    /// Returns the append-only logfile configured for stdout, if any.
    pub fn stdout_log_ref(&self) -> (log: Option<&str>)
        ensures
            log is Some <==> output_stdout_log(self@.output) is Some,
            log matches Some(path) ==> output_stdout_log(self@.output) == Some(path@),
    {
        match &self.output {
            ProcessOutput::Log { stdout: Some(path), .. } => Some(path.as_str()),
            _ => None,
        }
    }

    /// Returns the append-only logfile configured for stderr, if any.
    pub fn stderr_log_ref(&self) -> (log: Option<&str>)
        ensures
            log is Some <==> output_stderr_log(self@.output) is Some,
            log matches Some(path) ==> output_stderr_log(self@.output) == Some(path@),
    {
        match &self.output {
            ProcessOutput::Log { stderr: Some(path), .. } => Some(path.as_str()),
            _ => None,
        }
    }

    /// Returns the output configuration.
    pub fn output_ref(&self) -> (output: &ProcessOutput)
        ensures
            output@ == self@.output,
    {
        &self.output
    }

    /// Returns the configured heartbeat interval, if status reporting is enabled.
    pub fn heartbeat_interval_ref(&self) -> (interval: Option<HeartbeatInterval>)
        ensures
            interval == self@.heartbeat_interval,
    {
        self.heartbeat_interval
    }

    /// Returns the managed names this process depends on, in declaration order.
    pub fn dependencies_ref(&self) -> (names: &[ManagedChildName])
        ensures
            names_of(names@) == self@.depends_on,
    {
        self.depends_on.as_slice()
    }

    /// Returns the managed names this process depends on, in declaration order.
    pub fn depends_on_ref(&self) -> (names: &[ManagedChildName])
        ensures
            names_of(names@) == self@.depends_on,
    {
        self.depends_on.as_slice()
    }

    /// Returns the managed dependency list for this process.
    pub fn dependencies(&self) -> (dependencies: ManagedChildDependencies)
        ensures
            dependencies@ == self@.depends_on,
    {
        ManagedChildDependencies(copy_names(&self.depends_on))
    }

    /// Removes any previously assigned managed name.
    pub fn without_managed_name(self) -> (spec: Self)
        ensures
            spec@ == (ProcessSpecView { managed_name: None, ..self@ }),
    {
        let mut spec = self;
        spec.managed_name = None;
        spec
    }

    /// Selects the control-message codec used between host and child.
    pub fn control_codec(self, value: PorkControlCodec) -> (spec: Self)
        ensures
            spec@ == (ProcessSpecView { control_codec: value, ..self@ }),
    {
        let mut spec = self;
        spec.control_codec = value;
        spec
    }

    /// Appends a single command-line argument.
    pub fn arg(self, value: &str) -> (spec: Self)
        ensures
            spec@ == (ProcessSpecView { args: self@.args.push(value@), ..self@ }),
    {
        let mut spec = self;
        let ghost prev = spec.args@;
        spec.args.push(value.to_owned());
        proof {
            lemma_map_values_push(prev, spec.args@[prev.len() as int], |s: String| s@);
        }
        spec
    }

    /// Appends multiple command-line arguments in order.
    pub fn args(self, values: &[&str]) -> (spec: Self)
        ensures
            spec@ == (ProcessSpecView { args: self@.args + str_texts(values@), ..self@ }),
    {
        let mut spec = self;
        append_strs(&mut spec.args, values);
        spec
    }

    /// Sets the working directory for the child process.
    pub fn current_dir(self, value: &str) -> (spec: Self)
        ensures
            spec@ == (ProcessSpecView { current_dir: Some(value@), ..self@ }),
    {
        let mut spec = self;
        spec.current_dir = Some(value.to_owned());
        spec
    }

    /// Adds or overrides an environment variable for the child process.
    pub fn env(self, key: &str, value: &str) -> (spec: Self)
        ensures
            spec@ == (ProcessSpecView { env: self@.env.insert(key@, value@), ..self@ }),
    {
        let mut spec = self;
        spec.env.insert(key, value);
        spec
    }

    /// Extends the child environment with multiple key-value pairs, in order;
    /// a later pair overrides an earlier one with the same key.
    pub fn envs(self, values: &[(&str, &str)]) -> (spec: Self)
        ensures
            spec@ == (ProcessSpecView { env: env_with_pairs(self@.env, values@), ..self@ }),
            forall|j: int|
                0 <= j < values@.len() && (forall|m: int|
                    j < m < values@.len() ==> values@[m].0@ != values@[j].0@)
                    ==> spec@.env.contains_key(#[trigger] values@[j].0@) && spec@.env[values@[j].0@]
                    == values@[j].1@,
            forall|k: Seq<char>|
                #![trigger spec@.env.contains_key(k)]
                (forall|j: int| 0 <= j < values@.len() ==> values@[j].0@ != k) ==> spec@.env.contains_key(k)
                    == self@.env.contains_key(k) && (self@.env.contains_key(k) ==> spec@.env[k]
                    == self@.env[k]),
    {
        proof {
            law_last_pair_wins(self@.env, values@);
        }
        let mut spec = self;
        let ghost start = spec.env@;
        let mut i: usize = 0;
        while i < values.len()
            invariant
                i <= values@.len(),
                spec.env@ == env_with_pairs(start, values@.take(i as int)),
                spec@ == (ProcessSpecView { env: spec.env@, ..self@ }),
            decreases values@.len() - i,
        {
            let (key, value) = values[i];
            spec.env.insert(key, value);
            proof {
                assert(values@.take(i + 1).drop_last() =~= values@.take(i as int));
            }
            i = i + 1;
        }
        assert(values@.take(values@.len() as int) =~= values@);
        spec
    }

    /// Overrides the environment variable name used for the data-channel bootstrap handshake.
    pub fn bootstrap_env(self, value: &str) -> (spec: Self)
        ensures
            spec@ == (ProcessSpecView { data_bootstrap_env: value@, ..self@ }),
    {
        let mut spec = self;
        spec.data_bootstrap_env = BootstrapEnvName::from_text(value);
        spec
    }

    /// Enables or disables stdout capture, keeping the stderr capture setting
    /// when the output is already captured.
    pub fn capture_stdout(self, value: bool) -> (spec: Self)
        ensures
            spec@ == (ProcessSpecView {
                output: ProcessOutputView::Capture {
                    stdout: value,
                    stderr: output_captures_stderr(self@.output),
                },
                ..self@
            }),
    {
        let mut spec = self;
        let stderr = spec.captures_stderr();
        spec.output = ProcessOutput::Capture { stdout: value, stderr };
        spec
    }

    /// Enables or disables stderr capture, keeping the stdout capture setting
    /// when the output is already captured.
    pub fn capture_stderr(self, value: bool) -> (spec: Self)
        ensures
            spec@ == (ProcessSpecView {
                output: ProcessOutputView::Capture {
                    stdout: output_captures_stdout(self@.output),
                    stderr: value,
                },
                ..self@
            }),
    {
        let mut spec = self;
        let stdout = spec.captures_stdout();
        spec.output = ProcessOutput::Capture { stdout, stderr: value };
        spec
    }

    /// Enables both stdout and stderr capture.
    pub fn capture_output(self) -> (spec: Self)
        ensures
            spec@ == (ProcessSpecView {
                output: ProcessOutputView::Capture { stdout: true, stderr: true },
                ..self@
            }),
    {
        let mut spec = self;
        spec.output = ProcessOutput::Capture { stdout: true, stderr: true };
        spec
    }

    /// Disables both stdout and stderr capture.
    pub fn without_output_capture(self) -> (spec: Self)
        ensures
            spec@ == (ProcessSpecView {
                output: ProcessOutputView::Capture { stdout: false, stderr: false },
                ..self@
            }),
    {
        let mut spec = self;
        spec.output = ProcessOutput::Capture { stdout: false, stderr: false };
        spec
    }

    /// Declares that this process depends on the named process.
    pub fn depends_on(self, name: &str) -> (spec: Self)
        ensures
            spec@ == (ProcessSpecView { depends_on: self@.depends_on.push(name@), ..self@ }),
    {
        let mut spec = self;
        let ghost prev = spec.depends_on@;
        spec.depends_on.push(ManagedChildName::from_text(name));
        proof {
            lemma_map_values_push(
                prev,
                spec.depends_on@[prev.len() as int],
                |n: ManagedChildName| n@,
            );
        }
        spec
    }

    /// Declares that this process depends on all of the given named processes, in order.
    pub fn depends_on_all(self, names: &[&str]) -> (spec: Self)
        ensures
            spec@ == (ProcessSpecView {
                depends_on: self@.depends_on + str_texts(names@),
                ..self@
            }),
    {
        let mut spec = self;
        append_names(&mut spec.depends_on, names);
        spec
    }
}

/// The environment after setting each pair in order.
pub open spec fn env_with_pairs(
    env: Map<Seq<char>, Seq<char>>,
    pairs: Seq<(&str, &str)>,
) -> Map<Seq<char>, Seq<char>>
    decreases pairs.len(),
{
    if pairs.len() == 0 {
        env
    } else {
        env_with_pairs(env, pairs.drop_last()).insert(pairs.last().0@, pairs.last().1@)
    }
}

/// Setting pairs in order: a key that some pair sets takes the value of the
/// last pair that sets it, and a key that no pair sets keeps its earlier value
/// (or stays unset).
pub proof fn law_last_pair_wins(env: Map<Seq<char>, Seq<char>>, pairs: Seq<(&str, &str)>)
    ensures
        forall|j: int|
            0 <= j < pairs.len() && (forall|m: int| j < m < pairs.len() ==> pairs[m].0@ != pairs[j].0@)
                ==> env_with_pairs(env, pairs).contains_key(#[trigger] pairs[j].0@)
                && env_with_pairs(env, pairs)[pairs[j].0@] == pairs[j].1@,
        forall|k: Seq<char>|
            #![trigger env_with_pairs(env, pairs).contains_key(k)]
            #![trigger env_with_pairs(env, pairs)[k]]
            (forall|j: int| 0 <= j < pairs.len() ==> pairs[j].0@ != k) ==> (env_with_pairs(
                env,
                pairs,
            ).contains_key(k) == env.contains_key(k) && (env.contains_key(k) ==> env_with_pairs(
                env,
                pairs,
            )[k] == env[k])),
    decreases pairs.len(),
{
    if pairs.len() == 0 {
        assert(env_with_pairs(env, pairs) == env);
    } else {
        let rest = pairs.drop_last();
        let last = pairs.last();
        law_last_pair_wins(env, rest);
        assert forall|j: int|
            0 <= j < pairs.len() && (forall|m: int| j < m < pairs.len() ==> pairs[m].0@ != pairs[j].0@)
                implies env_with_pairs(env, pairs).contains_key(#[trigger] pairs[j].0@)
                && env_with_pairs(env, pairs)[pairs[j].0@] == pairs[j].1@ by {
            if j < pairs.len() - 1 {
                assert(pairs[pairs.len() - 1].0@ != pairs[j].0@);
                assert(rest[j] == pairs[j]);
                assert forall|m: int| j < m < rest.len() implies rest[m].0@ != rest[j].0@ by {
                    assert(rest[m] == pairs[m]);
                }
                assert(env_with_pairs(env, rest).contains_key(rest[j].0@));
            }
        }
        assert forall|k: Seq<char>|
            #![trigger env_with_pairs(env, pairs).contains_key(k)]
            #![trigger env_with_pairs(env, pairs)[k]]
            (forall|j: int| 0 <= j < pairs.len() ==> pairs[j].0@ != k) implies (env_with_pairs(
                env,
                pairs,
            ).contains_key(k) == env.contains_key(k) && (env.contains_key(k) ==> env_with_pairs(
                env,
                pairs,
            )[k] == env[k])) by {
            assert(pairs[pairs.len() - 1].0@ != k);
            assert forall|j: int| 0 <= j < rest.len() implies rest[j].0@ != k by {
                assert(rest[j] == pairs[j]);
            }
            assert(env_with_pairs(env, rest).contains_key(k) == env.contains_key(k));
            if env.contains_key(k) {
                assert(env_with_pairs(env, rest)[k] == env[k]);
            }
        }
    }
}

/// Managed dependency names required before a child starts.
#[derive(Debug)]
pub struct ManagedChildDependencies(Vec<ManagedChildName>);

impl View for ManagedChildDependencies {
    type V = Seq<Seq<char>>;

    closed spec fn view(&self) -> Seq<Seq<char>> {
        names_of(self.0@)
    }
}

impl ManagedChildDependencies {
    /// Creates an empty dependency list.
    pub fn new() -> (dependencies: Self)
        ensures
            dependencies@ == Seq::<Seq<char>>::empty(),
    {
        let dependencies = ManagedChildDependencies(Vec::new());
        assert(dependencies@ =~= Seq::<Seq<char>>::empty());
        dependencies
    }

    /// Returns the dependencies as a slice.
    pub fn as_slice(&self) -> (names: &[ManagedChildName])
        ensures
            names_of(names@) == self@,
    {
        self.0.as_slice()
    }

    /// Adds one dependency name.
    pub fn push(&mut self, name: ManagedChildName)
        ensures
            final(self)@ == old(self)@.push(name@),
    {
        let ghost prev = self.0@;
        self.0.push(name);
        proof {
            lemma_map_values_push(prev, self.0@[prev.len() as int], |n: ManagedChildName| n@);
        }
    }

    /// Extends the dependency list with more names, in order.
    pub fn extend(&mut self, names: &[&str])
        ensures
            final(self)@ == old(self)@ + str_texts(names@),
    {
        append_names(&mut self.0, names);
    }

    /// Returns `true` when no dependencies are configured.
    pub fn is_empty(&self) -> (empty: bool)
        ensures
            empty == (self@.len() == 0),
    {
        self.0.len() == 0
    }
}

impl Clone for ManagedChildDependencies {
    fn clone(&self) -> (copy: Self)
        ensures
            copy@ == self@,
    {
        ManagedChildDependencies(copy_names(&self.0))
    }
}

impl Default for ManagedChildDependencies {
    fn default() -> (dependencies: Self)
        ensures
            dependencies@ == Seq::<Seq<char>>::empty(),
    {
        ManagedChildDependencies::new()
    }
}

/// Builder for [`ProcessSpec`].
///
/// This keeps the mutating configuration API separate from the immutable process
/// specification consumed by the orchestrator.
#[derive(Debug)]
pub struct ProcessSpecBuilder {
    spec: ProcessSpec,
}

impl View for ProcessSpecBuilder {
    type V = ProcessSpecView;

    closed spec fn view(&self) -> ProcessSpecView {
        self.spec@
    }
}

impl Clone for ProcessSpecBuilder {
    fn clone(&self) -> (copy: Self)
        ensures
            copy@ == self@,
    {
        ProcessSpecBuilder { spec: self.spec.clone() }
    }
}

impl ProcessSpecBuilder {
    /// Creates a new builder for the given executable path.
    pub fn new(executable: &str) -> (builder: Self)
        ensures
            builder@ == default_spec_view(executable@),
    {
        ProcessSpecBuilder { spec: ProcessSpec::new(executable) }
    }

    /// Assigns a stable managed name to the child process.
    pub fn managed_name(self, value: &str) -> (builder: Self)
        ensures
            builder@ == (ProcessSpecView { managed_name: Some(value@), ..self@ }),
    {
        let mut spec = self.spec;
        spec.managed_name = Some(ManagedChildName::from_text(value));
        ProcessSpecBuilder { spec }
    }

    /// Removes any previously assigned managed name.
    pub fn without_managed_name(self) -> (builder: Self)
        ensures
            builder@ == (ProcessSpecView { managed_name: None, ..self@ }),
    {
        ProcessSpecBuilder { spec: self.spec.without_managed_name() }
    }

    /// Selects the control-message codec used between host and child.
    pub fn control_codec(self, value: PorkControlCodec) -> (builder: Self)
        ensures
            builder@ == (ProcessSpecView { control_codec: value, ..self@ }),
    {
        ProcessSpecBuilder { spec: self.spec.control_codec(value) }
    }

    /// Appends a single command-line argument.
    pub fn arg(self, value: &str) -> (builder: Self)
        ensures
            builder@ == (ProcessSpecView { args: self@.args.push(value@), ..self@ }),
    {
        ProcessSpecBuilder { spec: self.spec.arg(value) }
    }

    /// Appends multiple command-line arguments in order.
    pub fn args(self, values: &[&str]) -> (builder: Self)
        ensures
            builder@ == (ProcessSpecView { args: self@.args + str_texts(values@), ..self@ }),
    {
        ProcessSpecBuilder { spec: self.spec.args(values) }
    }

    /// Sets the working directory for the child process.
    pub fn current_dir(self, value: &str) -> (builder: Self)
        ensures
            builder@ == (ProcessSpecView { current_dir: Some(value@), ..self@ }),
    {
        ProcessSpecBuilder { spec: self.spec.current_dir(value) }
    }

    /// Adds or overrides an environment variable for the child process.
    pub fn env(self, key: &str, value: &str) -> (builder: Self)
        ensures
            builder@ == (ProcessSpecView { env: self@.env.insert(key@, value@), ..self@ }),
    {
        ProcessSpecBuilder { spec: self.spec.env(key, value) }
    }

    /// Extends the child environment with multiple key-value pairs, in order.
    pub fn envs(self, values: &[(&str, &str)]) -> (builder: Self)
        ensures
            builder@ == (ProcessSpecView { env: env_with_pairs(self@.env, values@), ..self@ }),
            forall|j: int|
                0 <= j < values@.len() && (forall|m: int|
                    j < m < values@.len() ==> values@[m].0@ != values@[j].0@)
                    ==> builder@.env.contains_key(#[trigger] values@[j].0@) && builder@.env[values@[j].0@]
                    == values@[j].1@,
            forall|k: Seq<char>|
                #![trigger builder@.env.contains_key(k)]
                (forall|j: int| 0 <= j < values@.len() ==> values@[j].0@ != k) ==> builder@.env.contains_key(k)
                    == self@.env.contains_key(k) && (self@.env.contains_key(k) ==> builder@.env[k]
                    == self@.env[k]),
    {
        proof {
            law_last_pair_wins(self@.env, values@);
        }
        ProcessSpecBuilder { spec: self.spec.envs(values) }
    }

    /// Overrides the environment variable name used for the data-channel bootstrap handshake.
    pub fn data_bootstrap_env(self, value: &str) -> (builder: Self)
        ensures
            builder@ == (ProcessSpecView { data_bootstrap_env: value@, ..self@ }),
    {
        ProcessSpecBuilder { spec: self.spec.bootstrap_env(value) }
    }

    /// Overrides the environment variable name used for the control-channel bootstrap handshake.
    pub fn control_bootstrap_env(self, value: &str) -> (builder: Self)
        ensures
            builder@ == (ProcessSpecView { control_bootstrap_env: value@, ..self@ }),
    {
        let mut spec = self.spec;
        spec.control_bootstrap_env = BootstrapEnvName::from_text(value);
        ProcessSpecBuilder { spec }
    }

    /// Enables or disables stdout capture for the child process.
    pub fn capture_stdout(self, value: bool) -> (builder: Self)
        ensures
            builder@ == (ProcessSpecView {
                output: ProcessOutputView::Capture {
                    stdout: value,
                    stderr: output_captures_stderr(self@.output),
                },
                ..self@
            }),
    {
        ProcessSpecBuilder { spec: self.spec.capture_stdout(value) }
    }

    /// Enables or disables stderr capture for the child process.
    pub fn capture_stderr(self, value: bool) -> (builder: Self)
        ensures
            builder@ == (ProcessSpecView {
                output: ProcessOutputView::Capture {
                    stdout: output_captures_stdout(self@.output),
                    stderr: value,
                },
                ..self@
            }),
    {
        ProcessSpecBuilder { spec: self.spec.capture_stderr(value) }
    }

    /// Enables both stdout and stderr capture.
    pub fn capture_output(self) -> (builder: Self)
        ensures
            builder@ == (ProcessSpecView {
                output: ProcessOutputView::Capture { stdout: true, stderr: true },
                ..self@
            }),
    {
        ProcessSpecBuilder { spec: self.spec.capture_output() }
    }

    /// Restores inherited stdout and stderr instead of capturing or logging them.
    pub fn inherit_output(self) -> (builder: Self)
        ensures
            builder@ == (ProcessSpecView { output: ProcessOutputView::Inherit, ..self@ }),
    {
        let mut spec = self.spec;
        spec.output = ProcessOutput::Inherit;
        ProcessSpecBuilder { spec }
    }

    /// Appends stdout to a logfile that can be inspected while the child is running,
    /// keeping the stderr logfile when output is already logged.
    pub fn log_stdout(self, path: &str) -> (builder: Self)
        ensures
            builder@ == (ProcessSpecView {
                output: ProcessOutputView::Log {
                    stdout: Some(path@),
                    stderr: output_stderr_log(self@.output),
                },
                ..self@
            }),
    {
        let mut spec = self.spec;
        let stderr = match &spec.output {
            ProcessOutput::Log { stderr, .. } => copy_log(stderr),
            _ => None,
        };
        spec.output = ProcessOutput::Log { stdout: Some(LogFilePath::new(path)), stderr };
        ProcessSpecBuilder { spec }
    }

    /// Appends stderr to a logfile that can be inspected while the child is running,
    /// keeping the stdout logfile when output is already logged.
    pub fn log_stderr(self, path: &str) -> (builder: Self)
        ensures
            builder@ == (ProcessSpecView {
                output: ProcessOutputView::Log {
                    stdout: output_stdout_log(self@.output),
                    stderr: Some(path@),
                },
                ..self@
            }),
    {
        let mut spec = self.spec;
        let stdout = match &spec.output {
            ProcessOutput::Log { stdout, .. } => copy_log(stdout),
            _ => None,
        };
        spec.output = ProcessOutput::Log { stdout, stderr: Some(LogFilePath::new(path)) };
        ProcessSpecBuilder { spec }
    }

    /// Appends both stdout and stderr to one logfile.
    pub fn log_output(self, path: &str) -> (builder: Self)
        ensures
            builder@ == (ProcessSpecView {
                output: ProcessOutputView::Log { stdout: Some(path@), stderr: Some(path@) },
                ..self@
            }),
    {
        let mut spec = self.spec;
        let log = LogFilePath::new(path);
        spec.output = ProcessOutput::Log { stdout: Some(log.duplicate()), stderr: Some(log) };
        ProcessSpecBuilder { spec }
    }

    /// Declares that this process depends on the named process.
    pub fn depends_on(self, name: &str) -> (builder: Self)
        ensures
            builder@ == (ProcessSpecView { depends_on: self@.depends_on.push(name@), ..self@ }),
    {
        ProcessSpecBuilder { spec: self.spec.depends_on(name) }
    }

    /// Declares that this process depends on all of the given named processes, in order.
    pub fn depends_on_all(self, names: &[&str]) -> (builder: Self)
        ensures
            builder@ == (ProcessSpecView {
                depends_on: self@.depends_on + str_texts(names@),
                ..self@
            }),
    {
        ProcessSpecBuilder { spec: self.spec.depends_on_all(names) }
    }

    /// Enables automatic heartbeat-based status reporting with a custom interval.
    pub fn enable_heartbeat(self, interval: core::time::Duration) -> (builder: Self)
        ensures
            builder@ == (ProcessSpecView {
                heartbeat_interval: Some(HeartbeatInterval(interval)),
                ..self@
            }),
    {
        let mut spec = self.spec;
        spec.heartbeat_interval = Some(HeartbeatInterval::new(interval));
        ProcessSpecBuilder { spec }
    }

    /// Enables automatic heartbeat-based status reporting with the default
    /// 5-second interval.
    pub fn with_heartbeat(self) -> (builder: Self)
        ensures
            builder@ == (ProcessSpecView {
                heartbeat_interval: Some(HeartbeatInterval(duration_from_secs(DEFAULT_HEARTBEAT_SECS))),
                ..self@
            }),
    {
        let mut spec = self.spec;
        spec.heartbeat_interval = Some(
            HeartbeatInterval::new(core::time::Duration::from_secs(DEFAULT_HEARTBEAT_SECS)),
        );
        ProcessSpecBuilder { spec }
    }

    /// Disables automatic heartbeat-based status reporting.
    pub fn without_heartbeat(self) -> (builder: Self)
        ensures
            builder@ == (ProcessSpecView { heartbeat_interval: None, ..self@ }),
    {
        let mut spec = self.spec;
        spec.heartbeat_interval = None;
        ProcessSpecBuilder { spec }
    }

    /// Finalizes the builder and returns the process specification.
    pub fn build(self) -> (spec: ProcessSpec)
        ensures
            spec@ == self@,
    {
        self.spec
    }
}

impl From<ProcessSpecBuilder> for ProcessSpec {
    fn from(value: ProcessSpecBuilder) -> (spec: Self)
        ensures
            spec@ == value@,
    {
        value.build()
    }
}

impl vstd::std_specs::convert::FromSpecImpl<ProcessSpecBuilder> for ProcessSpec {
    open spec fn obeys_from_spec() -> bool {
        false
    }

    closed spec fn from_spec(value: ProcessSpecBuilder) -> Self {
        arbitrary()
    }
}

} // verus!
