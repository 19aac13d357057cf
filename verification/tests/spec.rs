use std::time::Duration;

use pork::orchestrator::managed_child::ManagedChildIdentity;
use pork::protocol::PorkControlCodec;
use pork::spec::{ManagedChildDependencies, ProcessOutput, ProcessSpec, ProcessSpecBuilder};
use pork::types::{
    BootstrapEnvName, ControlPayload, DataPayload, HeartbeatInterval, LogFilePath,
    ManagedChildName, ProcessExecutable, ProcessId,
};
use pork::{CONTROL_BOOTSTRAP_ENV, DEFAULT_BOOTSTRAP_ENV};

#[test]
fn managed_child_identity_accessors_are_predictable() {
    let worker_name = ManagedChildName::from("worker-a");
    let named = ManagedChildIdentity {
        process_id: ProcessId::new(7),
        managed_name: Some(&worker_name),
    };
    assert_eq!(named.process_id(), ProcessId::new(7));
    assert_eq!(
        named.managed_name().map(ManagedChildName::as_str),
        Some("worker-a")
    );
    assert!(named.has_name());

    let unnamed = ManagedChildIdentity {
        process_id: ProcessId::new(8),
        managed_name: None,
    };
    assert_eq!(unnamed.process_id(), ProcessId::new(8));
    assert_eq!(unnamed.managed_name(), None);
    assert!(!unnamed.has_name());
}

#[test]
fn process_spec_exposes_configured_fields_through_accessors() {
    let spec = ProcessSpec::builder("/usr/bin/example-child")
        .managed_name("worker-a")
        .control_codec(PorkControlCodec::Postcard)
        .args(&["--serve", "--foreground"])
        .current_dir("/tmp")
        .env("PORK_MODE", "test")
        .envs(&[("PORK_REGION", "local"), ("PORK_LOG_LEVEL", "debug")])
        .data_bootstrap_env("CUSTOM_DATA_BOOTSTRAP_ENV")
        .control_bootstrap_env("CUSTOM_CONTROL_BOOTSTRAP_ENV")
        .capture_stdout(true)
        .capture_stderr(true)
        .depends_on("upstream-service")
        .depends_on_all(&["database", "cache"])
        .build();

    assert_eq!(spec.executable().as_str(), "/usr/bin/example-child");
    assert_eq!(
        spec.managed_name().map(ManagedChildName::as_str),
        Some("worker-a")
    );
    assert_eq!(spec.control_codec_ref(), PorkControlCodec::Postcard);
    assert_eq!(spec.args_ref(), ["--serve", "--foreground"]);
    assert_eq!(spec.current_dir_ref(), Some("/tmp"));
    assert_eq!(
        spec.env_ref().get("PORK_MODE").map(String::as_str),
        Some("test")
    );
    assert_eq!(
        spec.env_ref().get("PORK_REGION").map(String::as_str),
        Some("local")
    );
    assert_eq!(
        spec.env_ref().get("PORK_LOG_LEVEL").map(String::as_str),
        Some("debug")
    );
    assert_eq!(
        spec.data_bootstrap_env_ref(),
        &BootstrapEnvName::from("CUSTOM_DATA_BOOTSTRAP_ENV")
    );
    assert_eq!(
        spec.control_bootstrap_env_ref(),
        &BootstrapEnvName::from("CUSTOM_CONTROL_BOOTSTRAP_ENV")
    );
    assert!(spec.captures_stdout());
    assert!(spec.captures_stderr());
    assert_eq!(
        spec.dependencies_ref(),
        [
            ManagedChildName::from("upstream-service"),
            ManagedChildName::from("database"),
            ManagedChildName::from("cache"),
        ]
    );
}

#[test]
fn process_spec_defaults_are_predictable_and_documented() {
    let spec = ProcessSpec::builder("child-binary").build();

    assert_eq!(spec.executable().as_str(), "child-binary");
    assert_eq!(spec.managed_name().map(ManagedChildName::as_str), None);
    assert_eq!(spec.control_codec_ref(), PorkControlCodec::Json);
    assert!(spec.args_ref().is_empty());
    assert!(spec.current_dir_ref().is_none());
    assert!(spec.env_ref().is_empty());
    assert_eq!(
        spec.data_bootstrap_env_ref(),
        &BootstrapEnvName::from(DEFAULT_BOOTSTRAP_ENV)
    );
    assert_eq!(
        spec.control_bootstrap_env_ref(),
        &BootstrapEnvName::from(CONTROL_BOOTSTRAP_ENV)
    );
    assert!(!spec.captures_stdout());
    assert!(!spec.captures_stderr());
    assert!(spec.stdout_log_ref().is_none());
    assert!(spec.stderr_log_ref().is_none());
    assert!(spec.dependencies_ref().is_empty());
}

#[test]
fn process_spec_output_capture_helpers_toggle_both_streams() {
    let captured = ProcessSpec::builder("child-binary")
        .capture_output()
        .build();
    assert!(captured.captures_stdout());
    assert!(captured.captures_stderr());

    let uncaptured = ProcessSpec::builder("child-binary")
        .inherit_output()
        .build();
    assert!(!uncaptured.captures_stdout());
    assert!(!uncaptured.captures_stderr());
}

#[test]
fn process_spec_log_output_uses_one_append_target_for_both_streams() {
    let logged = ProcessSpec::builder("child-binary")
        .capture_output()
        .log_output("/tmp/pork-child.log")
        .build();

    assert!(!logged.captures_stdout());
    assert!(!logged.captures_stderr());
    assert_eq!(logged.stdout_log_ref(), Some("/tmp/pork-child.log"));
    assert_eq!(logged.stderr_log_ref(), Some("/tmp/pork-child.log"));

    let inherited = ProcessSpec::builder("child-binary")
        .inherit_output()
        .build();
    assert!(inherited.stdout_log_ref().is_none());
    assert!(inherited.stderr_log_ref().is_none());
}

#[test]
fn process_spec_without_managed_name_clears_previous_value() {
    let spec = ProcessSpec::builder("child-binary")
        .managed_name("temporary-name")
        .without_managed_name()
        .build();

    assert_eq!(spec.managed_name().map(ManagedChildName::as_str), None);
}

#[test]
fn process_spec_depends_on_all_and_accessor() {
    let spec = ProcessSpec::builder("child-binary")
        .depends_on("alpha")
        .depends_on_all(&["beta", "gamma"])
        .build();

    assert_eq!(
        spec.dependencies_ref(),
        [
            ManagedChildName::from("alpha"),
            ManagedChildName::from("beta"),
            ManagedChildName::from("gamma"),
        ]
    );
}

#[test]
fn process_spec_depends_on_defaults_to_empty() {
    let spec = ProcessSpec::builder("child-binary").build();
    assert!(spec.dependencies_ref().is_empty());
}

#[test]
fn later_environment_value_overrides_earlier_one() {
    let spec = ProcessSpec::builder("child-binary")
        .env("MODE", "first")
        .envs(&[("OTHER", "x"), ("MODE", "second")])
        .build();
    assert_eq!(spec.env_ref().get("MODE").map(String::as_str), Some("second"));
    assert_eq!(spec.env_ref().get("OTHER").map(String::as_str), Some("x"));
    assert_eq!(spec.env_ref().pairs().len(), 2);
    assert_eq!(spec.env_ref().get("MISSING"), None);
}

#[test]
fn single_stream_logs_leave_the_other_stream_alone() {
    let spec = ProcessSpec::builder("child-binary")
        .log_stdout("/tmp/out.log")
        .build();
    assert_eq!(spec.stdout_log_ref(), Some("/tmp/out.log"));
    assert_eq!(spec.stderr_log_ref(), None);

    let both = ProcessSpec::builder("child-binary")
        .log_stdout("/tmp/out.log")
        .log_stderr("/tmp/err.log")
        .build();
    assert_eq!(both.stdout_log_ref(), Some("/tmp/out.log"));
    assert_eq!(both.stderr_log_ref(), Some("/tmp/err.log"));
}

#[test]
fn capture_after_log_switches_back_to_capture() {
    let spec = ProcessSpec::builder("child-binary")
        .log_output("/tmp/both.log")
        .capture_stderr(true)
        .build();
    assert!(!spec.captures_stdout());
    assert!(spec.captures_stderr());
    assert_eq!(spec.stdout_log_ref(), None);
    assert_eq!(spec.output_ref(), &ProcessOutput::Capture { stdout: false, stderr: true });
}

#[test]
fn heartbeat_is_off_by_default_and_five_seconds_when_enabled() {
    let off = ProcessSpec::builder("child-binary").build();
    assert_eq!(off.heartbeat_interval_ref(), None);

    let on = ProcessSpec::builder("child-binary").with_heartbeat().build();
    assert_eq!(
        on.heartbeat_interval_ref(),
        Some(HeartbeatInterval::new(Duration::from_secs(5)))
    );

    let custom = ProcessSpec::builder("child-binary")
        .enable_heartbeat(Duration::from_millis(250))
        .build();
    assert_eq!(
        custom.heartbeat_interval_ref().map(HeartbeatInterval::as_duration),
        Some(Duration::from_millis(250))
    );

    let disabled = ProcessSpec::builder("child-binary")
        .with_heartbeat()
        .without_heartbeat()
        .build();
    assert_eq!(disabled.heartbeat_interval_ref(), None);
}

#[test]
fn builder_converts_into_spec() {
    let builder: ProcessSpecBuilder = ProcessSpecBuilder::new("child-binary").arg("--once");
    let spec = ProcessSpec::from(builder);
    assert_eq!(spec.args_ref(), ["--once"]);
}

#[test]
fn consuming_setters_configure_a_spec_directly() {
    let spec = ProcessSpec::new("/bin/child")
        .arg("-v")
        .args(&["a", "b"])
        .current_dir("/srv")
        .env("K", "V")
        .envs(&[("K2", "V2")])
        .bootstrap_env("MY_BOOTSTRAP")
        .control_codec(PorkControlCodec::Postcard)
        .capture_stdout(true)
        .depends_on("db")
        .depends_on_all(&["cache", "queue"]);
    assert_eq!(spec.args_ref(), ["-v", "a", "b"]);
    assert_eq!(spec.current_dir_ref(), Some("/srv"));
    assert_eq!(spec.env_ref().get("K2").map(String::as_str), Some("V2"));
    assert_eq!(spec.bootstrap_env_ref(), "MY_BOOTSTRAP");
    assert_eq!(spec.control_codec_ref(), PorkControlCodec::Postcard);
    assert!(spec.captures_stdout());
    assert!(!spec.captures_stderr());
    assert_eq!(
        spec.depends_on_ref(),
        [
            ManagedChildName::from("db"),
            ManagedChildName::from("cache"),
            ManagedChildName::from("queue"),
        ]
    );

    let quiet = spec.capture_output().without_output_capture().without_managed_name();
    assert!(!quiet.captures_stdout());
    assert!(!quiet.captures_stderr());
    assert_eq!(quiet.managed_name_ref(), None);
}

#[test]
fn dependency_list_keeps_declaration_order() {
    let mut dependencies = ManagedChildDependencies::new();
    assert!(dependencies.is_empty());
    dependencies.push(ManagedChildName::from("a"));
    dependencies.extend(&["b", "c"]);
    assert!(!dependencies.is_empty());
    assert_eq!(
        dependencies.as_slice(),
        [
            ManagedChildName::from("a"),
            ManagedChildName::from("b"),
            ManagedChildName::from("c"),
        ]
    );
    let spec = ProcessSpec::builder("x").depends_on_all(&["a", "b"]).build();
    assert_eq!(spec.dependencies().as_slice(), spec.dependencies_ref());
}

#[test]
fn typed_values_round_trip_their_contents() {
    assert_eq!(ProcessId::new(9).get(), 9);
    assert_eq!(u64::from(ProcessId::from(11)), 11);
    assert_eq!(ManagedChildName::new(String::from("n")).as_str(), "n");
    assert_eq!(DataPayload::from("hi").as_slice(), b"hi");
    assert_eq!(DataPayload::new(vec![1, 2]).into_inner(), vec![1, 2]);
    assert_eq!(ControlPayload::from(vec![3]).as_slice(), [3]);
    assert_eq!(Vec::<u8>::from(ControlPayload::from("c")), b"c".to_vec());
    assert_eq!(BootstrapEnvName::from_text("ENV").as_str(), "ENV");
    assert_eq!(ProcessExecutable::new("/bin/x").as_str(), "/bin/x");
    assert_eq!(LogFilePath::new("/tmp/l").as_str(), "/tmp/l");
}
