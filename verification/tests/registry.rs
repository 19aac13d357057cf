use std::time::Duration;

use pork::child::bootstrap::{ChildBootstrap, child_control_codec_from_env_value};
use pork::error::OrchestratorError;
use pork::host::BootstrapEnv;
use pork::orchestrator::launch::{StreamTarget, plan_launch, stderr_target, stdout_target};
use pork::orchestrator::registry::{ProcessRecord, ProcessRegistry};
use pork::orchestrator::{
    DEFAULT_MESSAGE_BUFFER_SIZE, DEPENDENCY_POLL_INTERVAL_MS, ProcessOrchestratorBuilder,
};
use pork::protocol::{PORK_CONTROL_CODEC_ENV, PorkChildStatus, PorkControlCodec, PorkStatusUpdate};
use pork::spec::{ProcessOutput, ProcessSpec};
use pork::types::{LogFilePath, ManagedChildName, ProcessId};

fn named_spec(name: &str) -> ProcessSpec {
    ProcessSpec::builder("child-binary").managed_name(name).build()
}

/// Admits, then tracks, a process started from `spec`.
fn start(registry: &mut ProcessRegistry, spec: ProcessSpec) -> ProcessId {
    let id = match registry.prepare_start(&spec, true) {
        Ok(id) => id,
        Err(error) => panic!("start should be admitted: {error:?}"),
    };
    if let Err(error) = registry.track(ProcessRecord::started(id, spec)) {
        panic!("started process should be tracked: {error:?}");
    }
    id
}

/// Hands out the next process id.
fn handed_out(registry: &mut ProcessRegistry) -> ProcessId {
    match registry.allocate_process_id() {
        Some(id) => id,
        None => panic!("a new registry has ids left"),
    }
}

#[test]
fn ids_start_at_one_and_increase() {
    let mut registry = ProcessRegistry::new();
    assert_eq!(registry.allocate_process_id(), Some(ProcessId::new(1)));
    assert_eq!(registry.allocate_process_id(), Some(ProcessId::new(2)));
}

#[test]
fn child_status_reports_unknown_process() {
    let registry = ProcessRegistry::new();
    let result = registry.child_status(ProcessId::new(42));
    assert!(matches!(
        result,
        Err(OrchestratorError::ProcessNotFound(process_id)) if process_id == ProcessId::new(42)
    ));
}

#[test]
fn child_status_by_name_reports_unknown_process() {
    let registry = ProcessRegistry::new();
    let result = registry.child_status_by_name(&ManagedChildName::from("missing"));
    assert!(matches!(
        result,
        Err(OrchestratorError::ProcessNameNotFound(name)) if name.as_str() == "missing"
    ));
}

#[test]
fn process_id_by_name_returns_not_found_shape_for_unknown_name() {
    let registry = ProcessRegistry::new();
    assert_eq!(
        registry.process_id_by_name(&ManagedChildName::from("missing-process")),
        None
    );
    assert!(matches!(
        registry.process_status_by_name(&ManagedChildName::from("missing-process")),
        Err(OrchestratorError::ProcessNameNotFound(name)) if name.as_str() == "missing-process"
    ));
}

#[test]
fn started_process_is_running_under_its_id_and_name() {
    let mut registry = ProcessRegistry::new();
    let id = start(&mut registry, named_spec("worker"));
    let name = ManagedChildName::from("worker");
    assert_eq!(registry.process_id_by_name(&name), Some(id));
    assert!(registry.has_process_name(&name));
    assert!(matches!(registry.process_status(id), Ok(PorkChildStatus::Running)));
    assert!(matches!(registry.process_status_by_name(&name), Ok(PorkChildStatus::Running)));
    assert!(matches!(registry.child_status(id), Ok(None)));
    assert_eq!(registry.process_ids(), vec![id]);
    assert_eq!(registry.process_names(), vec![name]);
}

#[test]
fn duplicate_name_is_refused() {
    let mut registry = ProcessRegistry::new();
    start(&mut registry, named_spec("worker"));
    let result = registry.prepare_start(&named_spec("worker"), true);
    assert!(matches!(
        result,
        Err(OrchestratorError::DuplicateProcessName(name)) if name.as_str() == "worker"
    ));
}

#[test]
fn graceful_shutdown_request_marks_the_process_stopping() {
    let mut registry = ProcessRegistry::new();
    let id = start(&mut registry, ProcessSpec::builder("child").control_codec(PorkControlCodec::Postcard).build());
    assert!(matches!(registry.shutdown_request_needed(id), Ok(true)));
    assert!(matches!(
        registry.request_lifecycle(id, PorkChildStatus::Stopping),
        Ok(PorkControlCodec::Postcard)
    ));
    assert!(matches!(registry.process_status(id), Ok(PorkChildStatus::Stopping)));
    assert!(matches!(registry.shutdown_request_needed(id), Ok(false)));
}

#[test]
fn finished_process_is_dropped_with_its_name() {
    let mut registry = ProcessRegistry::new();
    let id = start(&mut registry, named_spec("worker"));
    let record = match registry.remove_record(id) {
        Ok(record) => record,
        Err(error) => panic!("tracked process should be removed: {error:?}"),
    };
    assert_eq!(record.status(), PorkChildStatus::Stopped);
    assert_eq!(record.process_id(), id);
    assert_eq!(record.managed_name().map(ManagedChildName::as_str), Some("worker"));
    assert!(matches!(
        registry.process_status(id),
        Err(OrchestratorError::ProcessNotFound(process_id)) if process_id == id
    ));
    assert_eq!(registry.process_id_by_name(&ManagedChildName::from("worker")), None);
    assert!(registry.process_ids().is_empty());
    assert!(matches!(
        registry.remove_record(id),
        Err(OrchestratorError::ProcessNotFound(_))
    ));
}

#[test]
fn orchestrator_restart_keeps_the_name_under_a_new_id() {
    let mut registry = ProcessRegistry::new();
    let name = ManagedChildName::from("restart-test-child");
    let first_id = start(&mut registry, named_spec("restart-test-child"));
    assert_eq!(registry.process_id_by_name(&name), Some(first_id));

    let spec = match registry.spec_of(first_id) {
        Ok(spec) => spec,
        Err(error) => panic!("tracked process should have a spec: {error:?}"),
    };
    assert!(matches!(
        registry.request_lifecycle(first_id, PorkChildStatus::Restarting),
        Ok(PorkControlCodec::Json)
    ));
    assert!(matches!(registry.process_status(first_id), Ok(PorkChildStatus::Restarting)));
    assert!(registry.remove_record(first_id).is_ok());

    let second_id = match registry.prepare_start(&spec, false) {
        Ok(id) => id,
        Err(error) => panic!("restart should be admitted: {error:?}"),
    };
    assert!(registry.track(ProcessRecord::started(second_id, spec)).is_ok());

    assert_ne!(second_id, first_id);
    assert_eq!(registry.process_id_by_name(&name), Some(second_id));
    assert_eq!(registry.process_ids(), vec![second_id]);
}

#[test]
fn child_reports_are_kept_per_process() {
    let mut registry = ProcessRegistry::new();
    let id = start(&mut registry, named_spec("reporter"));
    let update = PorkStatusUpdate { status: PorkChildStatus::Running, timestamp_ms: 1234 };
    assert!(registry.record_child_status(id, update).is_ok());
    assert!(matches!(registry.child_status(id), Ok(Some(u)) if u == update));
    assert!(matches!(
        registry.child_status_by_name(&ManagedChildName::from("reporter")),
        Ok(Some(u)) if u.timestamp_ms == 1234
    ));
    assert!(matches!(
        registry.record_child_status(ProcessId::new(99), update),
        Err(OrchestratorError::ProcessNotFound(_))
    ));
}

#[test]
fn start_process_returns_dependency_not_found_for_unknown_name() {
    let mut registry = ProcessRegistry::new();
    let spec = ProcessSpec::builder("child")
        .managed_name("needs-ghost")
        .depends_on("ghost-process")
        .build();
    let result = registry.prepare_start(&spec, true);
    assert!(
        matches!(result, Err(OrchestratorError::DependencyNotFound(ref name)) if name.as_str() == "ghost-process"),
        "expected DependencyNotFound(\"ghost-process\"), got an unexpected result"
    );
}

#[test]
fn start_process_returns_dependency_cycle_for_self_dependency() {
    let mut registry = ProcessRegistry::new();
    start(&mut registry, named_spec("cycle-a"));
    let spec = ProcessSpec::builder("child")
        .managed_name("cycle-self")
        .depends_on("cycle-self")
        .build();
    let result = registry.prepare_start(&spec, true);
    assert!(
        matches!(result, Err(OrchestratorError::DependencyCycle(ref names))
            if names.iter().map(ManagedChildName::as_str).collect::<Vec<_>>() == ["cycle-self", "cycle-self"]),
        "expected DependencyCycle, got an unexpected result"
    );
}

#[test]
fn cycle_through_a_tracked_dependency_is_found() {
    let mut registry = ProcessRegistry::new();
    // "b" is reserved first, then "a" is started declaring "b" as a dependency.
    let b_id = handed_out(&mut registry);
    assert!(registry.reserve_name(&ManagedChildName::from("b"), b_id).is_ok());
    let a_spec = ProcessSpec::builder("child").managed_name("a").depends_on("b").build();
    let a_id = handed_out(&mut registry);
    assert!(registry.track(ProcessRecord::started(a_id, a_spec)).is_ok());

    let b_spec = ProcessSpec::builder("child").managed_name("b").depends_on("a").build();
    assert!(matches!(
        registry.check_dependency_cycle(&ManagedChildName::from("b"), b_spec.dependencies_ref()),
        Err(OrchestratorError::DependencyCycle(ref names)) if names.len() == 2
    ));
    assert!(registry
        .check_dependency_cycle(&ManagedChildName::from("c"), b_spec.dependencies_ref())
        .is_ok());
}

#[test]
fn start_process_returns_dependency_timeout_when_dep_not_ready_in_time() {
    let mut registry = ProcessRegistry::new();
    let dep = start(&mut registry, named_spec("slow-dep"));
    assert!(registry.request_lifecycle(dep, PorkChildStatus::Stopping).is_ok());

    let spec = ProcessSpec::builder("child")
        .managed_name("waits-for-slow-dep")
        .depends_on("slow-dep")
        .build();
    assert!(registry.prepare_start(&spec, true).is_ok());
    let deps = spec.dependencies_ref();
    assert!(matches!(registry.poll_dependencies(deps, false), Ok(false)));
    assert!(
        matches!(registry.poll_dependencies(deps, true), Err(OrchestratorError::DependencyTimeout(ref names)) if names.len() == 1 && names[0].as_str() == "slow-dep"),
        "expected DependencyTimeout, got an unexpected result"
    );
}

#[test]
fn process_starts_when_dependency_is_already_running() {
    let mut registry = ProcessRegistry::new();
    start(&mut registry, named_spec("dep-provider"));
    let spec = ProcessSpec::builder("child")
        .managed_name("dep-consumer")
        .depends_on("dep-provider")
        .build();
    assert!(registry.prepare_start(&spec, true).is_ok());
    assert!(matches!(registry.poll_dependencies(spec.dependencies_ref(), true), Ok(true)));
    assert!(registry.dependencies_not_ready(spec.dependencies_ref()).is_empty());
}

#[test]
fn reserved_but_not_started_dependency_is_not_ready() {
    let mut registry = ProcessRegistry::new();
    let id = handed_out(&mut registry);
    assert!(registry.reserve_name(&ManagedChildName::from("pending"), id).is_ok());
    let deps = [ManagedChildName::from("pending"), ManagedChildName::from("pending")];
    assert!(registry.check_dependencies_known(&deps).is_ok());
    assert_eq!(registry.dependencies_not_ready(&deps).len(), 2);
    assert!(matches!(
        registry.process_status_by_name(&ManagedChildName::from("pending")),
        Err(OrchestratorError::ProcessNotFound(process_id)) if process_id == id
    ));
}

#[test]
fn failed_start_releases_its_reservation() {
    let mut registry = ProcessRegistry::new();
    let name = ManagedChildName::from("flaky");
    let id = match registry.prepare_start(&named_spec("flaky"), true) {
        Ok(id) => id,
        Err(error) => panic!("start should be admitted: {error:?}"),
    };
    assert_eq!(registry.process_id_by_name(&name), Some(id));
    registry.release_reserved_name(&name);
    assert_eq!(registry.process_id_by_name(&name), None);
    assert!(registry.prepare_start(&named_spec("flaky"), true).is_ok());
}

#[test]
fn release_keeps_the_name_of_a_tracked_process() {
    let mut registry = ProcessRegistry::new();
    let id = start(&mut registry, named_spec("kept"));
    registry.release_reserved_name(&ManagedChildName::from("kept"));
    assert_eq!(registry.process_id_by_name(&ManagedChildName::from("kept")), Some(id));
}

#[test]
fn first_unknown_dependency_is_reported() {
    let mut registry = ProcessRegistry::new();
    start(&mut registry, named_spec("known"));
    let deps = [
        ManagedChildName::from("known"),
        ManagedChildName::from("first-missing"),
        ManagedChildName::from("second-missing"),
    ];
    assert!(matches!(
        registry.check_dependencies_known(&deps),
        Err(OrchestratorError::DependencyNotFound(ref name)) if name.as_str() == "first-missing"
    ));
}

#[test]
fn tracking_a_second_carrier_of_a_name_is_refused() {
    let mut registry = ProcessRegistry::new();
    start(&mut registry, named_spec("only"));
    let other = ProcessRecord::started(handed_out(&mut registry), named_spec("only"));
    assert!(matches!(
        registry.track(other),
        Err(OrchestratorError::DuplicateProcessName(name)) if name.as_str() == "only"
    ));
}

#[test]
fn launch_plan_carries_spec_bootstrap_names_and_codec() {
    let spec = ProcessSpec::builder("/bin/child")
        .args(&["--serve"])
        .current_dir("/srv")
        .env("MODE", "test")
        .control_codec(PorkControlCodec::Postcard)
        .log_stdout("/tmp/out.log")
        .build();
    let bootstrap = BootstrapEnv {
        data_server_name: "data-srv".to_string(),
        control_server_name: "ctl-srv".to_string(),
    };
    let plan = plan_launch(&spec, &bootstrap);
    assert_eq!(plan.executable, "/bin/child");
    assert_eq!(plan.args, vec!["--serve".to_string()]);
    assert_eq!(plan.current_dir.as_deref(), Some("/srv"));
    let env: Vec<(&str, &str)> = plan.env.iter().map(|(k, v)| (k.as_str(), v.as_str())).collect();
    assert_eq!(
        env,
        vec![
            ("MODE", "test"),
            ("PORK_IPC_BOOTSTRAP", "data-srv"),
            ("PORK_CONTROL_BOOTSTRAP", "ctl-srv"),
            ("PORK_CONTROL_CODEC", "postcard"),
        ]
    );
    assert!(matches!(plan.stdout, StreamTarget::AppendLog(ref path) if path == "/tmp/out.log"));
    assert!(matches!(plan.stderr, StreamTarget::Inherit));
}

#[test]
fn output_configuration_selects_stream_targets() {
    let captured = ProcessOutput::Capture { stdout: true, stderr: false };
    assert!(matches!(stdout_target(&captured), StreamTarget::Piped));
    assert!(matches!(stderr_target(&captured), StreamTarget::Inherit));
    let logged = ProcessOutput::Log {
        stdout: None,
        stderr: Some(LogFilePath::new("/tmp/err.log")),
    };
    assert!(matches!(stdout_target(&logged), StreamTarget::Inherit));
    assert!(matches!(stderr_target(&logged), StreamTarget::AppendLog(ref path) if path == "/tmp/err.log"));
    assert!(matches!(stdout_target(&ProcessOutput::Inherit), StreamTarget::Inherit));
}

#[test]
fn orchestrator_builder_defaults_and_setters() {
    let defaults = ProcessOrchestratorBuilder::default().settings();
    assert_eq!(defaults.message_buffer_size, DEFAULT_MESSAGE_BUFFER_SIZE);
    assert_eq!(defaults.message_buffer_size, 1024);
    assert_eq!(defaults.graceful_shutdown_timeout, Duration::from_secs(5));
    assert_eq!(defaults.dependency_timeout, Duration::from_secs(30));
    assert_eq!(DEPENDENCY_POLL_INTERVAL_MS, 50);

    let configured = ProcessOrchestratorBuilder::new()
        .message_buffer_size(16)
        .graceful_shutdown_timeout(Duration::from_secs(2))
        .dependency_timeout(Duration::from_millis(100))
        .settings();
    assert_eq!(configured.message_buffer_size, 16);
    assert_eq!(configured.graceful_shutdown_timeout, Duration::from_secs(2));
    assert_eq!(configured.dependency_timeout, Duration::from_millis(100));
}

/// The value a child sees for `name` when the settings are applied in order.
fn effective_value<'a>(settings: &'a [(String, String)], name: &str) -> Option<&'a str> {
    settings.iter().rev().find(|(key, _)| key == name).map(|(_, value)| value.as_str())
}

#[test]
fn launched_child_agrees_with_host_on_codec_and_servers() {
    let spec = ProcessSpec::builder("/bin/child")
        .control_codec(PorkControlCodec::Postcard)
        .env(PORK_CONTROL_CODEC_ENV, "json")
        .data_bootstrap_env("MY_DATA")
        .control_bootstrap_env("MY_CONTROL")
        .build();
    let bootstrap = BootstrapEnv {
        data_server_name: "data-srv".to_string(),
        control_server_name: "ctl-srv".to_string(),
    };
    let plan = plan_launch(&spec, &bootstrap);

    let codec_value = effective_value(&plan.env, PORK_CONTROL_CODEC_ENV);
    assert_eq!(codec_value, Some("postcard"));
    assert!(matches!(
        child_control_codec_from_env_value(codec_value),
        Ok(PorkControlCodec::Postcard)
    ));

    let child = ChildBootstrap::new("MY_DATA", "MY_CONTROL");
    let target = match child.connection_target(
        effective_value(&plan.env, "MY_DATA"),
        effective_value(&plan.env, "MY_CONTROL"),
        codec_value,
    ) {
        Ok(target) => target,
        Err(error) => panic!("the plan sets every variable: {error:?}"),
    };
    assert_eq!(target.data_server_name, "data-srv");
    assert_eq!(target.control_server_name, "ctl-srv");
    assert_eq!(target.control_codec, PorkControlCodec::Postcard);
}

#[test]
fn one_name_for_both_bootstrap_variables_hides_the_data_server() {
    let spec = ProcessSpec::builder("/bin/child")
        .data_bootstrap_env("SAME")
        .control_bootstrap_env("SAME")
        .build();
    let bootstrap = BootstrapEnv {
        data_server_name: "data-srv".to_string(),
        control_server_name: "ctl-srv".to_string(),
    };
    let plan = plan_launch(&spec, &bootstrap);
    assert_eq!(effective_value(&plan.env, "SAME"), Some("ctl-srv"));
}

#[test]
fn tracking_an_id_never_handed_out_is_refused() {
    let mut registry = ProcessRegistry::new();
    let result = registry.track(ProcessRecord::started(ProcessId::new(1), named_spec("early")));
    assert!(matches!(
        result,
        Err(OrchestratorError::ProcessNotFound(process_id)) if process_id == ProcessId::new(1)
    ));
    assert!(registry.process_ids().is_empty());
    assert_eq!(registry.process_id_by_name(&ManagedChildName::from("early")), None);
}

#[test]
fn admitted_id_is_never_a_tracked_one() {
    let mut registry = ProcessRegistry::new();
    let first = start(&mut registry, named_spec("first"));
    let second = match registry.prepare_start(&named_spec("second"), true) {
        Ok(id) => id,
        Err(error) => panic!("start should be admitted: {error:?}"),
    };
    assert_ne!(second, first);
    assert!(matches!(
        registry.process_status(second),
        Err(OrchestratorError::ProcessNotFound(_))
    ));
}

#[test]
fn restarted_process_never_reuses_its_old_id() {
    let mut registry = ProcessRegistry::new();
    let old_id = start(&mut registry, named_spec("worker"));
    let spec = match registry.spec_of(old_id) {
        Ok(spec) => spec,
        Err(error) => panic!("tracked process should have a spec: {error:?}"),
    };
    assert!(registry.remove_record(old_id).is_ok());
    let new_id = match registry.prepare_start(&spec, false) {
        Ok(id) => id,
        Err(error) => panic!("restart should be admitted: {error:?}"),
    };
    assert_ne!(new_id, old_id);
    assert_eq!(new_id, ProcessId::new(old_id.get() + 1));
}

#[test]
fn dependency_error_keeps_the_reservation() {
    let mut registry = ProcessRegistry::new();
    let spec = ProcessSpec::builder("child")
        .managed_name("needs-ghost")
        .depends_on("ghost-process")
        .build();
    assert!(matches!(
        registry.prepare_start(&spec, true),
        Err(OrchestratorError::DependencyNotFound(_))
    ));
    assert_eq!(
        registry.process_id_by_name(&ManagedChildName::from("needs-ghost")),
        Some(ProcessId::new(1))
    );

    let cyclic = ProcessSpec::builder("child").managed_name("loop").depends_on("loop").build();
    assert!(matches!(
        registry.prepare_start(&cyclic, true),
        Err(OrchestratorError::DependencyCycle(_))
    ));
    assert_eq!(
        registry.process_id_by_name(&ManagedChildName::from("loop")),
        Some(ProcessId::new(2))
    );
    assert!(registry.process_ids().is_empty());
}

#[test]
fn abandoned_start_releases_only_its_own_reservation() {
    let mut registry = ProcessRegistry::new();
    let spec = named_spec("flaky");
    assert!(registry.prepare_start(&spec, true).is_ok());
    registry.abandon_start(&spec, true);
    assert_eq!(registry.process_id_by_name(&ManagedChildName::from("flaky")), None);

    let kept = start(&mut registry, named_spec("kept"));
    registry.abandon_start(&named_spec("kept"), false);
    registry.abandon_start(&named_spec("kept"), true);
    assert_eq!(registry.process_id_by_name(&ManagedChildName::from("kept")), Some(kept));
}
