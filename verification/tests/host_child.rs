use pork::child::bootstrap::{ChildBootstrap, child_control_codec_from_env_value};
use pork::child::status_reporter::{current_time_ms, timestamp_from_elapsed_millis};
use pork::error::OrchestratorError;
use pork::host::{BootstrapEnv, HostBootstrap};
use pork::protocol::PorkControlCodec;
use pork::types::BootstrapEnvName;
use pork::{CONTROL_BOOTSTRAP_ENV, DEFAULT_BOOTSTRAP_ENV};

#[test]
fn child_bootstrap_new_creates_instance() {
    let bootstrap = ChildBootstrap::new("TEST_DATA_ENV", "TEST_CONTROL_ENV");
    assert_eq!(
        bootstrap.data_env_name(),
        &BootstrapEnvName::from("TEST_DATA_ENV")
    );
    assert_eq!(
        bootstrap.control_env_name(),
        &BootstrapEnvName::from("TEST_CONTROL_ENV")
    );
}

#[test]
fn child_bootstrap_from_env_with_missing_data_var() {
    let result = ChildBootstrap::from_env_values(
        "NONEXISTENT_DATA_VAR_12345",
        "NONEXISTENT_CONTROL_VAR_12345",
        None,
        None,
    );
    assert!(result.is_err(), "Expected error when env vars missing");
}

#[test]
fn child_bootstrap_needs_both_bootstrap_values() {
    assert!(matches!(
        ChildBootstrap::from_env_values("D", "C", Some("data"), None),
        Err(OrchestratorError::MissingBootstrapValue)
    ));
    assert!(matches!(
        ChildBootstrap::from_env_values("D", "C", None, Some("control")),
        Err(OrchestratorError::MissingBootstrapValue)
    ));
    let bootstrap = match ChildBootstrap::from_env_values(
        DEFAULT_BOOTSTRAP_ENV,
        CONTROL_BOOTSTRAP_ENV,
        Some("data"),
        Some("control"),
    ) {
        Ok(bootstrap) => bootstrap,
        Err(error) => panic!("both values are set: {error:?}"),
    };
    assert_eq!(bootstrap.data_env_name().as_str(), "PORK_IPC_BOOTSTRAP");
    assert_eq!(bootstrap.control_env_name().as_str(), "PORK_CONTROL_BOOTSTRAP");
}

#[test]
fn child_codec_must_be_set_and_known() {
    assert!(matches!(
        child_control_codec_from_env_value(None),
        Err(OrchestratorError::MissingControlCodec)
    ));
    assert!(matches!(
        child_control_codec_from_env_value(Some("xml")),
        Err(OrchestratorError::UnsupportedControlCodec(ref value)) if value == "xml"
    ));
    assert!(matches!(
        child_control_codec_from_env_value(Some("postcard")),
        Ok(PorkControlCodec::Postcard)
    ));
}

#[test]
fn connection_target_takes_both_server_names_and_the_codec() {
    let bootstrap = ChildBootstrap::new("D", "C");
    let target = match bootstrap.connection_target(Some("data-srv"), Some("ctl-srv"), Some("json")) {
        Ok(target) => target,
        Err(error) => panic!("everything is set: {error:?}"),
    };
    assert_eq!(target.data_server_name, "data-srv");
    assert_eq!(target.control_server_name, "ctl-srv");
    assert_eq!(target.control_codec, PorkControlCodec::Json);

    assert!(matches!(
        bootstrap.connection_target(None, Some("ctl-srv"), Some("json")),
        Err(OrchestratorError::MissingBootstrapValue)
    ));
    assert!(matches!(
        bootstrap.connection_target(Some("data-srv"), None, None),
        Err(OrchestratorError::MissingBootstrapValue)
    ));
    assert!(matches!(
        bootstrap.connection_target(Some("data-srv"), Some("ctl-srv"), None),
        Err(OrchestratorError::MissingControlCodec)
    ));
    assert!(matches!(
        bootstrap.connection_target(Some("data-srv"), Some("ctl-srv"), Some("bson")),
        Err(OrchestratorError::UnsupportedControlCodec(ref value)) if value == "bson"
    ));
}

#[test]
fn current_time_ms_returns_positive_value() {
    let t = current_time_ms();
    assert!(
        t > 0,
        "timestamp should be a positive number of milliseconds"
    );
}

#[test]
fn timestamp_truncates_to_64_bits_and_defaults_to_zero() {
    assert_eq!(timestamp_from_elapsed_millis(Some(1_700_000_000_123)), 1_700_000_000_123);
    assert_eq!(timestamp_from_elapsed_millis(Some((1u128 << 64) + 5)), 5);
    assert_eq!(timestamp_from_elapsed_millis(None), 0);
}

#[test]
fn host_bootstrap_new_creates_instance() {
    let _bootstrap = HostBootstrap::new();
    let _bootstrap2 = HostBootstrap::default();
}

#[test]
fn bootstrap_env_stores_server_names() {
    let env = BootstrapEnv {
        data_server_name: "data_server_test".to_string(),
        control_server_name: "control_server_test".to_string(),
    };

    assert_eq!(env.data_server_name, "data_server_test");
    assert_eq!(env.control_server_name, "control_server_test");
}

#[test]
fn bootstrap_env_can_be_cloned() {
    let env = BootstrapEnv {
        data_server_name: "data".to_string(),
        control_server_name: "control".to_string(),
    };
    let env_cloned = env.clone();
    assert_eq!(env.data_server_name, env_cloned.data_server_name);
}

#[test]
fn bootstrap_env_debug_format() {
    let env = BootstrapEnv {
        data_server_name: "data".to_string(),
        control_server_name: "control".to_string(),
    };
    let debug_str = format!("{:?}", env);
    assert!(debug_str.contains("data"));
    assert!(debug_str.contains("control"));
}

#[test]
fn bootstrap_env_pairs_name_data_then_control() {
    let env = BootstrapEnv {
        data_server_name: "test_data_server".to_string(),
        control_server_name: "test_control_server".to_string(),
    };
    let pairs = env.env_pairs(DEFAULT_BOOTSTRAP_ENV, CONTROL_BOOTSTRAP_ENV);
    assert_eq!(
        pairs,
        vec![
            ("PORK_IPC_BOOTSTRAP".to_string(), "test_data_server".to_string()),
            ("PORK_CONTROL_BOOTSTRAP".to_string(), "test_control_server".to_string()),
        ]
    );
}
