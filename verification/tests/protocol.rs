use pork::error::OrchestratorError;
use pork::protocol::{
    JsonCodec, PORK_CONTROL_CODEC_ENV, PorkChildStatus, PorkControlCodec, PorkControlMessage,
    PorkIpcMessage, PorkProtoCodecError, PorkStatusUpdate, PostcardCodec,
    control_codec_from_env_value,
};

#[test]
fn pork_ipc_message_control_helpers_expose_control_payload() {
    let message = PorkIpcMessage::<String>::control(PorkControlMessage::GracefulShutdown);

    assert!(message.is_control());
    assert!(!message.is_custom());
    assert_eq!(
        message.as_control(),
        Some(&PorkControlMessage::GracefulShutdown)
    );
    assert_eq!(message.as_custom(), None);
}

#[test]
fn pork_ipc_message_custom_helpers_expose_custom_payload() {
    let message = PorkIpcMessage::custom(String::from("ping"));

    assert!(message.is_custom());
    assert!(!message.is_control());
    assert_eq!(message.as_control(), None);
    assert_eq!(message.as_custom().map(String::as_str), Some("ping"));
    assert_eq!(message.clone().into_custom(), Some(String::from("ping")));
}

#[test]
fn pork_control_codec_env_values_and_display_are_stable() {
    assert_eq!(PorkControlCodec::Json.as_env_value(), "json");
    assert_eq!(PorkControlCodec::Postcard.as_env_value(), "postcard");
    assert_eq!(PorkControlCodec::Json.to_string(), "json");
    assert_eq!(PorkControlCodec::Postcard.to_string(), "postcard");
}

#[test]
fn pork_control_codec_parse_accepts_supported_values() {
    assert_eq!("json".parse(), Ok(PorkControlCodec::Json));
    assert_eq!("postcard".parse(), Ok(PorkControlCodec::Postcard));
}

#[test]
fn pork_control_codec_parse_rejects_unknown_values_with_original_input() {
    let parsed = "xml".parse::<PorkControlCodec>();
    assert!(parsed.is_err());

    let error = match parsed {
        Ok(codec) => panic!("unsupported codec value should fail, got {codec:?}"),
        Err(error) => error,
    };

    assert_eq!(error.value(), "xml");
    assert_eq!(error.to_string(), "unsupported control codec 'xml'");
}

#[test]
fn lifecycle_helpers_match_control_messages() {
    assert!(PorkControlCodec::Json.is_graceful_shutdown(&PorkControlMessage::GracefulShutdown));
    assert!(PorkControlCodec::Postcard.is_graceful_shutdown(&PorkControlMessage::GracefulShutdown));
    assert!(PorkControlCodec::Json.is_restart(&PorkControlMessage::Restart));
    assert!(PorkControlCodec::Postcard.is_restart(&PorkControlMessage::Restart));
}

#[test]
fn available_codecs_match_feature_flags() {
    let available = PorkControlCodec::available();

    assert!(available.contains(&PorkControlCodec::Json));
    assert!(PorkControlCodec::Json.is_available());
    assert!(available.contains(&PorkControlCodec::Postcard));
    assert!(PorkControlCodec::Postcard.is_available());
}

#[test]
fn available_codecs_list_json_first_without_repeats() {
    assert_eq!(
        PorkControlCodec::available(),
        vec![PorkControlCodec::Json, PorkControlCodec::Postcard]
    );
}

#[test]
fn lifecycle_helpers_reject_other_messages() {
    let status = PorkControlMessage::StatusUpdate(PorkStatusUpdate {
        status: PorkChildStatus::Running,
        timestamp_ms: 42,
    });
    assert!(!PorkControlCodec::Json.is_graceful_shutdown(&PorkControlMessage::Restart));
    assert!(!PorkControlCodec::Json.is_graceful_shutdown(&status));
    assert!(!PorkControlCodec::Postcard.is_restart(&PorkControlMessage::GracefulShutdown));
    assert!(!PorkControlCodec::Postcard.is_restart(&status));
}

#[test]
fn codec_text_round_trips_through_parse() {
    for codec in [PorkControlCodec::Json, PorkControlCodec::Postcard] {
        assert_eq!(codec.as_env_value().parse(), Ok(codec));
        assert_eq!(PorkControlCodec::parse_value(&codec.to_string()), Ok(codec));
    }
}

#[test]
fn codec_parse_is_exact() {
    for text in ["JSON", " json", "json ", "", "post card", "postcard2"] {
        let error = PorkControlCodec::parse_value(text).unwrap_err();
        assert_eq!(error.value(), text);
    }
}

#[test]
fn default_codec_is_json() {
    assert_eq!(PorkControlCodec::default(), PorkControlCodec::Json);
}

#[test]
fn codec_environment_variable_name_is_stable() {
    assert_eq!(PORK_CONTROL_CODEC_ENV, "PORK_CONTROL_CODEC");
}

#[test]
fn missing_codec_variable_selects_json() {
    assert_eq!(control_codec_from_env_value(None), Ok(PorkControlCodec::Json));
    assert_eq!(
        control_codec_from_env_value(Some("postcard")),
        Ok(PorkControlCodec::Postcard)
    );
    let error = control_codec_from_env_value(Some("yaml")).unwrap_err();
    assert_eq!(error.value(), "yaml");
}

#[test]
fn control_message_is_taken_out_of_its_envelope() {
    let codec = PorkControlCodec::Json;
    let decoded = codec.control_message_from_envelope(Ok(PorkIpcMessage::control(
        PorkControlMessage::Restart,
    )));
    assert!(matches!(decoded, Ok(PorkControlMessage::Restart)));
    assert!(codec.is_restart_outcome(&decoded));
    assert!(!codec.is_graceful_shutdown_outcome(&decoded));
}

#[test]
fn custom_payload_is_not_a_control_message() {
    let codec = PorkControlCodec::Postcard;
    let decoded =
        codec.control_message_from_envelope(Ok(PorkIpcMessage::custom(b"ping".to_vec())));
    assert!(matches!(decoded, Err(PorkProtoCodecError::UnsupportedCodec)));
    assert!(!codec.is_restart_outcome(&decoded));
    assert!(!codec.is_graceful_shutdown_outcome(&decoded));
}

#[test]
fn decoding_error_is_passed_through() {
    let codec = PorkControlCodec::Postcard;
    let decoded = codec.control_message_from_envelope(Err(PorkProtoCodecError::Postcard(
        String::from("truncated"),
    )));
    assert!(matches!(decoded, Err(PorkProtoCodecError::Postcard(ref text)) if text == "truncated"));
}

#[test]
fn graceful_shutdown_outcome_is_recognised() {
    let codec = PorkControlCodec::Json;
    let decoded = codec.control_message_from_envelope(Ok(PorkIpcMessage::control(
        PorkControlMessage::GracefulShutdown,
    )));
    assert!(codec.is_graceful_shutdown_outcome(&decoded));
}

#[test]
fn codec_errors_convert_into_orchestrator_errors() {
    let error = OrchestratorError::from(PorkProtoCodecError::UnsupportedCodec);
    assert!(matches!(
        error,
        OrchestratorError::ControlCodec(PorkProtoCodecError::UnsupportedCodec)
    ));
}

#[test]
fn codec_marker_types_exist() {
    let _json = JsonCodec;
    let _postcard = PostcardCodec::default();
}
