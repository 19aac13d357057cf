//! Shared protocol models, codec selection and parsing.
//!
//! The control plane between a host and its managed children carries
//! [`PorkControlMessage`] values wrapped in a [`PorkIpcMessage`] envelope. The
//! selected [`PorkControlCodec`] is agreed on through
//! [`PORK_CONTROL_CODEC_ENV`].

use vstd::prelude::*;
use vstd::string::*;
use vstd::std_specs::convert::FromSpecImpl;

verus! {

/// Environment variable used by parent and child processes to agree on the
/// control-message codec.
pub const PORK_CONTROL_CODEC_ENV: &'static str = "PORK_CONTROL_CODEC";

/// Lifecycle status of a managed child process.
#[derive(Debug, Clone, Copy, PartialEq, Eq, Structural, Hash)]
pub enum PorkChildStatus {
    /// The child has been spawned and is still initialising.
    Starting,
    /// The child is running.
    Running,
    /// A graceful shutdown has been requested.
    Stopping,
    /// A restart has been requested.
    Restarting,
    /// The child has exited and was removed from tracking.
    Stopped,
}

/// A status report sent by a child, stamped with the child's own clock.
#[derive(Debug, Clone, Copy, PartialEq, Eq, Structural)]
pub struct PorkStatusUpdate {
    /// The status the child reports.
    pub status: PorkChildStatus,
    /// Milliseconds since the Unix epoch, as measured by the child.
    pub timestamp_ms: u64,
}

/// Host-to-child and child-to-host control-plane messages shared by all
/// Pork-based IPC protocols.
#[derive(Debug, Clone, Copy, PartialEq, Eq, Structural)]
pub enum PorkControlMessage {
    /// Ask the remote process to terminate gracefully.
    GracefulShutdown,
    /// Ask the remote process to terminate so that it can be started again.
    Restart,
    /// A periodic status report from the child.
    StatusUpdate(PorkStatusUpdate),
}

/// Shared wrapper for Pork IPC traffic.
///
/// `Control` is reserved for framework-level coordination between host and
/// child. `Custom` allows applications to embed their own protocol payloads
/// while reusing the shared control plane.
#[derive(Debug, Clone, PartialEq, Eq)]
pub enum PorkIpcMessage<T> {
    /// A framework-defined control message.
    Control(PorkControlMessage),
    /// An application-defined payload.
    Custom(T),
}

impl<T> PorkIpcMessage<T> {
    /// Creates a new framework-level control message wrapper.
    pub fn control(message: PorkControlMessage) -> (envelope: Self)
        ensures
            envelope == PorkIpcMessage::<T>::Control(message),
    {
        PorkIpcMessage::Control(message)
    }

    /// Creates a new application-defined payload wrapper.
    pub fn custom(message: T) -> (envelope: Self)
        ensures
            envelope == PorkIpcMessage::<T>::Custom(message),
    {
        PorkIpcMessage::Custom(message)
    }

    /// Returns the wrapped control message when this is a control envelope.
    pub fn as_control(&self) -> (message: Option<&PorkControlMessage>)
        ensures
            self is Control ==> message == Some(&self->Control_0),
            self is Custom ==> message is None,
    {
        match self {
            PorkIpcMessage::Control(message) => Some(message),
            PorkIpcMessage::Custom(_) => None,
        }
    }

    /// Returns the wrapped custom payload when this is an application envelope.
    pub fn as_custom(&self) -> (payload: Option<&T>)
        ensures
            self is Custom ==> payload == Some(&self->Custom_0),
            self is Control ==> payload is None,
    {
        match self {
            PorkIpcMessage::Control(_) => None,
            PorkIpcMessage::Custom(message) => Some(message),
        }
    }

    /// Returns `true` when this envelope contains a framework control message.
    pub fn is_control(&self) -> (control: bool)
        ensures
            control == self is Control,
    {
        match self {
            PorkIpcMessage::Control(_) => true,
            PorkIpcMessage::Custom(_) => false,
        }
    }

    /// Returns `true` when this envelope contains an application-defined payload.
    pub fn is_custom(&self) -> (custom: bool)
        ensures
            custom == self is Custom,
    {
        match self {
            PorkIpcMessage::Control(_) => false,
            PorkIpcMessage::Custom(_) => true,
        }
    }

    /// Converts the envelope into the wrapped custom payload, if present.
    pub fn into_custom(self) -> (payload: Option<T>)
        ensures
            self is Custom ==> payload == Some(self->Custom_0),
            self is Control ==> payload is None,
    {
        match self {
            PorkIpcMessage::Control(_) => None,
            PorkIpcMessage::Custom(message) => Some(message),
        }
    }
}

#[verifier::external_type_specification]
#[verifier::external_body]
pub struct ExSerdeJsonError(serde_json::Error);

/// Errors returned by the built-in codecs.
#[derive(Debug)]
pub enum PorkProtoCodecError {
    /// JSON encoding or decoding failed.
    Json(serde_json::Error),
    /// Postcard encoding or decoding failed.
    Postcard(String),
    /// The requested codec is unavailable, or the payload shape does not match
    /// the requested control-message operation.
    UnsupportedCodec,
}

impl From<serde_json::Error> for PorkProtoCodecError {
    fn from(value: serde_json::Error) -> (error: Self) {
        PorkProtoCodecError::Json(value)
    }
}

impl FromSpecImpl<serde_json::Error> for PorkProtoCodecError {
    open spec fn obeys_from_spec() -> bool {
        true
    }

    open spec fn from_spec(value: serde_json::Error) -> Self {
        PorkProtoCodecError::Json(value)
    }
}

/// Built-in control-message codec selection shared between host and child.
#[derive(Debug, Clone, Copy, PartialEq, Eq, Structural, Hash)]
pub enum PorkControlCodec {
    /// Encode control messages as JSON.
    Json,
    /// Encode control messages as Postcard.
    Postcard,
}

impl Default for PorkControlCodec {
    fn default() -> (codec: Self)
        ensures
            codec == PorkControlCodec::Json,
    {
        PorkControlCodec::Json
    }
}

/// The canonical environment-variable text of a codec.
pub open spec fn codec_env_value(codec: PorkControlCodec) -> Seq<char> {
    match codec {
        PorkControlCodec::Json => "json"@,
        PorkControlCodec::Postcard => "postcard"@,
    }
}

/// The codec named by a text, if the text names one.
pub open spec fn parsed_codec(text: Seq<char>) -> Option<PorkControlCodec> {
    if text == "json"@ {
        Some(PorkControlCodec::Json)
    } else if text == "postcard"@ {
        Some(PorkControlCodec::Postcard)
    } else {
        None
    }
}

/// The control message carried by a decoded envelope, as the codecs report it.
pub open spec fn control_of_envelope(
    decoded: Result<PorkIpcMessage<Vec<u8>>, PorkProtoCodecError>,
) -> Result<PorkControlMessage, PorkProtoCodecError> {
    match decoded {
        Ok(PorkIpcMessage::Control(message)) => Ok(message),
        Ok(PorkIpcMessage::Custom(_)) => Err(PorkProtoCodecError::UnsupportedCodec),
        Err(error) => Err(error),
    }
}

impl PorkControlCodec {
    /// Returns the canonical environment-variable value for this codec.
    pub fn as_env_value(self) -> (value: &'static str)
        ensures
            value@ == codec_env_value(self),
    {
        match self {
            PorkControlCodec::Json => "json",
            PorkControlCodec::Postcard => "postcard",
        }
    }

    /// Returns the canonical text of this codec, as its display form.
    pub fn to_string(&self) -> (text: String)
        ensures
            text@ == codec_env_value(*self),
    {
        self.as_env_value().to_owned()
    }

    /// Parses a codec from its canonical environment-variable text.
    pub fn parse_value(value: &str) -> (parsed: Result<Self, ParsePorkControlCodecError>)
        ensures
            parsed is Ok <==> parsed_codec(value@) is Some,
            parsed matches Ok(codec) ==> parsed_codec(value@) == Some(codec),
            parsed matches Err(error) ==> error@ == value@,
    {
        let text = value.to_owned();
        if text == "json".to_owned() {
            Ok(PorkControlCodec::Json)
        } else if text == "postcard".to_owned() {
            Ok(PorkControlCodec::Postcard)
        } else {
            Err(ParsePorkControlCodecError { value: text })
        }
    }

    /// Returns `true` when this codec is available in this build.
    ///
    /// Both built-in codecs are always compiled in.
    pub fn is_available(self) -> (available: bool)
        ensures
            available,
    {
        match self {
            PorkControlCodec::Json => true,
            PorkControlCodec::Postcard => true,
        }
    }

    /// Returns all built-in codecs that are available in this build, in
    /// declaration order: JSON, then Postcard.
    pub fn available() -> (codecs: Vec<Self>)
        ensures
            codecs@ == seq![PorkControlCodec::Json, PorkControlCodec::Postcard],
    {
        let candidates = [PorkControlCodec::Json, PorkControlCodec::Postcard];
        let mut codecs: Vec<Self> = Vec::new();
        let mut i: usize = 0;
        while i < 2
            invariant
                i <= 2,
                candidates@ == seq![PorkControlCodec::Json, PorkControlCodec::Postcard],
                codecs@ == candidates@.take(i as int),
            decreases 2 - i,
        {
            let candidate = candidates[i];
            if candidate.is_available() {
                codecs.push(candidate);
            }
            assert(candidates@.take(i + 1) =~= candidates@.take(i as int).push(candidate));
            i = i + 1;
        }
        assert(candidates@.take(2) =~= candidates@);
        codecs
    }

    /// Returns `true` when the given message is a graceful-shutdown control message.
    pub fn is_graceful_shutdown(self, message: &PorkControlMessage) -> (shutdown: bool)
        ensures
            shutdown == (*message is GracefulShutdown),
    {
        match message {
            PorkControlMessage::GracefulShutdown => true,
            _ => false,
        }
    }

    /// Returns `true` when the given message is a restart control message.
    pub fn is_restart(self, message: &PorkControlMessage) -> (restart: bool)
        ensures
            restart == (*message is Restart),
    {
        match message {
            PorkControlMessage::Restart => true,
            _ => false,
        }
    }

    /// Extracts the control message from an envelope that one of the codecs
    /// decoded; an application payload is not a control message.
    pub fn control_message_from_envelope(
        self,
        decoded: Result<PorkIpcMessage<Vec<u8>>, PorkProtoCodecError>,
    ) -> (message: Result<PorkControlMessage, PorkProtoCodecError>)
        ensures
            message == control_of_envelope(decoded),
    {
        match decoded {
            Ok(PorkIpcMessage::Control(control)) => Ok(control),
            Ok(PorkIpcMessage::Custom(_)) => Err(PorkProtoCodecError::UnsupportedCodec),
            Err(error) => Err(error),
        }
    }

    /// Returns `true` when a decoding outcome is a graceful-shutdown control message.
    pub fn is_graceful_shutdown_outcome(
        self,
        decoded: &Result<PorkControlMessage, PorkProtoCodecError>,
    ) -> (shutdown: bool)
        ensures
            shutdown == (decoded matches Ok(m) && m is GracefulShutdown),
    {
        match decoded {
            Ok(message) => self.is_graceful_shutdown(message),
            Err(_) => false,
        }
    }

    /// Returns `true` when a decoding outcome is a restart control message.
    pub fn is_restart_outcome(
        self,
        decoded: &Result<PorkControlMessage, PorkProtoCodecError>,
    ) -> (restart: bool)
        ensures
            restart == (decoded matches Ok(m) && m is Restart),
    {
        match decoded {
            Ok(message) => self.is_restart(message),
            Err(_) => false,
        }
    }
}

/// Error returned when parsing a [`PorkControlCodec`] from a string fails.
#[derive(Debug, PartialEq, Eq)]
pub struct ParsePorkControlCodecError {
    value: String,
}

impl View for ParsePorkControlCodecError {
    type V = Seq<char>;

    closed spec fn view(&self) -> Seq<char> {
        self.value@
    }
}

impl Clone for ParsePorkControlCodecError {
    fn clone(&self) -> (copy: Self)
        ensures
            copy@ == self@,
    {
        ParsePorkControlCodecError { value: self.value.clone() }
    }
}

impl ParsePorkControlCodecError {
    /// Returns the unsupported codec value that failed to parse.
    pub fn value(&self) -> (value: &str)
        ensures
            value@ == self@,
    {
        self.value.as_str()
    }

    /// Returns the human-readable description of this error.
    pub fn to_string(&self) -> (text: String)
        ensures
            text@ == "unsupported control codec '"@ + self@ + "'"@,
    {
        let mut text = String::from_str("unsupported control codec '");
        text.append(self.value.as_str());
        text.append("'");
        text
    }
}

impl std::str::FromStr for PorkControlCodec {
    type Err = ParsePorkControlCodecError;

    fn from_str(value: &str) -> (parsed: Result<Self, Self::Err>)
        ensures
            parsed is Ok <==> parsed_codec(value@) is Some,
            parsed matches Ok(codec) ==> parsed_codec(value@) == Some(codec),
            parsed matches Err(error) ==> error@ == value@,
    {
        PorkControlCodec::parse_value(value)
    }
}

/// Marker type of the JSON wire format for [`PorkIpcMessage`] payloads.
#[derive(Debug, Clone, Copy, Default)]
pub struct JsonCodec;

/// Marker type of the Postcard wire format for [`PorkIpcMessage`] payloads.
#[derive(Debug, Clone, Copy, Default)]
pub struct PostcardCodec;

/// Resolves the control codec from the value of [`PORK_CONTROL_CODEC_ENV`].
///
/// A missing variable selects [`PorkControlCodec::Json`], the default.
pub fn control_codec_from_env_value(value: Option<&str>) -> (codec: Result<
    PorkControlCodec,
    ParsePorkControlCodecError,
>)
    ensures
        value is None ==> codec == Ok::<PorkControlCodec, ParsePorkControlCodecError>(
            PorkControlCodec::Json,
        ),
        value matches Some(text) ==> (codec is Ok <==> parsed_codec(text@) is Some),
        value matches Some(text) ==> (codec matches Ok(c) ==> parsed_codec(text@) == Some(c)),
        value matches Some(text) ==> (codec matches Err(e) ==> e@ == text@),
{
    match value {
        Some(text) => PorkControlCodec::parse_value(text),
        None => Ok(PorkControlCodec::default()),
    }
}

/// Parsing the canonical text of a codec gives that codec back.
pub proof fn lemma_codec_text_round_trip(codec: PorkControlCodec)
    ensures
        parsed_codec(codec_env_value(codec)) == Some(codec),
{
    reveal_strlit("json");
    reveal_strlit("postcard");
    assert("json"@.len() != "postcard"@.len());
}

/// A text parses to a codec exactly when it is that codec's canonical text.
pub proof fn lemma_parse_accepts_only_canonical_text(text: Seq<char>)
    ensures
        parsed_codec(text) matches Some(codec) ==> codec_env_value(codec) == text,
        parsed_codec(text) is None ==> text != "json"@ && text != "postcard"@,
{
    reveal_strlit("json");
    reveal_strlit("postcard");
}

/// Distinct codecs have distinct canonical texts.
pub proof fn lemma_codec_text_injective(a: PorkControlCodec, b: PorkControlCodec)
    ensures
        codec_env_value(a) == codec_env_value(b) ==> a == b,
{
    reveal_strlit("json");
    reveal_strlit("postcard");
    if a != b {
        assert(codec_env_value(a).len() != codec_env_value(b).len());
    }
}

/// A control message wrapped in an envelope is the message taken back out of
/// it, and no application payload is taken for a control message.
pub proof fn law_control_envelope_round_trip(message: PorkControlMessage, payload: Vec<u8>)
    ensures
        control_of_envelope(Ok(PorkIpcMessage::Control(message))) == Ok::<
            PorkControlMessage,
            PorkProtoCodecError,
        >(message),
        control_of_envelope(Ok(PorkIpcMessage::Custom(payload))) is Err,
{
}

} // verus!
