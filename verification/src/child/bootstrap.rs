//! Child-side bootstrap decisions: what a child needs from its environment
//! before it connects to its host, and which control codec it speaks.

use vstd::prelude::*;
use vstd::string::*;

use crate::error::OrchestratorError;
use crate::protocol::{PorkControlCodec, parsed_codec};
use crate::types::BootstrapEnvName;

verus! {

/// Resolves a child's control codec from the value of
/// [`PORK_CONTROL_CODEC_ENV`](crate::protocol::PORK_CONTROL_CODEC_ENV).
///
/// The host always sets the variable, so a child refuses to start without it
/// (`MissingControlCodec`) and refuses a value that names no codec
/// (`UnsupportedControlCodec` with that value).
pub fn child_control_codec_from_env_value(value: Option<&str>) -> (codec: Result<
    PorkControlCodec,
    OrchestratorError,
>)
    ensures
        value is None ==> codec matches Err(OrchestratorError::MissingControlCodec),
        value matches Some(text) ==> (parsed_codec(text@) matches Some(c) ==> codec == Ok::<
            PorkControlCodec,
            OrchestratorError,
        >(c)),
        value matches Some(text) ==> (parsed_codec(text@) is None ==> (codec matches Err(
            OrchestratorError::UnsupportedControlCodec(v),
        ) && v@ == text@)),
{
    match value {
        None => Err(OrchestratorError::MissingControlCodec),
        Some(text) => match PorkControlCodec::parse_value(text) {
            Ok(codec) => Ok(codec),
            Err(error) => Err(OrchestratorError::UnsupportedControlCodec(error.value().to_owned())),
        },
    }
}

/// Where a child connects to: the host's two handshake servers and the codec
/// of the control channel.
#[derive(Debug)]
pub struct ConnectionTarget {
    /// Name of the data-channel handshake server.
    pub data_server_name: String,
    /// Name of the control-channel handshake server.
    pub control_server_name: String,
    /// Codec of the control channel.
    pub control_codec: PorkControlCodec,
}

/// Bootstrap coordinator for child-side connection setup.
///
/// It knows the names of the two environment variables through which the host
/// hands over its handshake server names.
#[derive(Debug)]
pub struct ChildBootstrap {
    data_env_name: BootstrapEnvName,
    control_env_name: BootstrapEnvName,
}

impl ChildBootstrap {
    /// Creates a child bootstrap coordinator from explicit environment
    /// variable names.
    pub fn new(data_env_name: &str, control_env_name: &str) -> (bootstrap: Self)
        ensures
            bootstrap.data_env_name()@ == data_env_name@,
            bootstrap.control_env_name()@ == control_env_name@,
    {
        ChildBootstrap {
            data_env_name: BootstrapEnvName::from_text(data_env_name),
            control_env_name: BootstrapEnvName::from_text(control_env_name),
        }
    }

    /// The name of the variable that holds the data server's name.
    pub closed spec fn data_env_name_spec(&self) -> &BootstrapEnvName {
        &self.data_env_name
    }

    /// The name of the variable that holds the control server's name.
    pub closed spec fn control_env_name_spec(&self) -> &BootstrapEnvName {
        &self.control_env_name
    }

    /// Returns the name of the variable that holds the data server's name.
    #[verifier::when_used_as_spec(data_env_name_spec)]
    pub fn data_env_name(&self) -> (name: &BootstrapEnvName)
        ensures
            name == self.data_env_name_spec(),
    {
        &self.data_env_name
    }

    /// Returns the name of the variable that holds the control server's name.
    #[verifier::when_used_as_spec(control_env_name_spec)]
    pub fn control_env_name(&self) -> (name: &BootstrapEnvName)
        ensures
            name == self.control_env_name_spec(),
    {
        &self.control_env_name
    }

    /// Creates a child bootstrap coordinator for two variables, given the
    /// values the environment holds for them.
    ///
    /// Both variables must be set (`MissingBootstrapValue` otherwise).
    pub fn from_env_values(
        data_env_name: &str,
        control_env_name: &str,
        data_value: Option<&str>,
        control_value: Option<&str>,
    ) -> (result: Result<Self, OrchestratorError>)
        ensures
            data_value is None || control_value is None ==> result matches Err(
                OrchestratorError::MissingBootstrapValue,
            ),
            data_value is Some && control_value is Some ==> (result matches Ok(bootstrap)
                && bootstrap.data_env_name()@ == data_env_name@
                && bootstrap.control_env_name()@ == control_env_name@),
    {
        if data_value.is_none() || control_value.is_none() {
            return Err(OrchestratorError::MissingBootstrapValue);
        }
        Ok(ChildBootstrap::new(data_env_name, control_env_name))
    }

    /// Decides where to connect, given the values the environment holds for
    /// the two bootstrap variables and for the control codec.
    ///
    /// Both server names must be set (`MissingBootstrapValue`, the data
    /// server's checked first); the codec is resolved as
    /// [`child_control_codec_from_env_value`] resolves it.
    pub fn connection_target(
        &self,
        data_value: Option<&str>,
        control_value: Option<&str>,
        codec_value: Option<&str>,
    ) -> (result: Result<ConnectionTarget, OrchestratorError>)
        ensures
            data_value is None || control_value is None ==> result matches Err(
                OrchestratorError::MissingBootstrapValue,
            ),
            data_value is Some && control_value is Some && codec_value is None ==> result matches Err(
                OrchestratorError::MissingControlCodec,
            ),
            data_value is Some && control_value is Some && codec_value is Some && parsed_codec(
                codec_value->0@,
            ) is None ==> (result matches Err(OrchestratorError::UnsupportedControlCodec(v)) && v@
                == codec_value->0@),
            data_value is Some && control_value is Some && codec_value is Some && parsed_codec(
                codec_value->0@,
            ) is Some ==> (result matches Ok(target) && target.data_server_name@ == data_value->0@
                && target.control_server_name@ == control_value->0@ && Some(target.control_codec)
                == parsed_codec(codec_value->0@)),
    {
        let data_server_name = match data_value {
            Some(value) => value.to_owned(),
            None => {
                return Err(OrchestratorError::MissingBootstrapValue);
            },
        };
        let control_server_name = match control_value {
            Some(value) => value.to_owned(),
            None => {
                return Err(OrchestratorError::MissingBootstrapValue);
            },
        };
        match child_control_codec_from_env_value(codec_value) {
            Ok(control_codec) => Ok(ConnectionTarget { data_server_name, control_server_name, control_codec }),
            Err(error) => Err(error),
        }
    }
}

} // verus!
