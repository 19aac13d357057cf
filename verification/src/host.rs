//! Host-side bootstrap values: the handshake server names a host hands to a
//! child through its environment.
//!
//! The host creates one handshake server for the data channel and one for the
//! control channel, and passes their names to the child in two environment
//! variables. The child connects to both and exchanges channel endpoints.

use vstd::prelude::*;
use vstd::string::*;

verus! {

/// Environment variables to pass to the child process for bootstrap.
#[derive(Debug)]
pub struct BootstrapEnv {
    /// Server name for the data-channel bootstrap handshake.
    pub data_server_name: String,
    /// Server name for the control-channel bootstrap handshake.
    pub control_server_name: String,
}

impl BootstrapEnv {
    /// The variables that hand the two server names to a child under the given
    /// variable names: the data server's first, then the control server's.
    pub fn env_pairs(&self, data_env_name: &str, control_env_name: &str) -> (pairs: Vec<
        (String, String),
    >)
        ensures
            pairs@.len() == 2,
            pairs@[0].0@ == data_env_name@,
            pairs@[0].1@ == self.data_server_name@,
            pairs@[1].0@ == control_env_name@,
            pairs@[1].1@ == self.control_server_name@,
    {
        let mut pairs: Vec<(String, String)> = Vec::new();
        pairs.push((data_env_name.to_owned(), self.data_server_name.clone()));
        pairs.push((control_env_name.to_owned(), self.control_server_name.clone()));
        pairs
    }
}

impl Clone for BootstrapEnv {
    fn clone(&self) -> (copy: Self)
        ensures
            copy.data_server_name@ == self.data_server_name@,
            copy.control_server_name@ == self.control_server_name@,
    {
        BootstrapEnv {
            data_server_name: self.data_server_name.clone(),
            control_server_name: self.control_server_name.clone(),
        }
    }
}

/// Host-side bootstrap coordinator.
///
/// It creates the handshake servers for the data and control channels, then
/// waits for the child to connect to both and exchange channel endpoints.
pub struct HostBootstrap {}

impl HostBootstrap {
    /// Creates a new host bootstrap coordinator with default configuration.
    pub fn new() -> (bootstrap: Self)
        ensures
            bootstrap == (HostBootstrap {}),
    {
        HostBootstrap {}
    }
}

impl Default for HostBootstrap {
    fn default() -> (bootstrap: Self)
        ensures
            bootstrap == (HostBootstrap {}),
    {
        HostBootstrap::new()
    }
}

} // verus!
