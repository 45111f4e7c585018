//! The gateway boundary between the agent and its MongoDB client.
//!
//! The host owns the network connection and issues the administrative
//! commands; this module fixes what crosses the boundary: the closed
//! classification of command failures the interpreter branches on, and the
//! client settings the host must connect with.
use vstd::prelude::*;

use crate::conf::Conf;
use crate::conf::Credentials;
use crate::conf::Tls;
use crate::constants::REPL_SET_NOT_INITIALISED;

verus! {

/// Why an administrative command issued to the node failed.
///
/// Every failure of the MongoDB client is triaged into exactly one of these
/// classes at the gateway boundary, so that a new failure kind must be
/// explicitly placed rather than silently falling into an unexpected bucket.
pub enum CommandError {
    /// Authenticating with the node failed.
    Authentication(String),
    /// The node could not be reached: connection, I/O or server selection
    /// failures, including timeouts.
    Connection(String),
    /// The server answered the command with an error, carrying its numeric
    /// error code.
    Server { code: i32, message: String },
    /// The server's reply could not be understood.
    Malformed(String),
}

impl CommandError {
    /// The message carried by this failure, for operator diagnosis.
    pub open spec fn spec_message(&self) -> Seq<char> {
        match self {
            CommandError::Authentication(m) => m@,
            CommandError::Connection(m) => m@,
            CommandError::Server { code: _, message } => message@,
            CommandError::Malformed(m) => m@,
        }
    }

    /// Render the message carried by this failure.
    pub fn message(&self) -> (text: String)
        ensures
            text@ == self.spec_message(),
    {
        match self {
            CommandError::Authentication(m) => m.clone(),
            CommandError::Connection(m) => m.clone(),
            CommandError::Server { code: _, message } => message.clone(),
            CommandError::Malformed(m) => m.clone(),
        }
    }
}

/// Whether a command failure says the Replica Set is not initialised.
///
/// This function only returns true if the error indicated the replica set is
/// NOT initialised.  Other errors do not mean the replica set is initialised,
/// but we can't be sure it is not.
pub fn replica_set_not_initialised(error: &CommandError) -> (answer: bool)
    ensures
        answer == (error matches CommandError::Server { code, message: _ } && code
            == REPL_SET_NOT_INITIALISED),
{
    match error {
        CommandError::Server { code, message: _ } => *code == REPL_SET_NOT_INITIALISED,
        _ => false,
    }
}

/// The settings the host must connect to the node with.
pub struct ClientSettings {
    /// Name passed to the MongoDB server from the client.
    pub app_name: String,
    /// Address of the node the client connects to.
    pub host: String,
    /// Connect directly and exclusively to the configured node.
    pub direct_connection: bool,
    /// Server selection timeout, in milliseconds.
    ///
    /// As we use local connections only, long server selection timeouts hurt us.
    pub server_selection_timeout_ms: u64,
    /// Timeout in seconds for connections with the server to be established.
    pub connect_timeout_secs: Option<u64>,
    /// MongoDB authentication credentials and mode.
    pub credentials: Option<Credentials>,
    /// The amount of time in seconds to wait between server health checks.
    pub heartbeat_frequency_secs: Option<u64>,
    /// The amount of time in seconds to keep idle connections open for reuse.
    pub max_idle_time_secs: Option<u64>,
    /// TLS configuration for connections to the server.
    pub tls: Option<Tls>,
}

/// The step that sets up the MongoDB client when the process starts.
pub struct Initialise {
    _protected_construct: (),
}

impl Initialise {
    /// The client settings for the configured node: a direct, exclusive
    /// connection with a short server selection timeout.
    pub fn client_settings(&self, conf: Conf) -> (settings: ClientSettings)
        ensures
            settings.app_name@ == "repliagent-mongo"@,
            settings.host == conf.addresses.local,
            settings.direct_connection,
            settings.server_selection_timeout_ms == 500,
            settings.connect_timeout_secs == conf.connection_timeout,
            settings.credentials == conf.credentials,
            settings.heartbeat_frequency_secs == conf.heartbeat_frequency,
            settings.max_idle_time_secs == conf.max_idle_time,
            settings.tls == conf.tls,
    {
        ClientSettings {
            app_name: "repliagent-mongo".to_owned(),
            host: conf.addresses.local,
            direct_connection: true,
            server_selection_timeout_ms: 500,
            connect_timeout_secs: conf.connection_timeout,
            credentials: conf.credentials,
            heartbeat_frequency_secs: conf.heartbeat_frequency,
            max_idle_time_secs: conf.max_idle_time,
            tls: conf.tls,
        }
    }
}

/// Return the initialisation step that configures the MongoDB client.
pub fn initialiser() -> Initialise {
    Initialise { _protected_construct: () }
}

} // verus!
