//! Configuration models for the agent.
use vstd::prelude::*;

verus! {

/// Network addresses for the MongoDB node depending on intended client.
pub struct Addresses {
    /// MongoDB node address within the replica set.
    pub cluster: Option<String>,
    /// MongoDB node address for the agent to connect to.
    pub local: String,
}

impl Addresses {
    /// The node address used when configuration gives none.
    pub fn default_local() -> (address: String)
        ensures
            address@ == "localhost:27017"@,
    {
        "localhost:27017".to_owned()
    }
}

impl Default for Addresses {
    fn default() -> (addresses: Addresses)
        ensures
            addresses.cluster is None,
            addresses.local@ == "localhost:27017"@,
    {
        Addresses { cluster: None, local: Addresses::default_local() }
    }
}

/// Agent configuration specific to MongoDB.
pub struct Conf {
    /// Network addresses for the MongoDB node depending on intended client.
    pub addresses: Addresses,
    /// Timeout in seconds for connections with the server to be established.
    pub connection_timeout: Option<u64>,
    /// MongoDB authentication credentials and mode.
    pub credentials: Option<Credentials>,
    /// The amount of time in seconds to wait between server health checks.
    pub heartbeat_frequency: Option<u64>,
    /// The amount of time in seconds to keep idle connections open for reuse.
    ///
    /// A value of zero means that connections will not be closed for being idle.
    pub max_idle_time: Option<u64>,
    /// TLS configuration for connections to the server.
    pub tls: Option<Tls>,
    /// Configure MongoDB version detection strategies.
    pub version_detect: VersionDetect,
}

impl Default for Conf {
    fn default() -> (conf: Conf)
        ensures
            conf.addresses.cluster is None,
            conf.addresses.local@ == "localhost:27017"@,
            conf.connection_timeout is None,
            conf.credentials is None,
            conf.heartbeat_frequency is None,
            conf.max_idle_time is None,
            conf.tls is None,
            conf.version_detect.command is None,
            conf.version_detect.file is None,
    {
        Conf {
            addresses: Addresses::default(),
            connection_timeout: None,
            credentials: None,
            heartbeat_frequency: None,
            max_idle_time: None,
            tls: None,
            version_detect: VersionDetect::default(),
        }
    }
}

/// Errors while loading server configuration.
pub enum ConfError {
    /// Unable to load configuration from file.
    ///
    /// Error parameters:
    ///
    /// - Path to the configuration file.
    Load(String),
    /// Unable to open the configuration file.
    ///
    /// Error parameters:
    ///
    /// - Path to the configuration file.
    Open(String),
}

/// A command invocation that prints the store version.
pub struct VersionProbeCommand {
    /// Arguments handed to the command.
    pub args: Vec<String>,
    /// The command to run.
    pub command: String,
    /// Extra environment variables set for the command.
    pub env: Vec<(String, String)>,
}

/// Configure MongoDB version detection strategies.
pub struct VersionDetect {
    /// Override the default store detection command.
    pub command: Option<VersionProbeCommand>,
    /// Optional file to detect the MongoDB version from.
    pub file: Option<String>,
}

impl Default for VersionDetect {
    fn default() -> (detect: VersionDetect)
        ensures
            detect.command is None,
            detect.file is None,
    {
        VersionDetect { command: None, file: None }
    }
}

/// MongoDB authentication credentials and mode.
pub struct Credentials {
    /// The authentication mechanism to use.
    pub mechanism: Option<CredentialsMechanism>,
    /// Username to authenticate to MongoDB with.
    pub username: Option<String>,
    /// Name of the users database to authenticate against.
    pub source: Option<String>,
}

impl Default for Credentials {
    fn default() -> (credentials: Credentials)
        ensures
            credentials.mechanism is None,
            credentials.username is None,
            credentials.source is None,
    {
        Credentials { mechanism: None, username: None, source: None }
    }
}

/// Supported authentication mechanisms to authenticate with the server.
#[derive(Clone, Copy, PartialEq, Eq, Structural, Debug)]
pub enum CredentialsMechanism {
    /// Use the Kerberos mechanism.
    Gssapi,
    /// Use the MONGODB-X509 mechanism.
    MongoDbX509,
    /// Use the PLAIN mechanism.
    Plain,
    /// Use the SCRAM-SHA-1 mechanism.
    ScramSha1,
    /// Use the SCRAM-SHA-256 mechanism.
    ScramSha256,
}

/// TLS configuration for connections to the server.
pub struct Tls {
    /// The client should ignore invalid certificates from the server.
    pub allow_invalid_certificates: Option<bool>,
    /// The client should ignore invalid certificate hostnames.
    pub allow_invalid_hostnames: Option<bool>,
    /// Path to the CA file to verify the server certificate with.
    pub ca_file_path: Option<String>,
    /// Path to the client certificate to present to server.
    pub cert_key_file_path: Option<String>,
}

/// Apply configuration overrides taken from the process environment.
///
/// The host hands in the cluster address override it read from the
/// environment, if one was set.  Once overrides are applied the cluster
/// address must be known, or the configuration is rejected.
pub fn apply_overrides(conf: &mut Conf, cluster_override: Option<String>) -> (outcome: Result<
    (),
    crate::errors::ConfError,
>)
    ensures
        final(conf).addresses.local == old(conf).addresses.local,
        final(conf).connection_timeout == old(conf).connection_timeout,
        final(conf).credentials == old(conf).credentials,
        final(conf).heartbeat_frequency == old(conf).heartbeat_frequency,
        final(conf).max_idle_time == old(conf).max_idle_time,
        final(conf).tls == old(conf).tls,
        final(conf).version_detect == old(conf).version_detect,
        match cluster_override {
            Some(address) => outcome is Ok && final(conf).addresses.cluster == Some(address),
            None => {
                &&& final(conf).addresses.cluster == old(conf).addresses.cluster
                &&& outcome is Ok <==> old(conf).addresses.cluster is Some
                &&& outcome matches Err(e) ==> e == crate::errors::ConfError::NoClusterAddress
            },
        },
{
    if let Some(address) = cluster_override {
        conf.addresses.cluster = Some(address);
    }
    if conf.addresses.cluster.is_none() {
        return Err(crate::errors::ConfError::NoClusterAddress);
    }
    Ok(())
}

} // verus!
