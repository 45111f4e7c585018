//! Topology state interpreter and reconfiguration protocol for an agent that
//! manages one member node of a MongoDB replica set.
//!
//! The library turns the raw replies of the database's administrative commands
//! into a normalized domain model (node health, role, replication lag),
//! classifies command failures that look alike on the wire but mean different
//! things, and plans safe, optimistic-concurrency mutations of the cluster's
//! membership document (bootstrap and add-member).  The host process owns the
//! network connection and drives each protocol step; every decision the agent
//! takes is made here, on plain data, and is verified.
use vstd::prelude::*;

pub mod add;
pub mod client;
pub mod conf;
pub mod constants;
pub mod document;
pub mod errors;
pub mod info;
pub mod init;
pub mod shard;
pub mod status;
pub mod text;
pub mod version;

verus! {

/// Select the mode to run the agent in.
#[derive(Clone, Copy, PartialEq, Eq, Structural, Debug)]
pub enum Mode {
    /// Run the agent in ReplicaSet mode (for members of a Replica Set cluster).
    ReplicaSet,
}

/// Parsed command line options for the agent process.
pub struct Cli {
    /// Path to the agent configuration file.
    pub config: String,
    /// The mode to run the agent in.
    pub mode: Mode,
}

/// What the host process must set up and run for a parsed command line.
pub struct AgentPlan {
    /// Path of the configuration file to load.
    pub config: String,
    /// The selected agent mode.
    pub mode: Mode,
}

/// Decide what the process runs from the parsed command line options.
pub fn run(args: Cli) -> (plan: AgentPlan)
    ensures
        plan.config == args.config,
        plan.mode == args.mode,
{
    match args.mode {
        Mode::ReplicaSet => AgentPlan { config: args.config, mode: Mode::ReplicaSet },
    }
}

} // verus!
