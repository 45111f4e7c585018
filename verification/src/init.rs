//! Agent action to perform MongoDB Replica Set initialisation.
//!
//! The action bootstraps the cluster in three protocol steps, each decided
//! here and carried out by the host: query the replica status, read the
//! node's own startup configuration, and issue the bootstrap command with a
//! minimal membership document.  If the replica set is already initialised
//! the action fails before any bootstrap command is produced.
use vstd::prelude::*;

use crate::client::CommandError;
use crate::document::spec_lookup;
use crate::document::Document;
use crate::document::Value;
use crate::status::spec_status;
use crate::status::NodeStatus;
use crate::status::NodeStatusModel;

verus! {

/// Initialise a MongoDB Replica Set cluster.
pub struct Init {
    /// The externally reachable address this node joins the cluster under,
    /// supplied by configuration.
    pub host: String,
}

/// Arguments to customise replica set initialisation.
pub struct InitArgs {
    /// Settings passed through to the bootstrap command, unvalidated.
    pub settings: Option<Document>,
}

/// Errors returned by the replica set initialisation action.
#[derive(Clone, Copy, PartialEq, Eq, Structural, Debug)]
pub enum InitError {
    /// The replica set is already initialised.
    AlreadyInitialised,
    /// Unable to initialise the replica set.
    Failed,
    /// Arguments provided to the action are not valid.
    InvalidArgs,
    /// No replica set name was provided in MongoDB configuration or command.
    NoReplicaSetName,
}

/// The next protocol step of the initialisation action.
pub enum InitStep {
    /// Issue the replica-status command and report its outcome.
    QueryStatus,
    /// Issue the configuration-introspection command and report its outcome.
    ReadConfig,
    /// Issue the bootstrap command with this membership document.
    Initiate(Document),
    /// The action finished.
    Done,
    /// The action failed with this error.
    Fail(InitError),
}

/// The replica set name the node's startup configuration carries, if any:
/// the string under whichever of the two historical field names is present
/// in the replication section.
pub open spec fn spec_rs_name(conf: Document) -> Option<String> {
    match conf.spec_get_document("parsed"@) {
        Err(_) => None,
        Ok(parsed) => match parsed.spec_get_document("replication"@) {
            Err(_) => None,
            Ok(replication) => {
                let key = if replication.spec_has_key("replSet"@) {
                    "replSet"@
                } else {
                    "replSetName"@
                };
                match spec_lookup(replication.entries@, key) {
                    Some(Value::Text(name)) => Some(name),
                    _ => None,
                }
            },
        },
    }
}

/// Whether doc is the minimal bootstrap membership document: the replica set
/// name as its id, this node as its only member, and the caller's settings
/// passed through untouched when given.
pub open spec fn spec_init_doc(
    doc: Document,
    name: String,
    host: String,
    settings: Option<Document>,
) -> bool {
    &&& doc.entries@.len() == (match settings {
        Some(_) => 3int,
        None => 2int,
    })
    &&& doc.entries@[0].0@ == "_id"@
    &&& doc.entries@[0].1 == Value::Text(name)
    &&& doc.entries@[1].0@ == "members"@
    &&& doc.entries@[1].1 matches Value::Array(members)
    &&& members@.len() == 1
    &&& members@[0] matches Value::Doc(node)
    &&& node.entries@.len() == 2
    &&& node.entries@[0].0@ == "_id"@
    &&& node.entries@[0].1 == Value::Int32(0)
    &&& node.entries@[1].0@ == "host"@
    &&& node.entries@[1].1 == Value::Text(host)
    &&& (settings matches Some(s) ==> doc.entries@[2].0@ == "settings"@ && doc.entries@[2].1
        == Value::Doc(s))
}

/// The step that follows the status query: the bootstrap goes on only when
/// the node is not in a cluster; any other status blocks a safe bootstrap.
pub open spec fn spec_init_status_step(result: Result<Document, CommandError>) -> InitStep {
    if spec_status(result) == NodeStatusModel::NotInCluster {
        InitStep::ReadConfig
    } else {
        InitStep::Fail(InitError::AlreadyInitialised)
    }
}

impl Init {
    /// The initialisation action for a node reachable under the given address.
    pub fn new(host: String) -> (action: Init)
        ensures
            action.host == host,
    {
        Init { host }
    }

    /// The first protocol step: check the current replica set state.
    pub fn start(&self) -> (step: InitStep)
        ensures
            step == InitStep::QueryStatus,
    {
        InitStep::QueryStatus
    }

    /// Decide from the status query's outcome whether the bootstrap may
    /// proceed.
    ///
    /// Anything other than a node known to be outside a cluster fails the
    /// action: an already-healthy member and an unrelated error both block a
    /// safe bootstrap.
    pub fn on_status(&self, result: &Result<Document, CommandError>) -> (step: InitStep)
        ensures
            step == spec_init_status_step(*result),
    {
        match crate::status::get(result) {
            NodeStatus::NotInCluster => InitStep::ReadConfig,
            _ => InitStep::Fail(InitError::AlreadyInitialised),
        }
    }

    /// Build the bootstrap command from the node's startup configuration.
    ///
    /// A failed introspection command fails the action; a reply without a
    /// replica set name under either historical field name fails it with
    /// NoReplicaSetName; otherwise the minimal membership document is built
    /// and handed back for the bootstrap command.
    pub fn on_cmd_line_opts(&self, args: InitArgs, result: Result<Document, CommandError>) -> (step:
        InitStep)
        ensures
            match result {
                Err(_) => step == InitStep::Fail(InitError::Failed),
                Ok(conf) => match spec_rs_name(conf) {
                    None => step == InitStep::Fail(InitError::NoReplicaSetName),
                    Some(name) => step matches InitStep::Initiate(doc) && spec_init_doc(
                        doc,
                        name,
                        self.host,
                        args.settings,
                    ),
                },
            },
    {
        let conf = match result {
            Ok(conf) => conf,
            Err(_) => {
                return InitStep::Fail(InitError::Failed);
            },
        };

        // Get the replica set name from the node's own configuration.
        let parsed = match conf.get_document("parsed") {
            Ok(parsed) => parsed,
            Err(_) => {
                return InitStep::Fail(InitError::NoReplicaSetName);
            },
        };
        let replication = match parsed.get_document("replication") {
            Ok(replication) => replication,
            Err(_) => {
                return InitStep::Fail(InitError::NoReplicaSetName);
            },
        };
        let rs_id_key = if replication.contains_key("replSet") {
            "replSet"
        } else {
            "replSetName"
        };
        let name = match replication.get_str(rs_id_key) {
            Ok(name) => name.clone(),
            Err(_) => {
                return InitStep::Fail(InitError::NoReplicaSetName);
            },
        };

        // Build the replica set initialisation document.
        let mut node = Document::new();
        node.push_entry("_id".to_owned(), Value::Int32(0));
        node.push_entry("host".to_owned(), Value::Text(self.host.clone()));
        let mut members: Vec<Value> = Vec::new();
        members.push(Value::Doc(node));
        let mut doc = Document::new();
        doc.push_entry("_id".to_owned(), Value::Text(name));
        doc.push_entry("members".to_owned(), Value::Array(members));
        if let Some(settings) = args.settings {
            doc.push_entry("settings".to_owned(), Value::Doc(settings));
        }
        InitStep::Initiate(doc)
    }

    /// Report the bootstrap command's outcome as the action's terminal state.
    pub fn on_initiate(&self, result: &Result<Document, CommandError>) -> (step: InitStep)
        ensures
            match result {
                Ok(_) => step == InitStep::Done,
                Err(_) => step == InitStep::Fail(InitError::Failed),
            },
    {
        match result {
            Ok(_) => InitStep::Done,
            Err(_) => InitStep::Fail(InitError::Failed),
        }
    }
}

/// Law: when the current status resolves to Healthy, the bootstrap fails at
/// the status check with AlreadyInitialised.  Only the step that follows the
/// check can produce an Initiate document, so no bootstrap command is ever
/// issued for a healthy node.
pub proof fn lemma_init_healthy_aborts(result: Result<Document, CommandError>)
    requires
        spec_status(result) == NodeStatusModel::Healthy,
    ensures
        spec_init_status_step(result) == InitStep::Fail(InitError::AlreadyInitialised),
{
}

} // verus!
