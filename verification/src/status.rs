//! Detect the node status for Replica Set members.
//!
//! This is the one place where ambiguity between "offline" and
//! "healthy-but-transitioning" is resolved: every gateway outcome for the
//! replica-status command maps to exactly one node status.
use vstd::prelude::*;
use vstd::string::StringExecFns;

use crate::client::CommandError;
use crate::constants::MemberState;
use crate::constants::REPL_SET_NOT_INITIALISED;
use crate::document::Document;
use crate::text::spec_i32_text;

verus! {

/// The externally reported health of the managed node.
///
/// Derived fresh on every status query; never persisted.
#[derive(Debug)]
pub enum NodeStatus {
    /// The node is serving as primary or secondary.
    Healthy,
    /// The node runs but cannot serve: starting up, recovering or rolling back.
    Unhealthy,
    /// The node is joining the cluster (initial sync).
    JoiningCluster,
    /// The node is not part of an initialised replica set.
    NotInCluster,
    /// The node process is unreachable.
    Unavailable,
    /// The status could not be determined; the reason is carried for
    /// operator diagnosis.
    Unknown(String),
}

/// The mathematical shape of a node status, with the reason as a character
/// sequence.
pub enum NodeStatusModel {
    /// The node is serving as primary or secondary.
    Healthy,
    /// The node runs but cannot serve.
    Unhealthy,
    /// The node is joining the cluster.
    JoiningCluster,
    /// The node is not part of an initialised replica set.
    NotInCluster,
    /// The node process is unreachable.
    Unavailable,
    /// The status could not be determined, with the reason.
    Unknown(Seq<char>),
}

impl View for NodeStatus {
    type V = NodeStatusModel;

    open spec fn view(&self) -> NodeStatusModel {
        match self {
            NodeStatus::Healthy => NodeStatusModel::Healthy,
            NodeStatus::Unhealthy => NodeStatusModel::Unhealthy,
            NodeStatus::JoiningCluster => NodeStatusModel::JoiningCluster,
            NodeStatus::NotInCluster => NodeStatusModel::NotInCluster,
            NodeStatus::Unavailable => NodeStatusModel::Unavailable,
            NodeStatus::Unknown(reason) => NodeStatusModel::Unknown(reason@),
        }
    }
}

/// The status a command failure maps to.
///
/// Connection-class failures mean the node process is unreachable, not that
/// the cluster is unhealthy.  The server error code for an uninitialised
/// replica set is expected and routine; every other failure keeps its message.
pub open spec fn spec_status_for_error(error: CommandError) -> NodeStatusModel {
    match error {
        CommandError::Authentication(_) => NodeStatusModel::Unavailable,
        CommandError::Connection(_) => NodeStatusModel::Unavailable,
        CommandError::Server { code, message } => if code == REPL_SET_NOT_INITIALISED {
            NodeStatusModel::NotInCluster
        } else {
            NodeStatusModel::Unknown(message@)
        },
        CommandError::Malformed(message) => NodeStatusModel::Unknown(message@),
    }
}

/// The state code a successful reply reports, defaulting to the Unknown code
/// when the field is absent or has another shape (never to a healthy state).
pub open spec fn spec_reported_state(status: Document) -> int {
    match status.spec_get_i32("myState"@) {
        Ok(code) => code as int,
        Err(_) => 6,
    }
}

/// The status a reported state code maps to.
pub open spec fn spec_status_for_state(code: int) -> NodeStatusModel {
    match MemberState::spec_decode(code) {
        None => NodeStatusModel::Unknown(
            "unrecognised member state code "@ + spec_i32_text(code),
        ),
        Some(state) => match state {
            MemberState::Startup => NodeStatusModel::Unhealthy,
            MemberState::Recovering => NodeStatusModel::Unhealthy,
            MemberState::Rollback => NodeStatusModel::Unhealthy,
            MemberState::Primary => NodeStatusModel::Healthy,
            MemberState::Secondary => NodeStatusModel::Healthy,
            MemberState::Startup2 => NodeStatusModel::JoiningCluster,
            MemberState::Removed => NodeStatusModel::NotInCluster,
            _ => NodeStatusModel::Unknown(
                "Unable to determine status of mode with replica set state "@
                    + state.spec_name(),
            ),
        },
    }
}

/// The status any gateway outcome for the replica-status command maps to.
pub open spec fn spec_status(result: Result<Document, CommandError>) -> NodeStatusModel {
    match result {
        Ok(status) => spec_status_for_state(spec_reported_state(status)),
        Err(error) => spec_status_for_error(error),
    }
}

/// Determine the node status based on the error response to the
/// replica-status command.
pub fn status_for_error(error: &CommandError) -> (status: NodeStatus)
    ensures
        status@ == spec_status_for_error(*error),
{
    match error {
        CommandError::Authentication(_) => NodeStatus::Unavailable,
        CommandError::Connection(_) => NodeStatus::Unavailable,
        CommandError::Server { code, message } => {
            if *code == REPL_SET_NOT_INITIALISED {
                NodeStatus::NotInCluster
            } else {
                NodeStatus::Unknown(message.clone())
            }
        },
        CommandError::Malformed(message) => NodeStatus::Unknown(message.clone()),
    }
}

/// Get the current node status based on the replica-status command outcome.
pub fn get(result: &Result<Document, CommandError>) -> (status: NodeStatus)
    ensures
        status@ == spec_status(*result),
{
    let status_reply = match result {
        Ok(status) => status,
        Err(error) => {
            return status_for_error(error);
        },
    };

    // Determine the node status based on the replica set status.
    let code: i32 = match status_reply.get_i32("myState") {
        Ok(code) => code,
        Err(_) => 6,
    };
    let state = match MemberState::decode(code) {
        Ok(state) => state,
        Err(error) => {
            return NodeStatus::Unknown(error.message());
        },
    };
    match state {
        MemberState::Startup | MemberState::Recovering | MemberState::Rollback => {
            NodeStatus::Unhealthy
        },
        MemberState::Primary | MemberState::Secondary => NodeStatus::Healthy,
        MemberState::Startup2 => NodeStatus::JoiningCluster,
        MemberState::Removed => NodeStatus::NotInCluster,
        state => {
            let prefix: String =
                "Unable to determine status of mode with replica set state ".to_owned();
            NodeStatus::Unknown(prefix.concat(state.name().as_str()))
        },
    }
}

/// Law: the status mapping table is total and deterministic.
///
/// The mapping is a function of the gateway outcome alone, so two equal
/// outcomes always map to the same status; the clauses below enumerate the
/// whole table, one status for every failure class and every state code.
pub proof fn lemma_status_table()
    ensures
        forall|error: CommandError|
            (error is Authentication || error is Connection) ==> #[trigger] spec_status_for_error(
                error,
            ) == NodeStatusModel::Unavailable,
        forall|error: CommandError|
            error is Server && error->Server_code == REPL_SET_NOT_INITIALISED
                ==> #[trigger] spec_status_for_error(error) == NodeStatusModel::NotInCluster,
        forall|error: CommandError|
            error is Server && error->Server_code != REPL_SET_NOT_INITIALISED
                ==> #[trigger] spec_status_for_error(error) == NodeStatusModel::Unknown(
                error->Server_message@,
            ),
        forall|error: CommandError|
            error is Malformed ==> #[trigger] spec_status_for_error(error)
                == NodeStatusModel::Unknown(error->Malformed_0@),
        spec_status_for_state(0) == NodeStatusModel::Unhealthy,
        spec_status_for_state(1) == NodeStatusModel::Healthy,
        spec_status_for_state(2) == NodeStatusModel::Healthy,
        spec_status_for_state(3) == NodeStatusModel::Unhealthy,
        spec_status_for_state(5) == NodeStatusModel::JoiningCluster,
        spec_status_for_state(9) == NodeStatusModel::Unhealthy,
        spec_status_for_state(10) == NodeStatusModel::NotInCluster,
        spec_status_for_state(6) == NodeStatusModel::Unknown(
            "Unable to determine status of mode with replica set state "@
                + MemberState::Unknown.spec_name(),
        ),
        spec_status_for_state(7) == NodeStatusModel::Unknown(
            "Unable to determine status of mode with replica set state "@
                + MemberState::Arbiter.spec_name(),
        ),
        spec_status_for_state(8) == NodeStatusModel::Unknown(
            "Unable to determine status of mode with replica set state "@
                + MemberState::Down.spec_name(),
        ),
        forall|code: int|
            MemberState::spec_decode(code) is None ==> #[trigger] spec_status_for_state(code)
                == NodeStatusModel::Unknown(
                "unrecognised member state code "@ + spec_i32_text(code),
            ),
        forall|result: Result<Document, CommandError>|
            result matches Ok(status) ==> #[trigger] spec_status(result) == spec_status_for_state(
                spec_reported_state(status),
            ),
        forall|result: Result<Document, CommandError>|
            result matches Err(error) ==> #[trigger] spec_status(result) == spec_status_for_error(
                error,
            ),
{
}

} // verus!
