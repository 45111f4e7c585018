//! Possible errors encountered by the agent.
use vstd::prelude::*;
use vstd::string::StringExecFns;

use crate::text::i32_text;
use crate::text::spec_i32_text;

verus! {

/// Errors related to setting up the MongoDB client connection.
pub enum ClientError {
    /// The configured node address is not valid.
    ///
    /// Error parameters:
    ///
    /// - The node address that caused the error.
    AddressNotValid(String),
    /// Unable to create a MongoDB client.
    CreateFailed,
}

impl ClientError {
    /// The configured node address is not valid.
    pub fn address_not_valid(address: String) -> (e: Self)
        ensures
            e == ClientError::AddressNotValid(address),
    {
        ClientError::AddressNotValid(address)
    }
}

/// Errors related to loading or validating agent configuration.
#[derive(Clone, Copy, PartialEq, Eq, Structural, Debug)]
pub enum ConfError {
    /// The node cluster address is missing from both configuration and environment.
    NoClusterAddress,
}

/// Unrecognised member state code.
#[derive(Clone, Copy, PartialEq, Eq, Structural, Debug)]
pub struct MemberStateParseError {
    pub state: i32,
}

impl MemberStateParseError {
    /// The error rendered for operators, naming the offending code.
    pub fn message(&self) -> (text: String)
        ensures
            text@ == "unrecognised member state code "@ + spec_i32_text(self.state as int),
    {
        let text = i32_text(self.state);
        let prefix: String = "unrecognised member state code ".to_owned();
        prefix.concat(text.as_str())
    }
}

impl From<i32> for MemberStateParseError {
    fn from(state: i32) -> (e: Self) {
        MemberStateParseError { state }
    }
}

impl vstd::std_specs::convert::FromSpecImpl<i32> for MemberStateParseError {
    open spec fn obeys_from_spec() -> bool {
        true
    }

    open spec fn from_spec(state: i32) -> Self {
        MemberStateParseError { state }
    }
}

/// Possible errors while gathering node information.
#[derive(Clone, Copy, PartialEq, Eq, Structural, Debug)]
pub enum MongoInfoError {
    /// Output of feature compatibility version command does not include a version.
    FeatCompatVerNotSet,
    /// Get feature compatibility version command failed.
    FeatCompatVerUnknown,
    /// Output of the oplog collection stats command does not include a collection size.
    OplogStatsNoSize,
    /// Get oplog collection statistics command failed.
    OplogStatsUnknown,
    /// Self member in the output of the replica set status command is invalid.
    ReplicaSetStatusInvalidSelf,
    /// Output of the replica set status command does not include a members list.
    ReplicaSetStatusNoMembers,
    /// Output of the replica set status command does not include a set name.
    ReplicaSetStatusNoName,
    /// Output of the replica set status command does not include the node itself.
    ReplicaSetStatusNoSelf,
    /// Get replica set status command failed.
    ReplicaSetStatusUnknown,
}

} // verus!
