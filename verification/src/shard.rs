//! Model the replica set status into a shard record.
use vstd::prelude::*;

use crate::constants::MemberState;
use crate::document::Document;
use crate::document::Value;
use crate::errors::MemberStateParseError;
use crate::errors::MongoInfoError;

verus! {

/// The role a node serves within its shard.
#[derive(Debug)]
pub enum ShardRole {
    /// The node is the shard's primary.
    Primary,
    /// The node is a shard secondary.
    Secondary,
    /// The node is catching up with the shard's primary.
    Recovering,
    /// Any other role, named after the reported member state.
    Other(String),
}

/// The mathematical shape of a shard role, with the label as a character
/// sequence.
pub enum ShardRoleModel {
    /// The node is the shard's primary.
    Primary,
    /// The node is a shard secondary.
    Secondary,
    /// The node is catching up with the shard's primary.
    Recovering,
    /// Any other role, with its label.
    Other(Seq<char>),
}

impl View for ShardRole {
    type V = ShardRoleModel;

    open spec fn view(&self) -> ShardRoleModel {
        match self {
            ShardRole::Primary => ShardRoleModel::Primary,
            ShardRole::Secondary => ShardRoleModel::Secondary,
            ShardRole::Recovering => ShardRoleModel::Recovering,
            ShardRole::Other(label) => ShardRoleModel::Other(label@),
        }
    }
}

/// The role a member state maps to: primary and secondary pass through,
/// every state still catching up is recovering, anything else keeps its name.
pub open spec fn spec_role_for_state(state: MemberState) -> ShardRoleModel {
    match state {
        MemberState::Primary => ShardRoleModel::Primary,
        MemberState::Secondary => ShardRoleModel::Secondary,
        MemberState::Recovering => ShardRoleModel::Recovering,
        MemberState::Startup => ShardRoleModel::Recovering,
        MemberState::Startup2 => ShardRoleModel::Recovering,
        _ => ShardRoleModel::Other(state.spec_name()),
    }
}

impl ShardRole {
    /// The role a member state maps to.
    pub fn for_state(state: MemberState) -> (role: ShardRole)
        ensures
            role@ == spec_role_for_state(state),
    {
        match state {
            MemberState::Primary => ShardRole::Primary,
            MemberState::Secondary => ShardRole::Secondary,
            MemberState::Recovering | MemberState::Startup | MemberState::Startup2 => {
                ShardRole::Recovering
            },
            other => ShardRole::Other(other.name()),
        }
    }
}

/// A commit position, as a millisecond ordinal.
#[derive(Clone, Copy, PartialEq, Eq, Structural, Debug)]
pub struct ShardCommitOffset {
    /// The offset value, in milliseconds.
    pub value: i64,
}

impl ShardCommitOffset {
    /// A commit offset measured in milliseconds.
    pub fn milliseconds(value: i64) -> (offset: ShardCommitOffset)
        ensures
            offset.value == value,
    {
        ShardCommitOffset { value }
    }
}

/// The normalized topology record for the node's shard.
///
/// Derived fresh per query and returned to the caller, never retained.
#[derive(Debug)]
pub struct Shard {
    /// Current node commit position (the node's last-operation ordinal).
    pub commit_offset: ShardCommitOffset,
    /// Delta between the distinct primary's ordinal and this node's, if the
    /// cluster has a primary other than this node.  May be negative when
    /// clocks or operations are out of order; it is surfaced as-is.
    pub lag: Option<ShardCommitOffset>,
    /// The role this node serves.
    pub role: ShardRole,
    /// The replica set name, reported as the shard ID.
    pub shard_id: String,
}

/// Why the replica set status could not be modeled into a shard.
#[derive(Clone, Copy, PartialEq, Eq, Structural, Debug)]
pub enum ShardError {
    /// A required attribute is missing or has an unexpected shape.
    Info(MongoInfoError),
    /// The reported member state code is not in the state table.
    State(MemberStateParseError),
}

/// Whether a members entry describes the node itself.
pub open spec fn is_self_member(member: Value) -> bool {
    member matches Value::Doc(doc) && doc.spec_get_bool("self"@) == Ok::<
        bool,
        crate::document::ValueAccessError,
    >(true)
}

/// Whether a members entry describes a node reporting the primary state.
pub open spec fn is_primary_member(member: Value) -> bool {
    member matches Value::Doc(doc) && (match doc.spec_get_i32("state"@) {
        Ok(code) => code as int,
        Err(_) => 6,
    }) == 1
}

/// The position of the first entry describing the node itself, or the length
/// of the list when there is none.
pub open spec fn spec_self_at(members: Seq<Value>) -> int
    decreases members.len(),
{
    if members.len() == 0 {
        0
    } else if is_self_member(members[0]) {
        0
    } else {
        1 + spec_self_at(members.skip(1))
    }
}

/// The position of the first entry reporting the primary state, or the length
/// of the list when there is none.
pub open spec fn spec_primary_at(members: Seq<Value>) -> int
    decreases members.len(),
{
    if members.len() == 0 {
        0
    } else if is_primary_member(members[0]) {
        0
    } else {
        1 + spec_primary_at(members.skip(1))
    }
}

/// What spec_self_at points at.
pub proof fn lemma_self_at(members: Seq<Value>)
    ensures
        0 <= spec_self_at(members) <= members.len(),
        spec_self_at(members) < members.len() ==> is_self_member(members[spec_self_at(members)]),
        forall|j: int| 0 <= j < spec_self_at(members) ==> !is_self_member(members[j]),
    decreases members.len(),
{
    if members.len() > 0 && !is_self_member(members[0]) {
        lemma_self_at(members.skip(1));
        assert forall|j: int| 0 <= j < spec_self_at(members) implies !is_self_member(
            members[j],
        ) by {
            if j > 0 {
                assert(members[j] == members.skip(1)[j - 1]);
            }
        }
    }
}

/// What spec_primary_at points at.
pub proof fn lemma_primary_at(members: Seq<Value>)
    ensures
        0 <= spec_primary_at(members) <= members.len(),
        spec_primary_at(members) < members.len() ==> is_primary_member(
            members[spec_primary_at(members)],
        ),
        forall|j: int| 0 <= j < spec_primary_at(members) ==> !is_primary_member(members[j]),
    decreases members.len(),
{
    if members.len() > 0 && !is_primary_member(members[0]) {
        lemma_primary_at(members.skip(1));
        assert forall|j: int| 0 <= j < spec_primary_at(members) implies !is_primary_member(
            members[j],
        ) by {
            if j > 0 {
                assert(members[j] == members.skip(1)[j - 1]);
            }
        }
    }
}

/// The document of the first entry describing the node itself, if any.
pub open spec fn spec_self_doc(members: Seq<Value>) -> Option<Document> {
    let i = spec_self_at(members);
    if i < members.len() {
        Some(members[i]->Doc_0)
    } else {
        None
    }
}

/// The document of the first entry reporting the primary state, when that
/// entry is a node other than the one described by self_doc.
pub open spec fn spec_distinct_primary(members: Seq<Value>, self_doc: Document) -> Option<
    Document,
> {
    let i = spec_primary_at(members);
    if i < members.len() {
        let primary = members[i]->Doc_0;
        if primary.spec_get_i32("_id"@) == self_doc.spec_get_i32("_id"@) {
            None
        } else {
            Some(primary)
        }
    } else {
        None
    }
}

/// The fields a shard record is built from, before roles and offsets are
/// wrapped into their carrier types.
pub struct ShardFields {
    /// The replica set name from the self entry.
    pub shard_id: String,
    /// The self entry's last-operation ordinal, in milliseconds.
    pub optime: i64,
    /// The self entry's decoded member state.
    pub state: MemberState,
    /// The distinct primary's ordinal minus the self ordinal, if a distinct
    /// primary exists.
    pub lag: Option<int>,
}

/// The fields the replica set status yields, or the first error a scan of it
/// hits: the members list, then the self entry, then its name, ordinal and
/// state, then the distinct primary's ordinal.
pub open spec fn spec_shard_fields(status: Document) -> Result<ShardFields, ShardError> {
    match status.spec_get_array("members"@) {
        Err(_) => Err(ShardError::Info(MongoInfoError::ReplicaSetStatusNoMembers)),
        Ok(members_vec) => {
            let members = members_vec@;
            match spec_self_doc(members) {
                None => Err(ShardError::Info(MongoInfoError::ReplicaSetStatusNoSelf)),
                Some(self_doc) => match self_doc.spec_get_text("name"@) {
                    Err(_) => Err(ShardError::Info(MongoInfoError::ReplicaSetStatusInvalidSelf)),
                    Ok(shard_id) => match self_doc.spec_get_datetime("optimeDate"@) {
                        Err(_) => Err(
                            ShardError::Info(MongoInfoError::ReplicaSetStatusInvalidSelf),
                        ),
                        Ok(optime) => match self_doc.spec_get_i32("state"@) {
                            Err(_) => Err(
                                ShardError::Info(MongoInfoError::ReplicaSetStatusInvalidSelf),
                            ),
                            Ok(code) => match MemberState::spec_decode(code as int) {
                                None => Err(
                                    ShardError::State(MemberStateParseError { state: code }),
                                ),
                                Some(state) => match spec_distinct_primary(members, self_doc) {
                                    None => Ok(
                                        ShardFields { shard_id, optime, state, lag: None },
                                    ),
                                    Some(primary) => match primary.spec_get_datetime(
                                        "optimeDate"@,
                                    ) {
                                        Err(_) => Err(
                                            ShardError::Info(
                                                MongoInfoError::ReplicaSetStatusInvalidSelf,
                                            ),
                                        ),
                                        Ok(primary_optime) => Ok(
                                            ShardFields {
                                                shard_id,
                                                optime,
                                                state,
                                                lag: Some(primary_optime - optime),
                                            },
                                        ),
                                    },
                                },
                            },
                        },
                    },
                },
            }
        },
    }
}

/// Whether the lag the status yields, if any, fits the machine integer that
/// carries it.
pub open spec fn spec_lag_fits(status: Document) -> bool {
    match spec_shard_fields(status) {
        Ok(fields) => match fields.lag {
            Some(lag) => i64::MIN <= lag <= i64::MAX,
            None => true,
        },
        Err(_) => true,
    }
}

/// Finds the first members entry describing the node itself.
fn find_self<'a>(members: &'a Vec<Value>) -> (found: Option<(usize, &'a Document)>)
    ensures
        match found {
            Some((i, doc)) => {
                &&& i == spec_self_at(members@)
                &&& i < members@.len()
                &&& members@[i as int] == Value::Doc(*doc)
            },
            None => spec_self_at(members@) == members@.len(),
        },
{
    let n = members.len();
    let mut i: usize = 0;
    while i < n
        invariant
            n == members@.len(),
            0 <= i <= n,
            forall|j: int| 0 <= j < i ==> !is_self_member(members@[j]),
        decreases n - i,
    {
        match &members[i] {
            Value::Doc(doc) => {
                let is_self = match doc.get_bool("self") {
                    Ok(flag) => flag,
                    Err(_) => false,
                };
                if is_self {
                    proof {
                        lemma_self_at(members@);
                        let at = spec_self_at(members@);
                        if at < i as int {
                            assert(!is_self_member(members@[at]));
                        }
                        if at > i as int {
                            assert(!is_self_member(members@[i as int]));
                        }
                    }
                    return Some((i, doc));
                }
            },
            _ => {},
        }
        i += 1;
    }
    proof {
        lemma_self_at(members@);
        let at = spec_self_at(members@);
        if at < n as int {
            assert(!is_self_member(members@[at]));
        }
    }
    None
}

/// Finds the first members entry reporting the primary state.
fn find_primary<'a>(members: &'a Vec<Value>) -> (found: Option<(usize, &'a Document)>)
    ensures
        match found {
            Some((i, doc)) => {
                &&& i == spec_primary_at(members@)
                &&& i < members@.len()
                &&& members@[i as int] == Value::Doc(*doc)
            },
            None => spec_primary_at(members@) == members@.len(),
        },
{
    let n = members.len();
    let mut i: usize = 0;
    while i < n
        invariant
            n == members@.len(),
            0 <= i <= n,
            forall|j: int| 0 <= j < i ==> !is_primary_member(members@[j]),
        decreases n - i,
    {
        match &members[i] {
            Value::Doc(doc) => {
                let code: i32 = match doc.get_i32("state") {
                    Ok(code) => code,
                    Err(_) => 6,
                };
                if code == 1 {
                    proof {
                        lemma_primary_at(members@);
                        let at = spec_primary_at(members@);
                        if at < i as int {
                            assert(!is_primary_member(members@[at]));
                        }
                        if at > i as int {
                            assert(!is_primary_member(members@[i as int]));
                        }
                    }
                    return Some((i, doc));
                }
            },
            _ => {},
        }
        i += 1;
    }
    proof {
        lemma_primary_at(members@);
        let at = spec_primary_at(members@);
        if at < n as int {
            assert(!is_primary_member(members@[at]));
        }
    }
    None
}

/// Model the replica set status into a shard record.
///
/// Any missing or mistyped required field fails with an error naming the
/// broken attribute group; nothing is defaulted in a way that would mask a
/// real misconfiguration.
pub fn shard(status: Document) -> (result: Result<Shard, ShardError>)
    requires
        spec_lag_fits(status),
    ensures
        match result {
            Ok(record) => {
                &&& spec_shard_fields(status) matches Ok(fields)
                &&& record.shard_id == fields.shard_id
                &&& record.commit_offset.value == fields.optime
                &&& record.role@ == spec_role_for_state(fields.state)
                &&& match (record.lag, fields.lag) {
                    (Some(got), Some(want)) => got.value == want,
                    (None, None) => true,
                    _ => false,
                }
            },
            Err(error) => spec_shard_fields(status) == Err::<ShardFields, ShardError>(error),
        },
{
    let members = match status.get_array("members") {
        Ok(members) => members,
        Err(_) => {
            return Err(ShardError::Info(MongoInfoError::ReplicaSetStatusNoMembers));
        },
    };

    // Find the information about the current node.
    let my_self = match find_self(members) {
        Some((_, doc)) => doc,
        None => {
            return Err(ShardError::Info(MongoInfoError::ReplicaSetStatusNoSelf));
        },
    };
    proof {
        assert(spec_self_doc(members@) == Some(*my_self));
    }

    // Find the information about the primary node, if other than ourselves.
    let primary = match find_primary(members) {
        Some((_, doc)) => {
            let primary_id = doc.get_i32("_id");
            let self_id = my_self.get_i32("_id");
            let same = match (primary_id, self_id) {
                (Ok(a), Ok(b)) => a == b,
                (Err(a), Err(b)) => a == b,
                _ => false,
            };
            if same {
                None
            } else {
                Some(doc)
            }
        },
        None => None,
    };
    proof {
        assert(match primary {
            Some(doc) => spec_distinct_primary(members@, *my_self) == Some(*doc),
            None => spec_distinct_primary(members@, *my_self) is None,
        });
    }

    // Extract the relevant attributes.
    //  - Replica Set name (as Shard ID).
    let shard_id = match my_self.get_str("name") {
        Ok(name) => name.clone(),
        Err(_) => {
            return Err(ShardError::Info(MongoInfoError::ReplicaSetStatusInvalidSelf));
        },
    };
    //  - Current node optime (as Commit Offset).
    let optime = match my_self.get_datetime("optimeDate") {
        Ok(optime) => optime,
        Err(_) => {
            return Err(ShardError::Info(MongoInfoError::ReplicaSetStatusInvalidSelf));
        },
    };
    //  - Replica Set member state (as Role).
    let code = match my_self.get_i32("state") {
        Ok(code) => code,
        Err(_) => {
            return Err(ShardError::Info(MongoInfoError::ReplicaSetStatusInvalidSelf));
        },
    };
    let state = match MemberState::decode(code) {
        Ok(state) => state,
        Err(error) => {
            return Err(ShardError::State(error));
        },
    };
    let role = ShardRole::for_state(state);
    //  - Delta between primary node and current member.
    let lag = match primary {
        Some(doc) => {
            let primary_optime = match doc.get_datetime("optimeDate") {
                Ok(optime) => optime,
                Err(_) => {
                    return Err(ShardError::Info(MongoInfoError::ReplicaSetStatusInvalidSelf));
                },
            };
            Some(ShardCommitOffset::milliseconds(primary_optime - optime))
        },
        None => None,
    };

    Ok(Shard { commit_offset: ShardCommitOffset::milliseconds(optime), lag, role, shard_id })
}

/// Law: when the status yields a record and a distinct primary exists, the
/// record's lag is exactly the primary's last-operation ordinal minus the
/// node's own, negative values included.
pub proof fn lemma_shard_lag(status: Document, fields: ShardFields)
    requires
        spec_shard_fields(status) == Ok::<ShardFields, ShardError>(fields),
        fields.lag is Some,
    ensures
        ({
            let members = status.spec_get_array("members"@)->Ok_0;
            let self_doc = spec_self_doc(members@)->Some_0;
            let primary = spec_distinct_primary(members@, self_doc)->Some_0;
            &&& status.spec_get_array("members"@) is Ok
            &&& spec_self_doc(members@) is Some
            &&& spec_distinct_primary(members@, self_doc) is Some
            &&& self_doc.spec_get_datetime("optimeDate"@) is Ok
            &&& primary.spec_get_datetime("optimeDate"@) is Ok
            &&& fields.lag == Some(
                primary.spec_get_datetime("optimeDate"@)->Ok_0 - self_doc.spec_get_datetime(
                    "optimeDate"@,
                )->Ok_0,
            )
        }),
{
}

} // verus!
