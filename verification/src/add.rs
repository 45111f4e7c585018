//! Agent action to add a node to the current Replica Set.
//!
//! The action reads the authoritative membership document, appends the new
//! node with the next free id, bumps the document version by exactly one as
//! the only optimistic-concurrency guard, and hands the whole mutated
//! document back for the reconfiguration command.  The server, not this
//! agent, rejects a write carrying a stale version or issued against a
//! non-primary; either rejection surfaces as a plain failure.
use vstd::prelude::*;

use crate::client::CommandError;
use crate::document::spec_key_at;
use crate::document::Document;
use crate::document::Value;

verus! {

/// Add a node to the Replica Set cluster.
pub struct Add;

/// Arguments to add a new node to the replica set.
pub struct AddArgs {
    /// Index to use for the new node id attribute.
    ///
    /// If not set, one larger than the largest id currently in use is
    /// assigned; the current behaviour always computes it that way.
    pub id: Option<u32>,
    /// Value of the new node for the host attribute.
    pub host: String,
}

/// Errors encountered while adding the new node.
#[derive(Debug)]
pub enum AddError {
    /// Unable to add node to replica set.
    Failed,
    /// Arguments provided to the action are not valid.
    InvalidArgs,
    /// An attribute is missing or has an unexpected type.
    RsAttr(&'static str),
    /// Invalid replica set configuration.
    RsConf,
}

/// The mathematical shape of an add-action error, with the attribute name as
/// a character sequence.
pub enum AddErrorModel {
    /// Unable to add node to replica set.
    Failed,
    /// Arguments provided to the action are not valid.
    InvalidArgs,
    /// An attribute is missing or has an unexpected type, named.
    RsAttr(Seq<char>),
    /// Invalid replica set configuration.
    RsConf,
}

impl View for AddError {
    type V = AddErrorModel;

    open spec fn view(&self) -> AddErrorModel {
        match self {
            AddError::Failed => AddErrorModel::Failed,
            AddError::InvalidArgs => AddErrorModel::InvalidArgs,
            AddError::RsAttr(name) => AddErrorModel::RsAttr(name@),
            AddError::RsConf => AddErrorModel::RsConf,
        }
    }
}

/// The largest member id a members list carries, floored at zero, or the
/// first defect a scan of the list hits: an entry that is not a document is
/// an invalid configuration, and a document entry without a 32-bit id is a
/// broken id attribute.
pub open spec fn spec_scan_ids(members: Seq<Value>, floor: int) -> Result<int, AddErrorModel>
    decreases members.len(),
{
    if members.len() == 0 {
        Ok(floor)
    } else {
        match members[0] {
            Value::Doc(member) => match member.spec_get_i32("_id"@) {
                Ok(id) => spec_scan_ids(
                    members.skip(1),
                    if id > floor {
                        id as int
                    } else {
                        floor
                    },
                ),
                Err(_) => Err(AddErrorModel::RsAttr("_id"@)),
            },
            _ => Err(AddErrorModel::RsConf),
        }
    }
}

/// The first defect that stops the membership growth, if the reply has one:
/// a reply without a configuration document, then a configuration without a
/// members array, then the members scan's own defect, then a configuration
/// without a 32-bit version.
pub open spec fn spec_add_error(reply: Document) -> Option<AddErrorModel> {
    match reply.spec_get("config"@) {
        None => Some(AddErrorModel::RsConf),
        Some(value) => match value {
            Value::Doc(rs) => match rs.spec_get_array("members"@) {
                Err(_) => Some(AddErrorModel::RsAttr("members"@)),
                Ok(members) => match spec_scan_ids(members@, 0) {
                    Err(defect) => Some(defect),
                    Ok(_) => match rs.spec_get_i32("version"@) {
                        Err(_) => Some(AddErrorModel::RsAttr("version"@)),
                        Ok(_) => None,
                    },
                },
            },
            _ => Some(AddErrorModel::RsConf),
        },
    }
}

/// Whether the new member document carries exactly the next free id and the
/// given host.
pub open spec fn spec_new_member(node: Document, floor: int, host: String) -> bool {
    &&& node.entries@.len() == 2
    &&& node.entries@[0].0@ == "_id"@
    &&& node.entries@[0].1 == Value::Int32((floor + 1) as i32)
    &&& node.entries@[1].0@ == "host"@
    &&& node.entries@[1].1 == Value::Text(host)
}

/// Whether the mutated configuration relates to the reply's configuration as
/// the membership growth demands: every entry is kept in place and untouched,
/// except that the members array gains exactly the new member at its end and
/// the version grows by exactly one.
pub open spec fn spec_add_built(reply: Document, host: String, new: Document) -> bool {
    let rs = reply.spec_get("config"@)->Some_0->Doc_0;
    let mi = spec_key_at(rs.entries@, "members"@);
    let vi = spec_key_at(rs.entries@, "version"@);
    let members = rs.entries@[mi].1->Array_0;
    let floor = spec_scan_ids(members@, 0)->Ok_0;
    let version = rs.spec_get_i32("version"@)->Ok_0;
    &&& new.entries@.len() == rs.entries@.len()
    &&& forall|k: int|
        0 <= k < rs.entries@.len() && k != mi && k != vi ==> new.entries@[k] == rs.entries@[k]
    &&& new.entries@[mi].0 == rs.entries@[mi].0
    &&& new.entries@[vi].0 == rs.entries@[vi].0
    &&& new.entries@[mi].1 matches Value::Array(grown)
    &&& grown@.len() == members@.len() + 1
    &&& forall|k: int| 0 <= k < members@.len() ==> grown@[k] == members@[k]
    &&& grown@[members@.len() as int] matches Value::Doc(node)
    &&& spec_new_member(node, floor, host)
    &&& new.entries@[vi].1 == Value::Int32((version + 1) as i32)
}

/// Whether the ids and version the reply carries leave room for the
/// increments the growth performs on the machine integers that carry them.
pub open spec fn spec_add_fits(reply: Document) -> bool {
    match reply.spec_get("config"@) {
        Some(Value::Doc(rs)) => match rs.spec_get_array("members"@) {
            Ok(members) => match spec_scan_ids(members@, 0) {
                Ok(floor) => floor < i32::MAX && (match rs.spec_get_i32("version"@) {
                    Ok(version) => version < i32::MAX,
                    Err(_) => true,
                }),
                Err(_) => true,
            },
            Err(_) => true,
        },
        _ => true,
    }
}

/// Build the reconfiguration document that adds a member to the replica set.
///
/// The reply must be the whole answer of the configuration read; the result
/// is the mutated configuration to write back, or the first defect found.
#[verifier::loop_isolation(false)]
pub fn build_add_reconfig(reply: Document, host: String) -> (result: Result<Document, AddError>)
    requires
        spec_add_fits(reply),
    ensures
        match result {
            Ok(new) => spec_add_error(reply) is None && spec_add_built(reply, host, new),
            Err(error) => spec_add_error(reply) == Some(error@),
        },
{
    let ghost reply0 = reply;
    let ghost host0 = host;

    // Take the configuration document out of the reply.
    let mut source = reply;
    let config_at = match source.position("config") {
        Some(at) => at,
        None => {
            return Err(AddError::RsConf);
        },
    };
    let (_, config_value) = source.entries.remove(config_at);
    let mut rs = match config_value {
        Value::Doc(rs) => rs,
        _ => {
            return Err(AddError::RsConf);
        },
    };
    let ghost rs0 = rs;
    proof {
        assert(reply0.spec_get("config"@) == Some(Value::Doc(rs0)));
    }

    // Locate the members array and the version, in the order their defects
    // are reported.
    let members_at = match rs.position("members") {
        Some(at) => at,
        None => {
            return Err(AddError::RsAttr("members"));
        },
    };
    let version_at = rs.position("version");
    let (members_key, members_value) = rs.entries.remove(members_at);
    let mut members = match members_value {
        Value::Array(members) => members,
        _ => {
            return Err(AddError::RsAttr("members"));
        },
    };
    proof {
        assert(rs0.spec_get_array("members"@) == Ok::<
            Vec<Value>,
            crate::document::ValueAccessError,
        >(members));
        assert(members@.skip(0) =~= members@);
    }

    // Find the largest member id currently in use.
    let mut floor: i32 = 0;
    let count = members.len();
    let mut index: usize = 0;
    while index < count
        invariant
            0 <= index <= count,
            spec_scan_ids(members@, 0) == spec_scan_ids(
                members@.skip(index as int),
                floor as int,
            ),
        decreases count - index,
    {
        proof {
            assert(members@.skip(index as int)[0] == members@[index as int]);
            assert(members@.skip(index as int).skip(1) =~= members@.skip(index as int + 1));
        }
        let member = match &members[index] {
            Value::Doc(member) => member,
            _ => {
                return Err(AddError::RsConf);
            },
        };
        let id = match member.get_i32("_id") {
            Ok(id) => id,
            Err(_) => {
                return Err(AddError::RsAttr("_id"));
            },
        };
        if id > floor {
            floor = id;
        }
        index += 1;
    }
    proof {
        assert(members@.skip(count as int) =~= Seq::<Value>::empty());
        assert(spec_scan_ids(members@, 0) == Ok::<int, AddErrorModel>(floor as int));
    }

    // Build the new node document and put the grown members array back in
    // its place.
    let mut node = Document::new();
    node.push_entry("_id".to_owned(), Value::Int32(floor + 1));
    node.push_entry("host".to_owned(), Value::Text(host));
    let ghost node0 = node;
    let ghost members0 = members@;
    members.push(Value::Doc(node));
    let grown_entry = (members_key, Value::Array(members));
    let ghost grown0 = grown_entry;
    rs.entries.insert(members_at, grown_entry);
    let ghost rs1 = rs;
    proof {
        assert(rs.entries@ =~= rs0.entries@.update(members_at as int, grown0));
        assert(spec_new_member(node0, floor as int, host0));
    }

    // Bump the version for optimistic concurrency.
    let version_at = match version_at {
        Some(at) => at,
        None => {
            return Err(AddError::RsAttr("version"));
        },
    };
    let (version_key, version_value) = rs.entries.remove(version_at);
    proof {
        assert((version_key, version_value) == rs1.entries@[version_at as int]);
        if version_at != members_at {
            assert(rs1.entries@[version_at as int] == rs0.entries@[version_at as int]);
        }
    }
    let version = match version_value {
        Value::Int32(version) => version,
        _ => {
            return Err(AddError::RsAttr("version"));
        },
    };
    proof {
        assert(version_at != members_at);
        assert(rs0.entries@[version_at as int].1 == Value::Int32(version));
        assert(rs0.spec_get_i32("version"@) == Ok::<i32, crate::document::ValueAccessError>(
            version,
        ));
    }
    let bumped_entry = (version_key, Value::Int32(version + 1));
    let ghost bumped0 = bumped_entry;
    rs.entries.insert(version_at, bumped_entry);
    proof {
        assert(rs.entries@ =~= rs1.entries@.update(version_at as int, bumped0));
        assert(spec_add_error(reply0) is None);
        assert(spec_add_built(reply0, host0, rs));
    }
    Ok(rs)
}

/// What a successful id scan says of the list it scanned: every entry is a
/// document with a 32-bit id no larger than the scan's result, and the
/// result never falls below the floor it started from.
pub proof fn lemma_scan_ids_bound(members: Seq<Value>, floor: int)
    requires
        spec_scan_ids(members, floor) is Ok,
    ensures
        floor <= spec_scan_ids(members, floor)->Ok_0,
        forall|k: int|
            0 <= k < members.len() ==> ((#[trigger] members[k]) matches Value::Doc(member)
                && member.spec_get_i32("_id"@) matches Ok(id) && id <= spec_scan_ids(
                members,
                floor,
            )->Ok_0),
    decreases members.len(),
{
    if members.len() > 0 {
        let id0 = members[0]->Doc_0.spec_get_i32("_id"@)->Ok_0;
        let next = if id0 > floor {
            id0 as int
        } else {
            floor
        };
        lemma_scan_ids_bound(members.skip(1), next);
        assert forall|k: int|
            0 <= k < members.len() implies ((#[trigger] members[k]) matches Value::Doc(member)
            && member.spec_get_i32("_id"@) matches Ok(id) && id <= spec_scan_ids(
            members,
            floor,
        )->Ok_0) by {
            if k > 0 {
                assert(members[k] == members.skip(1)[k - 1]);
            }
        }
    }
}

/// Law: the member the growth appends carries an id strictly greater than
/// every id already in use, so the ids within the membership document stay
/// unique by construction.
pub proof fn lemma_add_keeps_ids_unique(reply: Document, host: String, new: Document)
    requires
        spec_add_fits(reply),
        spec_add_error(reply) is None,
        spec_add_built(reply, host, new),
    ensures
        ({
            let rs = reply.spec_get("config"@)->Some_0->Doc_0;
            let mi = spec_key_at(rs.entries@, "members"@);
            let members = rs.entries@[mi].1->Array_0;
            let node = new.entries@[mi].1->Array_0@[members@.len() as int]->Doc_0;
            let fresh = node.spec_get_i32("_id"@)->Ok_0;
            forall|k: int|
                0 <= k < members@.len() ==> ((#[trigger] members@[k]) matches Value::Doc(member)
                    && member.spec_get_i32("_id"@) matches Ok(id) && id < fresh)
        }),
{
    let rs = reply.spec_get("config"@)->Some_0->Doc_0;
    let mi = spec_key_at(rs.entries@, "members"@);
    let members = rs.entries@[mi].1->Array_0;
    lemma_scan_ids_bound(members@, 0);
}

/// The next protocol step of the add action.
pub enum AddStep {
    /// Issue the configuration read command and report its outcome.
    ReadConfig,
    /// Issue the reconfiguration command with this document.
    Reconfigure(Document),
    /// The action finished.
    Done,
    /// The action failed with this error.
    Fail(AddError),
}

impl Add {
    /// The first protocol step: read the authoritative membership document.
    ///
    /// The document is read fresh for every invocation, never from a cache.
    pub fn start(&self) -> (step: AddStep)
        ensures
            step == AddStep::ReadConfig,
    {
        AddStep::ReadConfig
    }

    /// Decide from the configuration read's outcome what to write back.
    pub fn on_config(&self, result: Result<Document, CommandError>, args: AddArgs) -> (step:
        AddStep)
        requires
            result matches Ok(reply) ==> spec_add_fits(reply),
        ensures
            match result {
                Err(_) => step matches AddStep::Fail(error) && error@ == AddErrorModel::Failed,
                Ok(reply) => match step {
                    AddStep::Reconfigure(new) => spec_add_error(reply) is None && spec_add_built(
                        reply,
                        args.host,
                        new,
                    ),
                    AddStep::Fail(error) => spec_add_error(reply) == Some(error@),
                    _ => false,
                },
            },
    {
        let reply = match result {
            Ok(reply) => reply,
            Err(_) => {
                return AddStep::Fail(AddError::Failed);
            },
        };
        match build_add_reconfig(reply, args.host) {
            Ok(new) => AddStep::Reconfigure(new),
            Err(error) => AddStep::Fail(error),
        }
    }

    /// Report the reconfiguration command's outcome as the action's terminal
    /// state.
    pub fn on_reconfig(&self, result: &Result<Document, CommandError>) -> (step: AddStep)
        ensures
            match result {
                Ok(_) => step == AddStep::Done,
                Err(_) => step matches AddStep::Fail(error) && error@ == AddErrorModel::Failed,
            },
    {
        match result {
            Ok(_) => AddStep::Done,
            Err(_) => AddStep::Fail(AddError::Failed),
        }
    }
}

} // verus!
