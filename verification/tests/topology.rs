//! Tests for the topology extractor.
use repliagent_mongodb::document::Document;
use repliagent_mongodb::document::Value;
use repliagent_mongodb::errors::MongoInfoError;
use repliagent_mongodb::shard::shard;
use repliagent_mongodb::shard::ShardError;
use repliagent_mongodb::shard::ShardRole;

fn member(id: i32, is_self: bool, state: i32, optime: i64) -> Value {
    let mut doc = Document::new();
    doc.push_entry("_id".to_string(), Value::Int32(id));
    if is_self {
        doc.push_entry("self".to_string(), Value::Boolean(true));
    }
    doc.push_entry("name".to_string(), Value::Text(format!("node-{}:27017", id)));
    doc.push_entry("state".to_string(), Value::Int32(state));
    doc.push_entry("optimeDate".to_string(), Value::DateTime(optime));
    Value::Doc(doc)
}

fn status_with_members(members: Vec<Value>) -> Document {
    let mut doc = Document::new();
    doc.push_entry("set".to_string(), Value::Text("rs0".to_string()));
    doc.push_entry("members".to_string(), Value::Array(members));
    doc
}

#[test]
fn lag_is_primary_minus_self() {
    let status = status_with_members(vec![
        member(0, true, 2, 1_000),
        member(1, false, 1, 1_450),
    ]);
    let record = shard(status).unwrap();
    assert_eq!(record.shard_id, "node-0:27017".to_string());
    assert_eq!(record.commit_offset.value, 1_000);
    assert!(matches!(record.role, ShardRole::Secondary));
    assert_eq!(record.lag.unwrap().value, 450);
}

#[test]
fn lag_may_be_negative() {
    let status = status_with_members(vec![
        member(0, true, 2, 2_000),
        member(1, false, 1, 1_200),
    ]);
    let record = shard(status).unwrap();
    assert_eq!(record.lag.unwrap().value, -800);
}

#[test]
fn no_lag_when_self_is_primary() {
    let status = status_with_members(vec![
        member(0, true, 1, 1_000),
        member(1, false, 2, 900),
    ]);
    let record = shard(status).unwrap();
    assert!(record.lag.is_none());
    assert!(matches!(record.role, ShardRole::Primary));
}

#[test]
fn no_lag_without_any_primary() {
    let status = status_with_members(vec![
        member(0, true, 2, 1_000),
        member(1, false, 2, 900),
    ]);
    let record = shard(status).unwrap();
    assert!(record.lag.is_none());
}

#[test]
fn recovering_states_map_to_recovering_role() {
    let status = status_with_members(vec![member(0, true, 3, 1_000)]);
    let record = shard(status).unwrap();
    assert!(matches!(record.role, ShardRole::Recovering));
}

#[test]
fn other_roles_carry_the_state_name() {
    let status = status_with_members(vec![member(0, true, 7, 1_000)]);
    let record = shard(status).unwrap();
    match record.role {
        ShardRole::Other(label) => assert_eq!(label, "ARBITER".to_string()),
        other => panic!("expected an other role, got {:?}", other),
    }
}

#[test]
fn missing_members_list_is_fatal() {
    let mut status = Document::new();
    status.push_entry("set".to_string(), Value::Text("rs0".to_string()));
    let error = shard(status).unwrap_err();
    assert_eq!(error, ShardError::Info(MongoInfoError::ReplicaSetStatusNoMembers));
}

#[test]
fn missing_self_entry_is_fatal() {
    let status = status_with_members(vec![member(0, false, 1, 1_000)]);
    let error = shard(status).unwrap_err();
    assert_eq!(error, ShardError::Info(MongoInfoError::ReplicaSetStatusNoSelf));
}

#[test]
fn missing_name_is_an_invalid_self() {
    let mut doc = Document::new();
    doc.push_entry("_id".to_string(), Value::Int32(0));
    doc.push_entry("self".to_string(), Value::Boolean(true));
    doc.push_entry("state".to_string(), Value::Int32(1));
    doc.push_entry("optimeDate".to_string(), Value::DateTime(1_000));
    let status = status_with_members(vec![Value::Doc(doc)]);
    let error = shard(status).unwrap_err();
    assert_eq!(error, ShardError::Info(MongoInfoError::ReplicaSetStatusInvalidSelf));
}

#[test]
fn unrecognised_state_code_is_reported() {
    let status = status_with_members(vec![member(0, true, 4, 1_000)]);
    match shard(status).unwrap_err() {
        ShardError::State(error) => assert_eq!(error.state, 4),
        other => panic!("expected a state parse error, got {:?}", other),
    }
}
