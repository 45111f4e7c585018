//! Tests for the node information extractors.
use repliagent_mongodb::client::CommandError;
use repliagent_mongodb::document::Document;
use repliagent_mongodb::document::Value;
use repliagent_mongodb::errors::MongoInfoError;
use repliagent_mongodb::info::feature_compatibility_version;
use repliagent_mongodb::info::oplog_size;
use repliagent_mongodb::info::set_name;

fn connection_error() -> Result<Document, CommandError> {
    Err(CommandError::Connection("refused".to_string()))
}

#[test]
fn feature_compatibility_is_extracted() {
    let mut fcv = Document::new();
    fcv.push_entry("version".to_string(), Value::Text("4.4".to_string()));
    let mut params = Document::new();
    params.push_entry("featureCompatibilityVersion".to_string(), Value::Doc(fcv));
    let version = feature_compatibility_version(&Ok(params));
    assert_eq!(version, Ok("4.4".to_string()));
}

#[test]
fn feature_compatibility_needs_a_successful_command() {
    let version = feature_compatibility_version(&connection_error());
    assert_eq!(version, Err(MongoInfoError::FeatCompatVerUnknown));
    let version = feature_compatibility_version(&Ok(Document::new()));
    assert_eq!(version, Err(MongoInfoError::FeatCompatVerUnknown));
}

#[test]
fn feature_compatibility_needs_the_version_value() {
    let mut params = Document::new();
    params.push_entry(
        "featureCompatibilityVersion".to_string(),
        Value::Doc(Document::new()),
    );
    let version = feature_compatibility_version(&Ok(params));
    assert_eq!(version, Err(MongoInfoError::FeatCompatVerNotSet));
}

#[test]
fn oplog_size_is_extracted() {
    let mut stats = Document::new();
    stats.push_entry("maxSize".to_string(), Value::Int32(990));
    assert_eq!(oplog_size(&Ok(stats)), Ok(990));
}

#[test]
fn oplog_size_reports_both_failure_modes() {
    assert_eq!(
        oplog_size(&connection_error()),
        Err(MongoInfoError::OplogStatsUnknown)
    );
    assert_eq!(
        oplog_size(&Ok(Document::new())),
        Err(MongoInfoError::OplogStatsNoSize)
    );
}

#[test]
fn set_name_is_extracted() {
    let mut status = Document::new();
    status.push_entry("set".to_string(), Value::Text("rs0".to_string()));
    assert_eq!(set_name(&Ok(status)), Ok("rs0".to_string()));
}

#[test]
fn set_name_reports_both_failure_modes() {
    assert_eq!(
        set_name(&connection_error()),
        Err(MongoInfoError::ReplicaSetStatusUnknown)
    );
    assert_eq!(
        set_name(&Ok(Document::new())),
        Err(MongoInfoError::ReplicaSetStatusNoName)
    );
}
