//! Tests for configuration handling, client settings and document access.
use repliagent_mongodb::client::initialiser;
use repliagent_mongodb::conf::apply_overrides;
use repliagent_mongodb::conf::Addresses;
use repliagent_mongodb::conf::Conf;
use repliagent_mongodb::document::Document;
use repliagent_mongodb::document::Value;
use repliagent_mongodb::document::ValueAccessError;
use repliagent_mongodb::errors::ClientError;
use repliagent_mongodb::errors::ConfError;
use repliagent_mongodb::run;
use repliagent_mongodb::Cli;
use repliagent_mongodb::Mode;

#[test]
fn conf_defaults() {
    let conf = Conf::default();
    assert!(conf.addresses.cluster.is_none());
    assert_eq!(conf.addresses.local, Addresses::default_local());
    assert_eq!(conf.addresses.local, "localhost:27017".to_string());
    assert!(conf.connection_timeout.is_none());
    assert!(conf.credentials.is_none());
    assert!(conf.heartbeat_frequency.is_none());
    assert!(conf.max_idle_time.is_none());
    assert!(conf.tls.is_none());
    assert!(conf.version_detect.command.is_none());
    assert!(conf.version_detect.file.is_none());
}

#[test]
fn overrides_fill_the_cluster_address() {
    let mut conf = Conf::default();
    let outcome = apply_overrides(&mut conf, Some("node-0.cluster:27017".to_string()));
    assert!(outcome.is_ok());
    assert_eq!(conf.addresses.cluster, Some("node-0.cluster:27017".to_string()));
}

#[test]
fn overrides_keep_a_configured_cluster_address() {
    let mut conf = Conf::default();
    conf.addresses.cluster = Some("configured:27017".to_string());
    let outcome = apply_overrides(&mut conf, None);
    assert!(outcome.is_ok());
    assert_eq!(conf.addresses.cluster, Some("configured:27017".to_string()));
}

#[test]
fn overrides_demand_a_cluster_address() {
    let mut conf = Conf::default();
    let outcome = apply_overrides(&mut conf, None);
    assert_eq!(outcome.unwrap_err(), ConfError::NoClusterAddress);
}

#[test]
fn client_settings_for_a_direct_connection() {
    let mut conf = Conf::default();
    conf.connection_timeout = Some(3);
    let settings = initialiser().client_settings(conf);
    assert_eq!(settings.app_name, "repliagent-mongo".to_string());
    assert_eq!(settings.host, "localhost:27017".to_string());
    assert!(settings.direct_connection);
    assert_eq!(settings.server_selection_timeout_ms, 500);
    assert_eq!(settings.connect_timeout_secs, Some(3));
    assert!(settings.credentials.is_none());
    assert!(settings.tls.is_none());
}

#[test]
fn run_plans_the_selected_mode() {
    let args = Cli { config: "mongoagent.yaml".to_string(), mode: Mode::ReplicaSet };
    let plan = run(args);
    assert_eq!(plan.config, "mongoagent.yaml".to_string());
    assert_eq!(plan.mode, Mode::ReplicaSet);
}

#[test]
fn invalid_address_error_carries_the_address() {
    match ClientError::address_not_valid("not a host".to_string()) {
        ClientError::AddressNotValid(address) => assert_eq!(address, "not a host".to_string()),
        ClientError::CreateFailed => panic!("expected an address error"),
    }
}

#[test]
fn document_reads_each_field_shape() {
    let mut doc = Document::new();
    doc.push_entry("flag".to_string(), Value::Boolean(true));
    doc.push_entry("count".to_string(), Value::Int32(7));
    doc.push_entry("when".to_string(), Value::DateTime(1_234));
    doc.push_entry("name".to_string(), Value::Text("rs0".to_string()));
    doc.push_entry("items".to_string(), Value::Array(vec![Value::Int32(1)]));
    doc.push_entry("inner".to_string(), Value::Doc(Document::new()));
    assert_eq!(doc.get_bool("flag"), Ok(true));
    assert_eq!(doc.get_i32("count"), Ok(7));
    assert_eq!(doc.get_datetime("when"), Ok(1_234));
    assert_eq!(doc.get_str("name").unwrap().as_str(), "rs0");
    assert_eq!(doc.get_array("items").unwrap().len(), 1);
    assert!(doc.get_document("inner").unwrap().entries.is_empty());
    assert!(doc.contains_key("flag"));
    assert!(!doc.contains_key("missing"));
}

#[test]
fn document_reports_why_a_read_fails() {
    let mut doc = Document::new();
    doc.push_entry("count".to_string(), Value::Text("seven".to_string()));
    assert_eq!(doc.get_i32("count"), Err(ValueAccessError::UnexpectedType));
    assert_eq!(doc.get_i32("missing"), Err(ValueAccessError::NotPresent));
}

#[test]
fn document_reads_the_first_entry_with_a_key() {
    let mut doc = Document::new();
    doc.push_entry("count".to_string(), Value::Int32(1));
    doc.push_entry("count".to_string(), Value::Int32(2));
    assert_eq!(doc.get_i32("count"), Ok(1));
    assert_eq!(doc.position("count"), Some(0));
}
