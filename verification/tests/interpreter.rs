//! Tests for the member state codec and the status interpreter.
use repliagent_mongodb::client::replica_set_not_initialised;
use repliagent_mongodb::client::CommandError;
use repliagent_mongodb::constants::MemberState;
use repliagent_mongodb::document::Document;
use repliagent_mongodb::document::Value;
use repliagent_mongodb::errors::MemberStateParseError;
use repliagent_mongodb::status::get;
use repliagent_mongodb::status::NodeStatus;
use repliagent_mongodb::text::i32_text;

fn status_reply(state: i32) -> Result<Document, CommandError> {
    let mut doc = Document::new();
    doc.push_entry("myState".to_string(), Value::Int32(state));
    Ok(doc)
}

#[test]
fn member_state_codes_round_trip() {
    for code in [0, 1, 2, 3, 5, 6, 7, 8, 9, 10] {
        let state = MemberState::decode(code).unwrap();
        assert_eq!(state.code(), code);
    }
}

#[test]
fn member_state_rejects_unknown_codes() {
    for code in [-1, 4, 11, 42, i32::MIN, i32::MAX] {
        let error = MemberState::decode(code).unwrap_err();
        assert_eq!(error.state, code);
    }
}

#[test]
fn member_state_names() {
    assert_eq!(MemberState::Primary.name(), "PRIMARY".to_string());
    assert_eq!(MemberState::Startup2.name(), "STARTUP2".to_string());
    assert_eq!(MemberState::Removed.name(), "REMOVED".to_string());
}

#[test]
fn status_sentinel_error_is_not_in_cluster() {
    let result = Err(CommandError::Server {
        code: 94,
        message: "no replset config has been received".to_string(),
    });
    assert!(matches!(get(&result), NodeStatus::NotInCluster));
}

#[test]
fn status_connection_errors_are_unavailable() {
    let result = Err(CommandError::Connection("server selection timed out".to_string()));
    assert!(matches!(get(&result), NodeStatus::Unavailable));
    let result = Err(CommandError::Authentication("SCRAM failure".to_string()));
    assert!(matches!(get(&result), NodeStatus::Unavailable));
}

#[test]
fn status_other_errors_keep_their_message() {
    let result = Err(CommandError::Server { code: 13, message: "unauthorized".to_string() });
    match get(&result) {
        NodeStatus::Unknown(reason) => assert_eq!(reason, "unauthorized".to_string()),
        other => panic!("expected an unknown status, got {:?}", other),
    }
    let result = Err(CommandError::Malformed("truncated reply".to_string()));
    match get(&result) {
        NodeStatus::Unknown(reason) => assert_eq!(reason, "truncated reply".to_string()),
        other => panic!("expected an unknown status, got {:?}", other),
    }
}

#[test]
fn status_state_table() {
    assert!(matches!(get(&status_reply(0)), NodeStatus::Unhealthy));
    assert!(matches!(get(&status_reply(1)), NodeStatus::Healthy));
    assert!(matches!(get(&status_reply(2)), NodeStatus::Healthy));
    assert!(matches!(get(&status_reply(3)), NodeStatus::Unhealthy));
    assert!(matches!(get(&status_reply(5)), NodeStatus::JoiningCluster));
    assert!(matches!(get(&status_reply(9)), NodeStatus::Unhealthy));
    assert!(matches!(get(&status_reply(10)), NodeStatus::NotInCluster));
}

#[test]
fn status_undeterminable_states_name_themselves() {
    match get(&status_reply(7)) {
        NodeStatus::Unknown(reason) => assert_eq!(
            reason,
            "Unable to determine status of mode with replica set state ARBITER".to_string()
        ),
        other => panic!("expected an unknown status, got {:?}", other),
    }
}

#[test]
fn status_missing_state_defaults_to_unknown() {
    let result = Ok(Document::new());
    match get(&result) {
        NodeStatus::Unknown(reason) => assert_eq!(
            reason,
            "Unable to determine status of mode with replica set state UNKNOWN".to_string()
        ),
        other => panic!("expected an unknown status, got {:?}", other),
    }
}

#[test]
fn status_unrecognised_state_reports_the_code() {
    match get(&status_reply(42)) {
        NodeStatus::Unknown(reason) => {
            assert_eq!(reason, "unrecognised member state code 42".to_string())
        }
        other => panic!("expected an unknown status, got {:?}", other),
    }
}

#[test]
fn not_initialised_check_matches_only_the_sentinel() {
    let sentinel = CommandError::Server { code: 94, message: "not initialised".to_string() };
    assert!(replica_set_not_initialised(&sentinel));
    let other = CommandError::Server { code: 13, message: "unauthorized".to_string() };
    assert!(!replica_set_not_initialised(&other));
    let connection = CommandError::Connection("refused".to_string());
    assert!(!replica_set_not_initialised(&connection));
}

#[test]
fn parse_error_message_names_the_code() {
    let error = MemberStateParseError::from(4);
    assert_eq!(error.message(), "unrecognised member state code 4".to_string());
}

#[test]
fn decimal_rendering() {
    assert_eq!(i32_text(0), "0".to_string());
    assert_eq!(i32_text(7), "7".to_string());
    assert_eq!(i32_text(120), "120".to_string());
    assert_eq!(i32_text(-42), "-42".to_string());
    assert_eq!(i32_text(i32::MAX), "2147483647".to_string());
    assert_eq!(i32_text(i32::MIN), "-2147483648".to_string());
}
