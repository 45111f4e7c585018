//! Tests for version detection: build info decoding and the strategy chain.
use repliagent_mongodb::conf::VersionDetect;
use repliagent_mongodb::conf::VersionProbeCommand;
use repliagent_mongodb::version::chain_next;
use repliagent_mongodb::version::chain_start;
use repliagent_mongodb::version::configure_strategies;
use repliagent_mongodb::version::default_command_conf;
use repliagent_mongodb::version::mongod_version_decode;
use repliagent_mongodb::version::version_from_fields;
use repliagent_mongodb::version::ChainStep;
use repliagent_mongodb::version::StoreVersion;
use repliagent_mongodb::version::StrategyError;
use repliagent_mongodb::version::VersionDecodeError;
use repliagent_mongodb::version::VersionStrategy;

const BUILD_INFO: &str = r#"db version v4.4.13
    Build Info: {
        "version": "4.4.13",
        "gitVersion": "df25c71b8674a78e17468f48bcda5285decb9246",
        "openSSLVersion": "OpenSSL 1.1.1f  31 Mar 2020",
        "modules": [],
        "allocator": "tcmalloc",
        "environment": {
            "distmod": "ubuntu2004",
            "distarch": "x86_64",
            "target_arch": "x86_64"
        }
    }"#;

#[test]
fn build_info_extracted() {
    let data = Vec::from(BUILD_INFO);
    let version = mongod_version_decode(data).unwrap();
    assert_eq!(
        version.checkout,
        Some("df25c71b8674a78e17468f48bcda5285decb9246".into())
    );
    assert_eq!(version.number, "4.4.13".to_string());
    assert_eq!(
        version.extra,
        Some(
            r#"{"openSSLVersion":"OpenSSL 1.1.1f  31 Mar 2020","modules":[],"allocator":"tcmalloc","environment":{"distmod":"ubuntu2004","distarch":"x86_64","target_arch":"x86_64"}}"#.into()
        )
    )
}

#[test]
fn build_info_not_found() {
    let data = Vec::from("not build info {}");
    match mongod_version_decode(data) {
        Ok(version) => panic!("expected error, got version {:?}", version),
        Err(VersionDecodeError::NotInOutput(_)) => (),
        Err(error) => panic!("expected VersionNotInOutput error, got error {:?}", error),
    }
}

#[test]
fn build_info_minimal_fields() {
    let text = r#"Build Info: {"version": "4.4.13", "gitVersion": "abc123"}"#;
    let version = mongod_version_decode(Vec::from(text)).unwrap();
    assert_eq!(version.number, "4.4.13".to_string());
    assert_eq!(version.checkout, Some("abc123".to_string()));
    assert_eq!(version.extra, Some("{}".to_string()));
}

#[test]
fn build_info_not_utf8() {
    let data = vec![0xffu8, 0xfe, 0x00, 0x41];
    match mongod_version_decode(data) {
        Err(VersionDecodeError::NotText) => (),
        other => panic!("expected a text decode error, got {:?}", other),
    }
}

#[test]
fn build_info_malformed_block() {
    let data = Vec::from("Build Info: {not json}");
    match mongod_version_decode(data) {
        Err(VersionDecodeError::InvalidBuildInfo) => (),
        other => panic!("expected a malformed block error, got {:?}", other),
    }
}

#[test]
fn build_info_capture_is_greedy() {
    // The extraction pattern runs through the last closing brace of the
    // text, so a brace after the block spoils the capture.
    let data = Vec::from(r#"Build Info: {"version": "1", "gitVersion": "g"} trailing }"#);
    match mongod_version_decode(data) {
        Err(VersionDecodeError::InvalidBuildInfo) => (),
        other => panic!("expected a malformed block error, got {:?}", other),
    }
}

#[test]
fn version_fields_missing_fail() {
    match version_from_fields(None) {
        Err(VersionDecodeError::InvalidBuildInfo) => (),
        other => panic!("expected a malformed block error, got {:?}", other),
    }
}

#[test]
fn default_probe_command() {
    let conf = default_command_conf();
    assert_eq!(conf.command, "mongod".to_string());
    assert_eq!(conf.args, vec!["--version".to_string()]);
    assert!(conf.env.is_empty());
}

#[test]
fn strategies_default_then_file() {
    let detect = VersionDetect {
        command: None,
        file: Some("/etc/mongod.release".to_string()),
    };
    let chain = configure_strategies(detect);
    assert_eq!(chain.len(), 2);
    match &chain[0] {
        VersionStrategy::Command(conf) => assert_eq!(conf.command, "mongod".to_string()),
        VersionStrategy::File(path) => panic!("expected a command strategy, got file {}", path),
    }
    match &chain[1] {
        VersionStrategy::File(path) => assert_eq!(path, "/etc/mongod.release"),
        VersionStrategy::Command(_) => panic!("expected a file strategy"),
    }
}

#[test]
fn strategies_command_override() {
    let probe = VersionProbeCommand {
        args: vec!["version".to_string()],
        command: "mongosh".to_string(),
        env: Vec::new(),
    };
    let detect = VersionDetect {
        command: Some(probe),
        file: None,
    };
    let chain = configure_strategies(detect);
    assert_eq!(chain.len(), 1);
    match &chain[0] {
        VersionStrategy::Command(conf) => {
            assert_eq!(conf.command, "mongosh".to_string());
            assert_eq!(conf.args, vec!["version".to_string()]);
        }
        VersionStrategy::File(_) => panic!("expected the overridden command strategy"),
    }
}

#[test]
fn chain_returns_second_success_and_stops() {
    let detect = VersionDetect {
        command: None,
        file: Some("/etc/mongod.release".to_string()),
    };
    let chain = configure_strategies(detect);
    match chain_start(&chain) {
        ChainStep::Run(0) => (),
        _ => panic!("the chain must start at the first strategy"),
    }
    let first = chain_next(&chain, 0, Err(StrategyError::Probe("command not found".into())));
    match first {
        ChainStep::Run(1) => (),
        _ => panic!("a failed strategy must hand over to the next one"),
    }
    let version = StoreVersion {
        checkout: Some("abc123".to_string()),
        extra: None,
        number: "4.4.13".to_string(),
    };
    match chain_next(&chain, 1, Ok(version)) {
        ChainStep::Done(found) => assert_eq!(found.number, "4.4.13".to_string()),
        _ => panic!("a successful strategy must finish the chain"),
    }
}

#[test]
fn chain_propagates_last_failure() {
    let detect = VersionDetect { command: None, file: None };
    let chain = configure_strategies(detect);
    match chain_next(&chain, 0, Err(StrategyError::Decode(VersionDecodeError::NotText))) {
        ChainStep::Failed(StrategyError::Decode(VersionDecodeError::NotText)) => (),
        _ => panic!("the last strategy's failure must end the chain"),
    }
}
