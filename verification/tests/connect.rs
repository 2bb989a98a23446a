use forgegraph::connect::{
    connect_response, connection_config, credential_string, fg_pool_key, forgegraph_pool_key,
    pick_transport, plan_connect, ConnectionStatus,
};
use forgegraph::legacy::{
    map_legacy_database_connection, LegacyDatabaseConnection, LegacyTransport,
};
use forgegraph::service::{connection_debug, ForgeGraphConnection, Transport};

fn value(text: &str) -> serde_json::Value {
    serde_json::from_str(text).unwrap()
}

fn transport(kind: &str, host: &str, port: u16) -> Transport {
    Transport { kind: kind.to_string(), host: host.to_string(), port }
}

fn connection(transports: Vec<Transport>, credentials: &str) -> ForgeGraphConnection {
    ForgeGraphConnection {
        app_slug: "app".to_string(),
        app_name: "App".to_string(),
        stage: "prod \"1\"".to_string(),
        kind: "postgres".to_string(),
        node_name: "node".to_string(),
        node_status: "online".to_string(),
        config: value("{}"),
        transports,
        credentials: value(credentials),
    }
}

#[test]
fn pool_keys_name_the_service() {
    assert_eq!(fg_pool_key("app", "production", "redis"), "fg:app:production:redis");
    assert_eq!(
        forgegraph_pool_key("a".to_string(), "b".to_string(), "c".to_string()),
        Ok("fg:a:b:c".to_string())
    );
    assert_ne!(fg_pool_key("a:b", "c", "d"), fg_pool_key("a:b", "x", "d"));
    assert_eq!(fg_pool_key("a:b", "c", "d"), fg_pool_key("a", "b:c", "d"));
}

#[test]
fn the_first_key_with_a_text_counts() {
    let credentials = value(r#"{"database":5,"dbName":"d","user":"u"}"#);
    assert_eq!(credential_string(&credentials, &["database", "dbName"]), Some("d".to_string()));
    assert_eq!(credential_string(&credentials, &["user", "dbName"]), Some("u".to_string()));
    assert_eq!(credential_string(&credentials, &["database"]), None);
    assert_eq!(credential_string(&credentials, &[]), None);
    assert_eq!(credential_string(&value("[1]"), &["user"]), None);
}

#[test]
fn only_mesh_transports_are_used() {
    let transports = vec![
        transport("ssh", "s", 22),
        transport("mesh", "m", 5432),
        transport("mesh", "n", 5433),
    ];
    assert_eq!(pick_transport(&transports).unwrap().host, "m");
    let others = vec![transport("ssh", "s", 22), transport("tcp", "t", 23)];
    assert!(pick_transport(&others).is_none());
    assert!(pick_transport(&vec![]).is_none());
    for kind in ["postgres", "redis"] {
        let plan = plan_connect("a", "s", kind, &connection(others.clone(), "{}"));
        assert_eq!(plan.err(), Some("No transports available for this service".to_string()));
        let plan = plan_connect("a", "s", kind, &connection(transports.clone(), "{}"));
        assert_eq!(plan.ok().unwrap().config.host, Some("m".to_string()));
    }
}

#[test]
fn postgres_is_configured() {
    let connection = connection(
        vec![transport("mesh", "100.64.0.1", 65535)],
        r#"{"dbName":"d","dbUser":"u","password":"p"}"#,
    );
    let config = connection_config("postgres", &connection).ok().unwrap();
    assert_eq!(config.db_type, "postgres");
    assert_eq!(config.host, Some("100.64.0.1".to_string()));
    assert_eq!(config.port, Some(65535));
    assert_eq!(config.database, Some("d".to_string()));
    assert_eq!(config.username, Some("u".to_string()));
    assert_eq!(config.password, Some("p".to_string()));
    assert_eq!(config.ssl, Some(true));
    assert_eq!(config.file_path, None);
    assert!(!config.ssh_enabled);
    assert_eq!(config.ssh_host, None);
    assert_eq!(config.ssh_port, None);
    assert_eq!(config.ssh_user, None);
    assert_eq!(config.ssh_password, None);
    assert_eq!(config.ssh_key_path, None);
}

#[test]
fn redis_is_configured() {
    let transports = vec![transport("mesh", "h", 6379)];
    let full = connection(
        transports.clone(),
        r#"{"dbIndex":18446744073709551615,"username":"u","password":"p"}"#,
    );
    let config = connection_config("redis", &full).ok().unwrap();
    assert_eq!(config.db_type, "redis");
    assert_eq!(config.database, Some("18446744073709551615".to_string()));
    assert_eq!(config.username, Some("u".to_string()));
    assert_eq!(config.password, Some("p".to_string()));
    assert_eq!(config.ssl, Some(false));
    for credentials in [r#"{"dbIndex":-1}"#, r#"{"dbIndex":1.5}"#, r#"{"dbIndex":"2"}"#, "null"] {
        let config = connection_config("redis", &connection(transports.clone(), credentials));
        let config = config.ok().unwrap();
        assert_eq!(config.database, None);
        assert_eq!(config.username, None);
        assert_eq!(config.password, None);
    }
    let zero = connection(transports, r#"{"dbIndex":0}"#);
    assert_eq!(
        connection_config("redis", &zero).ok().unwrap().database,
        Some("0".to_string())
    );
}

#[test]
fn other_services_are_refused() {
    let some = connection(vec![transport("mesh", "h", 1)], "{}");
    assert_eq!(
        connection_config("mysql", &some).err(),
        Some("Unsupported service kind: mysql".to_string())
    );
    let none = connection(vec![], "{}");
    for kind in ["postgres", "mysql"] {
        assert_eq!(
            connection_config(kind, &none).err(),
            Some("No transports available for this service".to_string())
        );
    }
}

#[test]
fn a_plan_holds_the_pool_key() {
    let some = connection(vec![transport("mesh", "h", 1)], "{}");
    let plan = plan_connect("a", "s", "redis", &some).ok().unwrap();
    assert_eq!(plan.pool_key, "fg:a:s:redis");
    assert_eq!(plan.config.host, Some("h".to_string()));
    assert_eq!(
        plan_connect("a", "s", "x", &some).err(),
        Some("Unsupported service kind: x".to_string())
    );
}

#[test]
fn a_database_connects_under_its_own_name() {
    let connection = map_legacy_database_connection(
        "app",
        "beta",
        LegacyDatabaseConnection {
            user: "u".to_string(),
            password: "p".to_string(),
            db_name: "d".to_string(),
            transports: vec![
                LegacyTransport::SshTunnel {},
                LegacyTransport::Mesh { host: "h".to_string(), port: 5432 },
            ],
        },
    );
    let config = connection_config("postgres", &connection).ok().unwrap();
    assert_eq!(config.host, Some("h".to_string()));
    assert_eq!(config.port, Some(5432));
    assert_eq!(config.database, Some("d".to_string()));
    assert_eq!(config.username, Some("u".to_string()));
    assert_eq!(config.password, Some("p".to_string()));
}

#[test]
fn the_outcome_of_connecting_is_reported() {
    let up = connect_response(Ok(()));
    assert_eq!(up.status, ConnectionStatus::Connected);
    assert_eq!(up.error, None);
    for error in ["refused", "connection refused", "", "Connection refuse", "timed  out"] {
        let down = connect_response(Err(error.to_string()));
        assert_eq!(down.status, ConnectionStatus::Disconnected);
        assert_eq!(down.error, Some(error.to_string()));
    }
}

#[test]
fn an_unreachable_node_is_reported_as_such() {
    for error in [
        "Connection refused",
        "pool: Connection refused (os error 111)",
        "operation timed out",
        "timed out \u{e9}",
    ] {
        let down = connect_response(Err(error.to_string()));
        assert_eq!(down.status, ConnectionStatus::Disconnected);
        assert_eq!(
            down.error,
            Some("Cannot reach node — is Tailscale connected?".to_string())
        );
    }
}

#[test]
fn debugging_hides_credentials() {
    let some = connection(vec![], r#"{"password":"secret"}"#);
    let expected = "ForgeGraphConnection { app_slug: \"app\", stage: \"prod \\\"1\\\"\", kind: \"postgres\", node_name: \"node\", credentials: \"[REDACTED]\" }";
    assert_eq!(some.debug_text(), expected);
    let other = connection(vec![transport("mesh", "h", 1)], r#"{"password":"other"}"#);
    assert_eq!(other.debug_text(), expected);
    assert_eq!(
        connection_debug("\"app\"", "\"prod \\\"1\\\"\"", "\"postgres\"", "\"node\""),
        expected
    );
}

#[test]
fn clones_are_equal() {
    let some = connection(vec![transport("mesh", "h", 1)], r#"{"password":"p"}"#);
    let copy = some.clone();
    assert_eq!(copy.app_name, "App");
    assert_eq!(copy.transports[0].host, "h");
    assert_eq!(copy.credentials, some.credentials);
}
