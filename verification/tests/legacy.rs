use forgegraph::api_error::{error_detail, error_message, format_api_error};
use forgegraph::legacy::{
    map_legacy_database_connection, map_legacy_database_services, map_legacy_transports,
    mark_legacy_connection_available, mark_legacy_connection_unavailable, LegacyDatabaseConnection,
    LegacyDatabaseService, LegacyTransport,
};
use forgegraph::service::ForgeGraphService;
use forgegraph::status::Status;

fn service(config: serde_json::Value) -> ForgeGraphService {
    ForgeGraphService {
        app_slug: "playtrek".to_string(),
        app_name: "playtrek".to_string(),
        stage: "production".to_string(),
        kind: "postgres".to_string(),
        node_name: "playpath".to_string(),
        node_status: "unknown".to_string(),
        config,
        transports: vec![],
    }
}

fn record(entries: &[(&str, serde_json::Value)]) -> serde_json::Value {
    let mut map = serde_json::Map::new();
    for (key, value) in entries {
        map.insert(key.to_string(), value.clone());
    }
    serde_json::Value::Object(map)
}

#[test]
fn maps_legacy_database_list_rows_to_postgres_services() {
    let rows = vec![LegacyDatabaseService {
        app_slug: "bizpulse".to_string(),
        stage: "production".to_string(),
        node_name: "hetzner-master".to_string(),
        db_name: "bizpulse".to_string(),
        transports: vec![
            LegacyTransport::Mesh {
                host: "100.101.32.120".to_string(),
                port: 5432,
            },
            LegacyTransport::SshTunnel {},
        ],
    }];

    let services = map_legacy_database_services(rows);

    assert_eq!(services.len(), 1);
    assert_eq!(services[0].app_slug, "bizpulse");
    assert_eq!(services[0].app_name, "bizpulse");
    assert_eq!(services[0].kind, "postgres");
    assert_eq!(services[0].transports.len(), 1);
    assert_eq!(services[0].transports[0].host, "100.101.32.120");
    assert_eq!(services[0].config["dbName"], "bizpulse");
}

#[test]
fn formats_trpc_error_message_without_raw_json() {
    let body = r#"{"error":{"json":{"message":"Binding for playtrek/production has no credential secret","code":-32012,"data":{"code":"PRECONDITION_FAILED","httpStatus":412,"path":"database.connection"}}}}"#;

    let status = Status::new(reqwest::StatusCode::PRECONDITION_FAILED.as_u16()).unwrap();
    let message = format_api_error(status, body);

    assert_eq!(
        message,
        "ForgeGraph API error (412 Precondition Failed): Binding for playtrek/production has no credential secret"
    );
}

#[test]
fn marks_legacy_service_unavailable_when_connection_probe_fails() {
    let service = ForgeGraphService {
        app_slug: "playtrek".to_string(),
        app_name: "playtrek".to_string(),
        stage: "production".to_string(),
        kind: "postgres".to_string(),
        node_name: "playpath".to_string(),
        node_status: "unknown".to_string(),
        config: record(&[("dbName", serde_json::Value::from("playpath"))]),
        transports: vec![],
    };

    let service = mark_legacy_connection_unavailable(service, "missing secret".to_string());

    assert_eq!(service.config["connectionAvailable"], false);
    assert_eq!(service.config["connectionError"], "missing secret");
}

#[test]
fn marks_keep_other_entries() {
    let config = record(&[
        ("dbName", serde_json::Value::from("playpath")),
        ("weight", serde_json::Value::from(1.5)),
    ]);
    let service = mark_legacy_connection_available(service(config));
    assert_eq!(service.config["connectionAvailable"], true);
    assert_eq!(service.config["dbName"], "playpath");
    assert_eq!(service.config["weight"], 1.5);
    assert_eq!(service.config.as_object().unwrap().len(), 3);
    assert_eq!(service.app_slug, "playtrek");
    assert_eq!(service.node_name, "playpath");
}

#[test]
fn marks_replace_a_configuration_that_is_no_object() {
    let service = mark_legacy_connection_unavailable(
        service(serde_json::Value::from("text")),
        "gone".to_string(),
    );
    assert_eq!(service.config["connectionAvailable"], false);
    assert_eq!(service.config["connectionError"], "gone");
    assert_eq!(service.config.as_object().unwrap().len(), 2);
}

#[test]
fn marks_the_last_outcome() {
    let service = service(record(&[]));
    let service = mark_legacy_connection_unavailable(service, "gone".to_string());
    let service = mark_legacy_connection_available(service);
    assert_eq!(service.config["connectionAvailable"], true);
    assert_eq!(service.config["connectionError"], "gone");
}

#[test]
fn keeps_mesh_transports_in_order() {
    let transports = map_legacy_transports(vec![
        LegacyTransport::SshTunnel {},
        LegacyTransport::Mesh { host: "a".to_string(), port: 1 },
        LegacyTransport::SshTunnel {},
        LegacyTransport::Mesh { host: "b".to_string(), port: 65535 },
    ]);
    assert_eq!(transports.len(), 2);
    assert_eq!(transports[0].kind, "mesh");
    assert_eq!(transports[0].host, "a");
    assert_eq!(transports[0].port, 1);
    assert_eq!(transports[1].kind, "mesh");
    assert_eq!(transports[1].host, "b");
    assert_eq!(transports[1].port, 65535);
    assert_eq!(map_legacy_transports(vec![]).len(), 0);
}

#[test]
fn maps_a_database_connection() {
    let connection = map_legacy_database_connection(
        "bizpulse",
        "beta",
        LegacyDatabaseConnection {
            user: "owner".to_string(),
            password: "p".to_string(),
            db_name: "biz".to_string(),
            transports: vec![LegacyTransport::Mesh { host: "h".to_string(), port: 5432 }],
        },
    );
    assert_eq!(connection.app_slug, "bizpulse");
    assert_eq!(connection.app_name, "bizpulse");
    assert_eq!(connection.stage, "beta");
    assert_eq!(connection.kind, "postgres");
    assert_eq!(connection.node_name, "");
    assert_eq!(connection.node_status, "unknown");
    assert_eq!(connection.config["dbName"], "biz");
    assert_eq!(connection.config["dbUser"], "owner");
    assert_eq!(connection.config.as_object().unwrap().len(), 2);
    assert_eq!(connection.credentials["dbName"], "biz");
    assert_eq!(connection.credentials["database"], "biz");
    assert_eq!(connection.credentials["username"], "owner");
    assert_eq!(connection.credentials["password"], "p");
    assert_eq!(connection.credentials.as_object().unwrap().len(), 4);
    assert_eq!(connection.transports[0].host, "h");
}

#[test]
fn shows_the_body_where_there_is_no_message() {
    let status = Status::new(500).unwrap();
    let prefix = "ForgeGraph API error (500 Internal Server Error): ";
    for body in [
        "",
        "plain text",
        "{}",
        r#"{"error":{"json":{"message":""}}}"#,
        r#"{"error":{"json":{"message":7}}}"#,
        r#"{"error":{"message":"elsewhere"}}"#,
        r#"[{"error":{"json":{"message":"in a list"}}}]"#,
    ] {
        assert_eq!(format_api_error(status, body), format!("{}{}", prefix, body));
    }
    let odd = Status::new(599).unwrap();
    assert_eq!(
        format_api_error(odd, "x"),
        "ForgeGraph API error (599 <unknown status code>): x"
    );
}

#[test]
fn takes_the_message_from_what_was_read() {
    let inner = record(&[("message", serde_json::Value::from("no"))]);
    let reply = record(&[("error", record(&[("json", inner)]))]);
    assert_eq!(error_detail(Some(&reply), "body"), "no");
    assert_eq!(error_detail(None, "body"), "body");
    assert_eq!(error_message("418 Teapot", "no"), "ForgeGraph API error (418 Teapot): no");
}

#[test]
fn a_status_has_three_digits() {
    assert!(Status::new(99).is_none());
    assert!(Status::new(1000).is_none());
    assert_eq!(Status::new(100).unwrap().code(), 100);
    assert_eq!(Status::new(999).unwrap().code(), 999);
    assert!(!Status::new(199).unwrap().is_success());
    assert!(Status::new(200).unwrap().is_success());
    assert!(Status::new(299).unwrap().is_success());
    assert!(!Status::new(300).unwrap().is_success());
    assert_eq!(Status::new(404).unwrap().text(), "404 Not Found");
}
