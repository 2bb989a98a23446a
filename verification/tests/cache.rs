use forgegraph::cache::{
    cache_row, call_failed, list_cached, row_of, CacheRow, CacheSync, CachedService, SyncAction,
    SyncProgress,
};
use forgegraph::client::{list_services, request_failed, CallFailure, Reading, ServicesReading};
use forgegraph::service::{ForgeGraphService, Transport};
use forgegraph::settings::{
    forgegraph_is_configured, read_fg_settings, settings_in, settle_settings, stored_settings,
    Setting, SettingsStep,
};
use forgegraph::status::Status;
use forgegraph::text::{contains, decimal, same, starts_with, trim_end};

fn service(app_slug: &str, config: &str) -> ForgeGraphService {
    ForgeGraphService {
        app_slug: app_slug.to_string(),
        app_name: "Name".to_string(),
        stage: "beta".to_string(),
        kind: "redis".to_string(),
        node_name: "node".to_string(),
        node_status: "online".to_string(),
        config: serde_json::from_str(config).unwrap(),
        transports: vec![Transport { kind: "mesh".to_string(), host: "h".to_string(), port: 1 }],
    }
}

fn row(app_slug: &str) -> CacheRow {
    cache_row(&service(app_slug, "{}"), Some("[]".to_string()))
}

/// A table with one transaction, in which the step at `failing` fails.
fn run(rows: Vec<CacheRow>, failing: Option<usize>, table: &mut Vec<String>) -> Result<(), String> {
    run_sync(CacheSync::new(rows), failing, table)
}

fn run_sync(
    mut sync: CacheSync,
    failing: Option<usize>,
    table: &mut Vec<String>,
) -> Result<(), String> {
    let mut open: Vec<String> = vec![];
    let mut step = 0;
    loop {
        let outcome = if failing == Some(step) {
            Err("disk full".to_string())
        } else {
            match sync.action() {
                SyncAction::Begin => open = table.clone(),
                SyncAction::Clear => open.clear(),
                SyncAction::Insert(row) => open.push(row.app_slug.clone()),
                SyncAction::Commit => *table = open.clone(),
            }
            Ok(())
        };
        match sync.record(outcome) {
            SyncProgress::Next(next) => sync = next,
            SyncProgress::Done => return Ok(()),
            SyncProgress::Failed(error) => return Err(error),
        }
        step = step + 1;
    }
}

#[test]
fn a_row_holds_the_configuration_as_json() {
    let some = service("app", r#"{ "dbIndex" : 3, "a": [ true, null, "x\ny" ] }"#);
    let row = cache_row(&some, Some("[1]".to_string()));
    assert_eq!(row.app_slug, "app");
    assert_eq!(row.app_name, "Name");
    assert_eq!(row.stage, "beta");
    assert_eq!(row.kind, "redis");
    assert_eq!(row.node_name, "node");
    assert_eq!(row.node_status, "online");
    assert_eq!(row.config, r#"{"a":[true,null,"x\ny"],"dbIndex":3}"#);
    assert_eq!(row.transports, "[1]");
    assert_eq!(cache_row(&some, None).transports, "");
    assert_eq!(row_of(&some, "c".to_string(), "t".to_string()).config, "c");
}

#[test]
fn a_cached_configuration_reads_back() {
    let deepest = format!("{}null{}", "[".repeat(127), "]".repeat(127));
    for config in [
        "null",
        "true",
        "[]",
        "{}",
        "0",
        "18446744073709551615",
        "-9223372036854775808",
        r#"{"a":{"b":[1,-2,"\u0000\"\\\u00e9\ud83d\ude00\u007f",false,null,{}]},"":""}"#,
        r#"{"$serde_json::private::RawValue":"1"}"#,
        r#"{"$serde_json::private::Number":"1"}"#,
        &deepest,
    ] {
        let some = service("app", config);
        let row = cache_row(&some, None);
        let read: serde_json::Value = serde_json::from_str(&row.config).unwrap();
        assert_eq!(read, some.config);
    }
    let mut deeper: serde_json::Value = serde_json::from_str(&deepest).unwrap();
    deeper = serde_json::Value::Array(vec![deeper]);
    let too_deep = ForgeGraphService { config: deeper, ..service("app", "null") };
    assert!(serde_json::from_str::<serde_json::Value>(&cache_row(&too_deep, None).config).is_err());
}

#[test]
fn a_sync_replaces_the_cache() {
    let mut table = vec!["old".to_string()];
    assert_eq!(run(vec![row("a"), row("b")], None, &mut table), Ok(()));
    assert_eq!(table, vec!["a".to_string(), "b".to_string()]);
    assert_eq!(run(vec![], None, &mut table), Ok(()));
    assert!(table.is_empty());
}

#[test]
fn a_failed_sync_changes_nothing() {
    let errors = [
        "Failed to begin transaction: disk full",
        "Failed to clear forgegraph_services: disk full",
        "Failed to insert service a: disk full",
        "Failed to insert service b: disk full",
        "Failed to commit sync transaction: disk full",
    ];
    for (step, error) in errors.iter().enumerate() {
        let mut table = vec!["old".to_string()];
        let outcome = run(vec![row("a"), row("b")], Some(step), &mut table);
        assert_eq!(outcome, Err(error.to_string()));
        assert_eq!(table, vec!["old".to_string()]);
    }
}

#[test]
fn a_rejected_token_clears_the_cache() {
    let call = list_services("https://f.com", "t").unwrap();
    let failure = match call.receive(Status::new(401).unwrap()) {
        ServicesReading::Own(Reading::Rejected(failure)) => failure,
        _ => panic!("the token was not accepted"),
    };
    let failed = call_failed(failure);
    assert_eq!(failed.error, "ForgeGraph token is invalid or expired.");
    let mut table = vec!["old".to_string()];
    assert_eq!(run_sync(failed.clearing.unwrap(), None, &mut table), Ok(()));
    assert!(table.is_empty());
}

#[test]
fn other_failures_leave_the_cache() {
    let failed = call_failed(CallFailure::Other(request_failed("dns")));
    assert_eq!(failed.error, "ForgeGraph request failed: dns");
    assert!(failed.clearing.is_none());
    assert_eq!(CallFailure::Rejected("a".to_string()).into_error(), "a");
    assert_eq!(CallFailure::Other("b".to_string()).into_error(), "b");
}

#[test]
fn cached_services_are_listed() {
    let cached = CachedService {
        id: 1,
        app_slug: "a".to_string(),
        app_name: "A".to_string(),
        stage: "s".to_string(),
        kind: "redis".to_string(),
        node_name: "n".to_string(),
        node_status: "online".to_string(),
        config: None,
        transports: Some("[]".to_string()),
        synced_at: "now".to_string(),
    };
    assert_eq!(list_cached(Ok(vec![cached])).unwrap()[0].id, 1);
    assert_eq!(
        list_cached(Err("locked".to_string())).err(),
        Some("Failed to list cached services: locked".to_string())
    );
}

#[test]
fn complete_cli_credentials_come_first() {
    match read_fg_settings(Some(r#"{"server":"https://f.com","token":"t","x":1}"#)) {
        SettingsStep::Found(server, token) => {
            assert_eq!(server, "https://f.com");
            assert_eq!(token, "t");
        }
        SettingsStep::ReadTable => panic!("the credentials are complete"),
    }
}

#[test]
fn other_cli_credentials_are_passed_over() {
    for contents in [
        "",
        "not json",
        "[]",
        r#"{"server":"https://f.com"}"#,
        r#"{"server":"https://f.com","token":""}"#,
        r#"{"server":"","token":"t"}"#,
        r#"{"server":"https://f.com","token":5}"#,
    ] {
        assert!(matches!(read_fg_settings(Some(contents)), SettingsStep::ReadTable));
    }
    assert!(matches!(read_fg_settings(None), SettingsStep::ReadTable));
    let credentials: serde_json::Value = serde_json::from_str(r#"{"server":"s","token":"t"}"#).unwrap();
    assert_eq!(settings_in(&credentials), Some(("s".to_string(), "t".to_string())));
}

#[test]
fn stored_settings_need_both_rows() {
    let server = Some("https://f.com".to_string());
    let token = Some("t".to_string());
    let both = stored_settings(server.clone(), token.clone());
    assert_eq!(both, Ok(("https://f.com".to_string(), "t".to_string())));
    assert_eq!(forgegraph_is_configured(&both), Ok(true));
    let no_server = stored_settings(None, token);
    assert_eq!(no_server, Err("ForgeGraph server URL not configured".to_string()));
    assert_eq!(forgegraph_is_configured(&no_server), Ok(false));
    assert_eq!(
        stored_settings(server, None),
        Err("ForgeGraph API token not configured".to_string())
    );
    assert_eq!(
        stored_settings(None, None),
        Err("ForgeGraph server URL not configured".to_string())
    );
}

#[test]
fn empty_rows_count_as_missing() {
    let text = |text: &str| Some(text.to_string());
    let no_server = Err("ForgeGraph server URL not configured".to_string());
    let no_token = Err("ForgeGraph API token not configured".to_string());
    assert_eq!(stored_settings(text(""), text("")), no_server);
    assert_eq!(stored_settings(text(""), text("t")), no_server);
    assert_eq!(stored_settings(text(""), None), no_server);
    assert_eq!(stored_settings(None, text("")), no_server);
    assert_eq!(stored_settings(text("https://f.com"), text("")), no_token);
    assert_eq!(
        forgegraph_is_configured(&stored_settings(text("https://f.com"), text(""))),
        Ok(false)
    );
}

#[test]
fn settings_are_settled_by_the_step_and_the_rows() {
    let text = |text: &str| Ok(Some(text.to_string()));
    let failed = |error: &str| Err(error.to_string());
    let cli = || read_fg_settings(Some(r#"{"server":"https://f.com","token":"t"}"#));
    let table = || read_fg_settings(None);
    assert!(!cli().reads_table());
    assert!(table().reads_table());
    let from_cli = Ok(("https://f.com".to_string(), "t".to_string()));
    assert_eq!(settle_settings(cli(), text("s"), text("u")), from_cli);
    assert_eq!(settle_settings(cli(), failed("x"), failed("y")), from_cli);
    let from_table = Ok(("s".to_string(), "u".to_string()));
    assert_eq!(settle_settings(table(), text("s"), text("u")), from_table);
    let error = |server, token| settle_settings(table(), server, token).unwrap_err();
    assert_eq!(error(failed("x"), failed("y")), "Failed to read forgegraph_server setting: x");
    assert_eq!(error(Ok(None), failed("y")), "Failed to read forgegraph_token setting: y");
    assert_eq!(error(Ok(None), text("u")), "ForgeGraph server URL not configured");
    assert_eq!(error(text("s"), text("")), "ForgeGraph API token not configured");
}

#[test]
fn settings_rows_are_named() {
    assert_eq!(Setting::Server.key(), "forgegraph_server");
    assert_eq!(Setting::Token.key(), "forgegraph_token");
    assert_eq!(Setting::Server.read(Ok(Some("x".to_string()))), Ok(Some("x".to_string())));
    assert_eq!(Setting::Server.read(Ok(None)), Ok(None));
    assert_eq!(
        Setting::Token.read(Err("locked".to_string())),
        Err("Failed to read forgegraph_token setting: locked".to_string())
    );
}

#[test]
fn texts_are_taken_by_characters() {
    assert_eq!(decimal(0), "0");
    assert_eq!(decimal(10), "10");
    assert_eq!(decimal(u64::MAX), u64::MAX.to_string());
    assert!(same("\u{e9}a", "\u{e9}a"));
    assert!(!same("a", "ab"));
    assert!(starts_with("\u{e9}ab", "\u{e9}a"));
    assert!(!starts_with("a", "ab"));
    assert!(starts_with("a", ""));
    assert_eq!(trim_end("\u{e9}//x//", '/'), "\u{e9}//x");
    assert_eq!(trim_end("//", '/'), "");
    assert!(contains("x\u{e9}ab", "\u{e9}a"));
    assert!(contains("aab", "ab"));
    assert!(contains("ab", "ab"));
    assert!(contains("", ""));
    assert!(!contains("a", "ab"));
    assert!(!contains("abba", "bab"));
}
