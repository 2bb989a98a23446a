use forgegraph::cache::cache_row;
use forgegraph::client::{
    client_failed, get_connection, input_address, list_services, payload, procedure_address,
    refused, request_failed, ConnectionReading, DatabasesCall, Probing, Reading, ServicesReading,
};
use forgegraph::legacy::{LegacyDatabaseConnection, LegacyDatabaseService, LegacyTransport};
use forgegraph::service::{TrpcData, TrpcResponse, TrpcResult};
use forgegraph::status::Status;

fn status(code: u16) -> Status {
    Status::new(code).unwrap()
}

fn plain<T>(value: T) -> TrpcResponse<T> {
    TrpcResponse { result: TrpcResult { data: TrpcData::Plain(value) } }
}

fn row(app_slug: &str) -> LegacyDatabaseService {
    LegacyDatabaseService {
        app_slug: app_slug.to_string(),
        stage: "production".to_string(),
        node_name: "node".to_string(),
        db_name: "db".to_string(),
        transports: vec![],
    }
}

fn databases_call() -> DatabasesCall {
    match list_services("https://forgegraf.com", "fg_1").unwrap().receive(status(404)) {
        ServicesReading::Databases(call) => call,
        ServicesReading::Own(_) => panic!("databases are listed instead"),
    }
}

#[test]
fn only_https_servers_are_asked() {
    for server in ["", "/", "http://forgegraf.com", "HTTPS://forgegraf.com", "https:/x", "https://"] {
        let error = "ForgeGraph server URL must use HTTPS";
        assert_eq!(list_services(server, "t").err().unwrap(), error);
        assert_eq!(get_connection(server, "t", "a", "s", "postgres").err().unwrap(), error);
    }
    assert!(list_services("https://x", "t").is_ok());
}

#[test]
fn services_are_listed_with_the_token() {
    let request = list_services("https://forgegraf.com", "fg_1").unwrap().request();
    assert_eq!(request.url, "https://forgegraf.com/api/trpc/services.list");
    assert_eq!(request.authorization, "Bearer fg_1");
}

#[test]
fn trailing_slashes_make_no_difference() {
    for server in ["https://f.com", "https://f.com/", "https://f.com////"] {
        let request = list_services(server, "t").unwrap().request();
        assert_eq!(request.url, "https://f.com/api/trpc/services.list");
    }
}

#[test]
fn connections_are_asked_for_by_an_encoded_input() {
    let call = get_connection("https://f.com/", "t", "my app", "production", "postgres").unwrap();
    let request = call.request().unwrap();
    assert_eq!(
        request.url,
        "https://f.com/api/trpc/services.connection?input=%7B%22json%22%3A%7B%22appSlug%22%3A%22my%20app%22%2C%22kind%22%3A%22postgres%22%2C%22stage%22%3A%22production%22%7D%7D"
    );
    assert_eq!(request.authorization, "Bearer t");
}

#[test]
fn databases_are_asked_for_by_an_encoded_input() {
    let call = get_connection("https://f.com", "t", "caf\u{e9} \"x\"", "beta", "postgres").unwrap();
    match call.receive(status(404)) {
        ConnectionReading::Database(call) => {
            let request = call.request().unwrap();
            assert_eq!(
                request.url,
                "https://f.com/api/trpc/database.connection?input=%7B%22json%22%3A%7B%22appSlug%22%3A%22caf%C3%A9%20%5C%22x%5C%22%22%2C%22stage%22%3A%22beta%22%7D%7D"
            );
            assert_eq!(request.authorization, "Bearer t");
        }
        ConnectionReading::Own(_) => panic!("a database is asked for instead"),
    }
}

#[test]
fn different_services_have_different_addresses() {
    let url = |app: &str, stage: &str, kind: &str| {
        get_connection("https://f.com", "t", app, stage, kind).unwrap().request().unwrap().url
    };
    assert_ne!(url("a", "b", "c"), url("a", "c", "b"));
    assert_ne!(url("a\",\"stage\":\"b", "b", "c"), url("a", "b", "c"));
    assert_eq!(url("a", "b", "c"), url("a", "b", "c"));
}

#[test]
fn the_query_reads_back() {
    let app = "a\"\\\n\u{1}%& \u{1F600}";
    let request = get_connection("https://f.com", "t", app, "s", "k").unwrap().request().unwrap();
    let encoded = request.url.split("?input=").nth(1).unwrap().to_string();
    let text = urlencoding::decode(&encoded).unwrap().into_owned();
    let value: serde_json::Value = serde_json::from_str(&text).unwrap();
    assert_eq!(value["json"]["appSlug"], app);
    assert_eq!(value["json"]["stage"], "s");
    assert_eq!(value["json"]["kind"], "k");
}

#[test]
fn a_status_decides_what_is_read() {
    let read = |code: u16| list_services("https://f.com", "t").unwrap().receive(status(code));
    match read(401) {
        ServicesReading::Own(Reading::Rejected(failure)) => {
            assert_eq!(failure.into_error(), "ForgeGraph token is invalid or expired.")
        }
        _ => panic!("the token was not accepted"),
    }
    assert!(matches!(read(404), ServicesReading::Databases(_)));
    assert!(matches!(read(200), ServicesReading::Own(Reading::Payload)));
    assert!(matches!(read(299), ServicesReading::Own(Reading::Payload)));
    assert!(matches!(read(300), ServicesReading::Own(Reading::ErrorText)));
    assert!(matches!(read(412), ServicesReading::Own(Reading::ErrorText)));
    assert!(matches!(read(500), ServicesReading::Own(Reading::ErrorText)));
}

#[test]
fn only_postgres_falls_back_to_databases() {
    let read = |kind: &str, code: u16| {
        get_connection("https://f.com", "t", "a", "s", kind).unwrap().receive(status(code))
    };
    assert!(matches!(read("postgres", 404), ConnectionReading::Database(_)));
    assert!(matches!(read("redis", 404), ConnectionReading::Own(Reading::ErrorText)));
    assert!(matches!(read("postgres", 401), ConnectionReading::Own(Reading::Rejected(_))));
    assert!(matches!(read("postgres", 200), ConnectionReading::Own(Reading::Payload)));
}

#[test]
fn a_database_listing_has_no_further_fallback() {
    let call = databases_call();
    let request = call.request();
    assert_eq!(request.url, "https://forgegraf.com/api/trpc/database.list");
    assert_eq!(request.authorization, "Bearer fg_1");
    assert!(matches!(call.receive(status(404)), Reading::ErrorText));
    assert!(matches!(call.receive(status(401)), Reading::Rejected(_)));
    assert!(matches!(call.receive(status(204)), Reading::Payload));
}

#[test]
fn every_listed_database_is_asked_for_in_turn() {
    let mut probing = databases_call().finish(Ok(plain(vec![row("a"), row("b"), row("c")]))).unwrap();
    let mut asked: Vec<String> = vec![];
    let services = loop {
        match probing {
            Probing::Done(services) => break services,
            Probing::Turn(turn) => {
                let call = turn.call();
                let request = call.request().unwrap();
                assert_eq!(request.authorization, "Bearer fg_1");
                asked.push(request.url);
                assert!(matches!(call.receive(status(404)), Reading::ErrorText));
                let outcome = if asked.len() == 2 {
                    Err(refused(status(412), Some("no secret".to_string())))
                } else {
                    call.finish(Ok(plain(LegacyDatabaseConnection {
                        user: "u".to_string(),
                        password: "p".to_string(),
                        db_name: "d".to_string(),
                        transports: vec![LegacyTransport::SshTunnel {}],
                    })))
                };
                probing = turn.record(outcome);
            }
        }
    };
    assert_eq!(asked.len(), 3);
    assert!(asked[1].ends_with("%22appSlug%22%3A%22b%22%2C%22stage%22%3A%22production%22%7D%7D"));
    let slugs: Vec<&str> = services.iter().map(|s| s.app_slug.as_str()).collect();
    assert_eq!(slugs, vec!["a", "b", "c"]);
    assert_eq!(services[0].config["connectionAvailable"], true);
    assert_eq!(services[1].config["connectionAvailable"], false);
    assert_eq!(
        services[1].config["connectionError"],
        "ForgeGraph API error (412 Precondition Failed): no secret"
    );
    assert_eq!(services[2].config["connectionAvailable"], true);
    assert_eq!(services[2].config["dbName"], "db");
    assert!(services[2].config.get("connectionError").is_none());
    for service in &services {
        let cached = cache_row(service, None).config;
        let read: serde_json::Value = serde_json::from_str(&cached).unwrap();
        assert_eq!(read, service.config);
    }
}

#[test]
fn an_empty_listing_is_done_at_once() {
    match databases_call().finish(Ok(plain(vec![]))).unwrap() {
        Probing::Done(services) => assert_eq!(services.len(), 0),
        Probing::Turn(_) => panic!("there is nothing to ask for"),
    }
    match databases_call().finish(Err("eof".to_string())) {
        Err(error) => assert_eq!(error, "Failed to parse ForgeGraph response: eof"),
        Ok(_) => panic!("the reply could not be parsed"),
    }
}

#[test]
fn payloads_come_out_of_their_envelopes() {
    let wrapped = TrpcResponse { result: TrpcResult { data: TrpcData::Json { json: 7 } } };
    assert_eq!(payload(Ok(wrapped)), Ok(7));
    assert_eq!(payload(Ok(plain(8))), Ok(8));
    assert_eq!(TrpcData::Json { json: 1 }.into_inner(), 1);
    assert_eq!(TrpcData::Plain(2).into_inner(), 2);
    let failed: Result<u8, String> = payload(Err("eof".to_string()));
    assert_eq!(failed, Err("Failed to parse ForgeGraph response: eof".to_string()));
}

#[test]
fn failures_are_told_apart() {
    assert_eq!(client_failed("tls"), "Failed to create HTTP client: tls");
    assert_eq!(request_failed("timeout"), "ForgeGraph request failed: timeout");
    assert_eq!(refused(status(502), None), "ForgeGraph API error (502 Bad Gateway): ");
}

#[test]
fn addresses_name_the_procedure() {
    assert_eq!(procedure_address("https://f.com", "a.b"), "https://f.com/api/trpc/a.b");
    assert_eq!(
        input_address("https://f.com", "a.b", "aZ09-._~ /\u{e9}"),
        "https://f.com/api/trpc/a.b?input=aZ09-._~%20%2F%C3%A9"
    );
}
