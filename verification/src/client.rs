//! The ForgeGraph client: which requests it makes, and what it makes of the replies.
//!
//! A call is a value that says what to send next. Whoever sends it hands back the
//! status of the reply, then the body in the form that the call asks for, and is
//! told the outcome or the next call to make.

use crate::api_error::{api_error_text, format_api_error};
use crate::json::{
    entries, is_exact, json_text, map_model, member, nesting_limit, reads_back, record_value,
    text_value, to_text, value_model, JsonModel,
};
use crate::legacy::{
    law_marks_change_nothing_else, map_legacy_database_connection, map_legacy_database_services,
    mapped_connection, mapped_service,
    mapped_services, mark_legacy_connection_available, mark_legacy_connection_unavailable,
    marked_available, marked_unavailable, LegacyDatabaseConnection, LegacyDatabaseService,
};
use crate::percent::{encode, law_percent_text_distinct, percent_text};
use crate::service::{
    service_views, ForgeGraphConnection, ForgeGraphService, ServiceView, TrpcResponse,
};
use crate::status::{is_success_code, Status, NOT_FOUND, UNAUTHORIZED};
use crate::text::{same, starts_with, trim_end, trimmed_end};
use vstd::prelude::*;
use vstd::string::*;

verus! {

/// How long a request may take.
pub const REQUEST_TIMEOUT_SECONDS: u64 = 15;

/// A GET request to the ForgeGraph API.
pub struct Request {
    pub url: String,
    /// The value of the `Authorization` header.
    pub authorization: String,
}

/// The address of the server, without slashes at its end.
pub open spec fn server_base(server: Seq<char>) -> Seq<char> {
    trimmed_end(server, '/')
}

/// Whether an address is an HTTPS one.
pub open spec fn is_https(url: Seq<char>) -> bool {
    "https://"@.is_prefix_of(url)
}

/// The value of the `Authorization` header for a token.
pub open spec fn bearer(token: Seq<char>) -> Seq<char> {
    "Bearer "@ + token
}

/// Where a procedure of the API is called.
pub open spec fn procedure_url(base: Seq<char>, procedure: Seq<char>) -> Seq<char> {
    base + "/api/trpc/"@ + procedure
}

/// Where a procedure of the API is called with an input, given as JSON text.
pub open spec fn input_url(base: Seq<char>, procedure: Seq<char>, input: Seq<char>) -> Seq<char> {
    procedure_url(base, procedure) + "?input="@ + percent_text(input)
}

/// Where services are listed.
pub open spec fn services_url(base: Seq<char>) -> Seq<char> {
    procedure_url(base, "services.list"@)
}

/// Where databases are listed on a server that does not list services.
pub open spec fn databases_url(base: Seq<char>) -> Seq<char> {
    procedure_url(base, "database.list"@)
}

/// The input that asks for the connection of a service.
pub open spec fn connection_input(
    app_slug: Seq<char>,
    stage: Seq<char>,
    kind: Seq<char>,
) -> JsonModel {
    JsonModel::Record(
        map![
            "json"@ => JsonModel::Record(
                map![
                    "appSlug"@ => JsonModel::Text(app_slug),
                    "stage"@ => JsonModel::Text(stage),
                    "kind"@ => JsonModel::Text(kind),
                ],
            ),
        ],
    )
}

/// The input that asks for the connection of a database.
pub open spec fn database_input(app_slug: Seq<char>, stage: Seq<char>) -> JsonModel {
    JsonModel::Record(
        map![
            "json"@ => JsonModel::Record(
                map![
                    "appSlug"@ => JsonModel::Text(app_slug),
                    "stage"@ => JsonModel::Text(stage),
                ],
            ),
        ],
    )
}

/// Where the connection of a service is found.
pub open spec fn connection_url(
    base: Seq<char>,
    app_slug: Seq<char>,
    stage: Seq<char>,
    kind: Seq<char>,
) -> Seq<char> {
    input_url(base, "services.connection"@, json_text(connection_input(app_slug, stage, kind)))
}

/// Where the connection of a database is found.
pub open spec fn database_url(base: Seq<char>, app_slug: Seq<char>, stage: Seq<char>) -> Seq<char> {
    input_url(base, "database.connection"@, json_text(database_input(app_slug, stage)))
}

/// The error for a server whose address is not an HTTPS one.
pub open spec fn not_https_text() -> Seq<char> {
    "ForgeGraph server URL must use HTTPS"@
}

/// The error for a token that the server does not accept.
pub open spec fn unauthorized_text() -> Seq<char> {
    "ForgeGraph token is invalid or expired."@
}

/// What is to be done with a reply, by its status.
#[derive(Debug)]
pub enum Reading {
    /// Nothing: the call has failed in this way.
    Rejected(CallFailure),
    /// Its body is to be read as text, and names the error.
    ErrorText,
    /// Its body is to be parsed, and holds the answer.
    Payload,
}

/// How a call has failed.
#[derive(Debug)]
pub enum CallFailure {
    /// The server does not accept the token, and this is the error.
    Rejected(String),
    /// Something else has failed with this error.
    Other(String),
}

impl CallFailure {
    /// The error.
    pub open spec fn error(self) -> Seq<char> {
        match self {
            CallFailure::Rejected(error) => error@,
            CallFailure::Other(error) => error@,
        }
    }

    /// Takes the error out.
    pub fn into_error(self) -> (r: String)
        ensures
            r@ == self.error(),
    {
        match self {
            CallFailure::Rejected(error) => error,
            CallFailure::Other(error) => error,
        }
    }
}

/// Whether `reading` is what a reply with the given status calls for.
pub open spec fn is_reading(code: u16, reading: Reading) -> bool {
    match reading {
        Reading::Rejected(failure) => {
            &&& code == UNAUTHORIZED
            &&& failure is Rejected
            &&& failure.error() == unauthorized_text()
        },
        Reading::ErrorText => code != UNAUTHORIZED && !is_success_code(code),
        Reading::Payload => is_success_code(code),
    }
}

fn read_status(status: Status) -> (r: Reading)
    ensures
        is_reading(status@, r),
{
    if status.code() == UNAUTHORIZED {
        Reading::Rejected(
            CallFailure::Rejected("ForgeGraph token is invalid or expired.".to_owned()),
        )
    } else if status.is_success() {
        Reading::Payload
    } else {
        Reading::ErrorText
    }
}

/// The error when no HTTP client can be had.
pub fn client_failed(error: &str) -> (r: String)
    ensures
        r@ == "Failed to create HTTP client: "@ + error@,
{
    "Failed to create HTTP client: ".to_owned().concat(error)
}

/// The error when a request gets no reply.
pub fn request_failed(error: &str) -> (r: String)
    ensures
        r@ == "ForgeGraph request failed: "@ + error@,
{
    "ForgeGraph request failed: ".to_owned().concat(error)
}

/// The error for a reply whose body was to be read as text; the body counts as
/// empty where it cannot be read.
pub fn refused(status: Status, body: Option<String>) -> (r: String)
    ensures
        r@ == api_error_text(
            status@,
            match body {
                Some(text) => text@,
                None => seq![],
            },
        ),
{
    match body {
        Some(text) => format_api_error(status, &text),
        None => format_api_error(status, &String::new()),
    }
}

/// The answer in a reply whose body was to be parsed.
pub fn payload<T>(parsed: Result<TrpcResponse<T>, String>) -> (r: Result<T, String>)
    ensures
        match parsed {
            Ok(response) => r == Ok::<T, String>(response.result.data.payload()),
            Err(error) => r is Err && r->Err_0@ == "Failed to parse ForgeGraph response: "@
                + error@,
        },
{
    match parsed {
        Ok(response) => Ok(response.result.data.into_inner()),
        Err(error) => Err("Failed to parse ForgeGraph response: ".to_owned().concat(&error)),
    }
}

/// The address at which a procedure of the API is called.
pub fn procedure_address(base: &str, procedure: &str) -> (r: String)
    ensures
        r@ == procedure_url(base@, procedure@),
{
    base.to_owned().concat("/api/trpc/").concat(procedure)
}

/// The address at which a procedure of the API is called with an input, given as JSON
/// text.
pub fn input_address(base: &str, procedure: &str, input: &str) -> (r: String)
    ensures
        r@ == input_url(base@, procedure@, input@),
{
    procedure_address(base, procedure).concat("?input=").concat(&encode(input))
}

fn request(url: String, token: &str) -> (r: Request)
    ensures
        r.url@ == url@,
        r.authorization@ == bearer(token@),
{
    Request { url, authorization: "Bearer ".to_owned().concat(token) }
}

/// The address of a server, if it is an HTTPS one.
fn https_base(server: &str) -> (r: Result<String, String>)
    ensures
        match r {
            Ok(base) => base@ == server_base(server@) && is_https(base@),
            Err(error) => !is_https(server_base(server@)) && error@ == not_https_text(),
        },
{
    let base = trim_end(server, '/');
    if !starts_with(base, "https://") {
        return Err("ForgeGraph server URL must use HTTPS".to_owned());
    }
    Ok(base.to_owned())
}

/// A call of `services.list`.
pub struct ServicesCall {
    base: String,
    token: String,
}

/// A call of `database.list`.
pub struct DatabasesCall {
    base: String,
    token: String,
}

/// A call of `services.connection`.
pub struct ConnectionCall {
    base: String,
    token: String,
    app_slug: String,
    stage: String,
    kind: String,
}

/// A call of `database.connection`.
pub struct DatabaseCall {
    base: String,
    token: String,
    app_slug: String,
    stage: String,
}

/// What is to be done with the reply to `services.list`, by its status.
pub enum ServicesReading {
    /// The server does not list services: databases are to be listed instead.
    Databases(DatabasesCall),
    /// The reply is read.
    Own(Reading),
}

/// What is to be done with the reply to `services.connection`, by its status.
pub enum ConnectionReading {
    /// The server does not know the service: it is to be asked for as a database.
    Database(DatabaseCall),
    /// The reply is read.
    Own(Reading),
}

/// Asks for all services.
pub fn list_services(server: &str, token: &str) -> (r: Result<ServicesCall, String>)
    ensures
        match r {
            Ok(call) => {
                &&& is_https(server_base(server@))
                &&& call.base() == server_base(server@)
                &&& call.token() == token@
            },
            Err(error) => !is_https(server_base(server@)) && error@ == not_https_text(),
        },
{
    let base = https_base(server)?;
    Ok(ServicesCall { base, token: token.to_owned() })
}

impl ServicesCall {
    #[verifier::type_invariant]
    spec fn well_formed(self) -> bool {
        is_https(self.base@)
    }

    /// The server's address.
    pub closed spec fn base(self) -> Seq<char> {
        self.base@
    }

    /// The token.
    pub closed spec fn token(self) -> Seq<char> {
        self.token@
    }

    /// The request to send.
    pub fn request(&self) -> (r: Request)
        ensures
            r.url@ == services_url(self.base()),
            r.authorization@ == bearer(self.token()),
            is_https(r.url@),
    {
        proof {
            use_type_invariant(self);
        }
        request(procedure_address(&self.base, "services.list"), &self.token)
    }

    /// What the status of the reply calls for.
    pub fn receive(self, status: Status) -> (r: ServicesReading)
        ensures
            match r {
                ServicesReading::Databases(call) => {
                    &&& status@ == NOT_FOUND
                    &&& call.base() == self.base()
                    &&& call.token() == self.token()
                },
                ServicesReading::Own(reading) => status@ != NOT_FOUND && is_reading(
                    status@,
                    reading,
                ),
            },
    {
        proof {
            use_type_invariant(&self);
        }
        if status.code() == NOT_FOUND {
            ServicesReading::Databases(DatabasesCall { base: self.base, token: self.token })
        } else {
            ServicesReading::Own(read_status(status))
        }
    }
}

impl DatabasesCall {
    #[verifier::type_invariant]
    spec fn well_formed(self) -> bool {
        is_https(self.base@)
    }

    /// The server's address.
    pub closed spec fn base(self) -> Seq<char> {
        self.base@
    }

    /// The token.
    pub closed spec fn token(self) -> Seq<char> {
        self.token@
    }

    /// The request to send.
    pub fn request(&self) -> (r: Request)
        ensures
            r.url@ == databases_url(self.base()),
            r.authorization@ == bearer(self.token()),
            is_https(r.url@),
    {
        proof {
            use_type_invariant(self);
        }
        request(procedure_address(&self.base, "database.list"), &self.token)
    }

    /// What the status of the reply calls for.
    pub fn receive(&self, status: Status) -> (r: Reading)
        ensures
            is_reading(status@, r),
    {
        read_status(status)
    }
}

/// Wraps the entries of an input as the API expects them.
fn input_value(input: serde_json::Map<String, serde_json::Value>) -> (r: serde_json::Value)
    ensures
        value_model(r) == JsonModel::Record(
            map!["json"@ => JsonModel::Record(map_model(input))],
        ),
{
    let mut outer = serde_json::Map::new();
    outer.insert("json".to_owned(), record_value(input));
    assert(map_model(outer) =~= map!["json"@ => JsonModel::Record(map_model(input))]);
    record_value(outer)
}

/// An input as JSON text.
fn input_text(input: &serde_json::Value) -> (r: Result<String, String>)
    ensures
        r is Ok,
        r->Ok_0@ == json_text(value_model(*input)),
        is_exact(value_model(*input), nesting_limit()) ==> reads_back(value_model(*input)),
{
    match to_text(input) {
        Ok(text) => Ok(text),
        Err(error) => Err("Failed to serialize input: ".to_owned().concat(&error.to_string())),
    }
}

/// Asks for the connection of a service, with its credentials.
pub fn get_connection(server: &str, token: &str, app_slug: &str, stage: &str, kind: &str) -> (r:
    Result<ConnectionCall, String>)
    ensures
        match r {
            Ok(call) => {
                &&& is_https(server_base(server@))
                &&& call.base() == server_base(server@)
                &&& call.token() == token@
                &&& call.app_slug() == app_slug@
                &&& call.stage() == stage@
                &&& call.kind() == kind@
            },
            Err(error) => !is_https(server_base(server@)) && error@ == not_https_text(),
        },
{
    let base = https_base(server)?;
    Ok(
        ConnectionCall {
            base,
            token: token.to_owned(),
            app_slug: app_slug.to_owned(),
            stage: stage.to_owned(),
            kind: kind.to_owned(),
        },
    )
}

impl ConnectionCall {
    #[verifier::type_invariant]
    spec fn well_formed(self) -> bool {
        is_https(self.base@)
    }

    /// The server's address.
    pub closed spec fn base(self) -> Seq<char> {
        self.base@
    }

    /// The token.
    pub closed spec fn token(self) -> Seq<char> {
        self.token@
    }

    /// The app of the service.
    pub closed spec fn app_slug(self) -> Seq<char> {
        self.app_slug@
    }

    /// The stage of the service.
    pub closed spec fn stage(self) -> Seq<char> {
        self.stage@
    }

    /// The kind of the service.
    pub closed spec fn kind(self) -> Seq<char> {
        self.kind@
    }

    /// The request to send. Its query reads back as the input that asks for the service.
    pub fn request(&self) -> (r: Result<Request, String>)
        ensures
            r is Ok,
            r->Ok_0.url@ == connection_url(
                self.base(),
                self.app_slug(),
                self.stage(),
                self.kind(),
            ),
            r->Ok_0.authorization@ == bearer(self.token()),
            is_https(r->Ok_0.url@),
            reads_back(connection_input(self.app_slug(), self.stage(), self.kind())),
    {
        proof {
            use_type_invariant(self);
        }
        let mut input = serde_json::Map::new();
        input.insert("appSlug".to_owned(), text_value(self.app_slug.clone()));
        input.insert("stage".to_owned(), text_value(self.stage.clone()));
        input.insert("kind".to_owned(), text_value(self.kind.clone()));
        let value = input_value(input);
        proof {
            let expected = connection_input(self.app_slug@, self.stage@, self.kind@);
            assert(map_model(input) =~= entries(entries(expected)["json"@]));
            assert(value_model(value) == expected);
            reveal_with_fuel(is_exact, 3);
            assert(is_exact(expected, nesting_limit()));
        }
        let text = input_text(&value)?;
        Ok(request(input_address(&self.base, "services.connection", &text), &self.token))
    }

    /// What the status of the reply calls for.
    pub fn receive(self, status: Status) -> (r: ConnectionReading)
        ensures
            match r {
                ConnectionReading::Database(call) => {
                    &&& status@ == NOT_FOUND
                    &&& self.kind() == "postgres"@
                    &&& call.base() == self.base()
                    &&& call.token() == self.token()
                    &&& call.app_slug() == self.app_slug()
                    &&& call.stage() == self.stage()
                },
                ConnectionReading::Own(reading) => {
                    &&& !(status@ == NOT_FOUND && self.kind() == "postgres"@)
                    &&& is_reading(status@, reading)
                },
            },
    {
        proof {
            use_type_invariant(&self);
        }
        if status.code() == NOT_FOUND && same(&self.kind, "postgres") {
            ConnectionReading::Database(
                DatabaseCall {
                    base: self.base,
                    token: self.token,
                    app_slug: self.app_slug,
                    stage: self.stage,
                },
            )
        } else {
            ConnectionReading::Own(read_status(status))
        }
    }
}

impl DatabaseCall {
    #[verifier::type_invariant]
    spec fn well_formed(self) -> bool {
        is_https(self.base@)
    }

    /// The server's address.
    pub closed spec fn base(self) -> Seq<char> {
        self.base@
    }

    /// The token.
    pub closed spec fn token(self) -> Seq<char> {
        self.token@
    }

    /// The app of the database.
    pub closed spec fn app_slug(self) -> Seq<char> {
        self.app_slug@
    }

    /// The stage of the database.
    pub closed spec fn stage(self) -> Seq<char> {
        self.stage@
    }

    /// The request to send. Its query reads back as the input that asks for the database.
    pub fn request(&self) -> (r: Result<Request, String>)
        ensures
            r is Ok,
            r->Ok_0.url@ == database_url(self.base(), self.app_slug(), self.stage()),
            r->Ok_0.authorization@ == bearer(self.token()),
            is_https(r->Ok_0.url@),
            reads_back(database_input(self.app_slug(), self.stage())),
    {
        proof {
            use_type_invariant(self);
        }
        let mut input = serde_json::Map::new();
        input.insert("appSlug".to_owned(), text_value(self.app_slug.clone()));
        input.insert("stage".to_owned(), text_value(self.stage.clone()));
        let value = input_value(input);
        proof {
            let expected = database_input(self.app_slug@, self.stage@);
            assert(map_model(input) =~= entries(entries(expected)["json"@]));
            assert(value_model(value) == expected);
            reveal_with_fuel(is_exact, 3);
            assert(is_exact(expected, nesting_limit()));
        }
        let text = input_text(&value)?;
        Ok(request(input_address(&self.base, "database.connection", &text), &self.token))
    }

    /// What the status of the reply calls for.
    pub fn receive(&self, status: Status) -> (r: Reading)
        ensures
            is_reading(status@, r),
    {
        read_status(status)
    }

    /// The connection that the parsed reply stands for.
    pub fn finish(&self, parsed: Result<TrpcResponse<LegacyDatabaseConnection>, String>) -> (r:
        Result<ForgeGraphConnection, String>)
        ensures
            match parsed {
                Ok(response) => r is Ok && r->Ok_0@ == mapped_connection(
                    self.app_slug(),
                    self.stage(),
                    response.result.data.payload(),
                ),
                Err(error) => r is Err && r->Err_0@ == "Failed to parse ForgeGraph response: "@
                    + error@,
            },
    {
        let connection = payload(parsed)?;
        Ok(map_legacy_database_connection(&self.app_slug, &self.stage, connection))
    }
}

/// The service after its database was asked for: `failure` is the error, if there was one.
pub open spec fn probed_service(service: ServiceView, failure: Option<Seq<char>>) -> ServiceView {
    match failure {
        Some(error) => marked_unavailable(service, error),
        None => marked_available(service),
    }
}

/// The error of a failed attempt.
pub open spec fn failure<T>(outcome: Result<T, String>) -> Option<Seq<char>> {
    match outcome {
        Ok(_) => None,
        Err(error) => Some(error@),
    }
}

/// Listed databases, some of which are still to be asked for.
pub struct ProbeTurn {
    base: String,
    token: String,
    checked: Vec<ForgeGraphService>,
    pending: Vec<ForgeGraphService>,
}

/// How far the listing of databases has come.
pub enum Probing {
    /// The next database is to be asked for.
    Turn(ProbeTurn),
    /// All have been asked for: these are the services.
    Done(Vec<ForgeGraphService>),
}

/// Whether `probing` stands between the checked and the pending services.
pub open spec fn is_probing(
    probing: Probing,
    base: Seq<char>,
    token: Seq<char>,
    checked: Seq<ServiceView>,
    pending: Seq<ServiceView>,
) -> bool {
    match probing {
        Probing::Turn(turn) => {
            &&& pending.len() > 0
            &&& turn.base() == base
            &&& turn.token() == token
            &&& turn.checked() == checked
            &&& turn.pending() == pending
        },
        Probing::Done(services) => pending.len() == 0 && service_views(services@) == checked,
    }
}

fn probe(
    base: String,
    token: String,
    checked: Vec<ForgeGraphService>,
    pending: Vec<ForgeGraphService>,
) -> (r: Probing)
    requires
        is_https(base@),
    ensures
        is_probing(r, base@, token@, service_views(checked@), service_views(pending@)),
{
    if pending.len() == 0 {
        Probing::Done(checked)
    } else {
        Probing::Turn(ProbeTurn { base, token, checked, pending })
    }
}

impl DatabasesCall {
    /// The databases that the parsed reply lists, all of them still to be asked for.
    pub fn finish(self, parsed: Result<TrpcResponse<Vec<LegacyDatabaseService>>, String>) -> (r:
        Result<Probing, String>)
        ensures
            match parsed {
                Ok(response) => r is Ok && is_probing(
                    r->Ok_0,
                    self.base(),
                    self.token(),
                    seq![],
                    mapped_services(response.result.data.payload()@),
                ),
                Err(error) => r is Err && r->Err_0@ == "Failed to parse ForgeGraph response: "@
                    + error@,
            },
    {
        proof {
            use_type_invariant(&self);
        }
        let rows = payload(parsed)?;
        let services = map_legacy_database_services(rows);
        let checked: Vec<ForgeGraphService> = Vec::new();
        assert(service_views(checked@) =~= seq![]);
        Ok(probe(self.base, self.token, checked, services))
    }
}

impl ProbeTurn {
    #[verifier::type_invariant]
    spec fn well_formed(self) -> bool {
        &&& is_https(self.base@)
        &&& self.pending@.len() > 0
    }

    /// The server's address.
    pub closed spec fn base(self) -> Seq<char> {
        self.base@
    }

    /// The token.
    pub closed spec fn token(self) -> Seq<char> {
        self.token@
    }

    /// The services that have been asked for.
    pub closed spec fn checked(self) -> Seq<ServiceView> {
        service_views(self.checked@)
    }

    /// The services that are still to be asked for.
    pub closed spec fn pending(self) -> Seq<ServiceView> {
        service_views(self.pending@)
    }

    /// The call for the next database.
    pub fn call(&self) -> (r: DatabaseCall)
        ensures
            self.pending().len() > 0,
            r.base() == self.base(),
            r.token() == self.token(),
            r.app_slug() == self.pending()[0].app_slug,
            r.stage() == self.pending()[0].stage,
    {
        proof {
            use_type_invariant(self);
        }
        let service = &self.pending[0];
        DatabaseCall {
            base: self.base.clone(),
            token: self.token.clone(),
            app_slug: service.app_slug.clone(),
            stage: service.stage.clone(),
        }
    }

    /// Marks the next service by how asking for its database went.
    pub fn record(self, outcome: Result<ForgeGraphConnection, String>) -> (r: Probing)
        ensures
            self.pending().len() > 0,
            is_probing(
                r,
                self.base(),
                self.token(),
                self.checked().push(probed_service(self.pending()[0], failure(outcome))),
                self.pending().drop_first(),
            ),
    {
        proof {
            use_type_invariant(&self);
        }
        let ghost was_checked = self.checked();
        let ghost was_pending = self.pending();
        let ProbeTurn { base, token, mut checked, mut pending } = self;
        let service = pending.remove(0);
        let service = match outcome {
            Ok(_) => mark_legacy_connection_available(service),
            Err(error) => mark_legacy_connection_unavailable(service, error),
        };
        checked.push(service);
        assert(service_views(checked@) =~= was_checked.push(
            probed_service(was_pending[0], failure(outcome)),
        ));
        assert(service_views(pending@) =~= was_pending.drop_first());
        probe(base, token, checked, pending)
    }
}

/// The services after all pending ones have been asked for, where `failures` holds
/// for each of them the error, if there was one. Each step is what
/// [`ProbeTurn::record`] does.
pub open spec fn probe_run(
    checked: Seq<ServiceView>,
    pending: Seq<ServiceView>,
    failures: Seq<Option<Seq<char>>>,
) -> Seq<ServiceView>
    decreases pending.len(),
{
    if pending.len() == 0 {
        checked
    } else {
        probe_run(
            checked.push(probed_service(pending[0], failures[0])),
            pending.drop_first(),
            failures.drop_first(),
        )
    }
}

proof fn lemma_probe_run(
    checked: Seq<ServiceView>,
    pending: Seq<ServiceView>,
    failures: Seq<Option<Seq<char>>>,
)
    requires
        failures.len() == pending.len(),
    ensures
        probe_run(checked, pending, failures) == checked + Seq::new(
            pending.len(),
            |i: int| probed_service(pending[i], failures[i]),
        ),
    decreases pending.len(),
{
    let marked = Seq::new(pending.len(), |i: int| probed_service(pending[i], failures[i]));
    if pending.len() == 0 {
        assert(checked + marked =~= checked);
    } else {
        let rest = pending.drop_first();
        let rest_failures = failures.drop_first();
        let first = probed_service(pending[0], failures[0]);
        lemma_probe_run(checked.push(first), rest, rest_failures);
        assert(checked.push(first) + Seq::new(
            rest.len(),
            |i: int| probed_service(rest[i], rest_failures[i]),
        ) =~= checked + marked);
    }
}

/// A listing of databases gives one service for each row, in the order of the rows,
/// which is the row's service marked by how asking for its database went.
pub proof fn law_databases_become_services(
    rows: Seq<LegacyDatabaseService>,
    failures: Seq<Option<Seq<char>>>,
)
    requires
        failures.len() == rows.len(),
    ensures
        probe_run(seq![], mapped_services(rows), failures) == Seq::new(
            rows.len(),
            |i: int| probed_service(mapped_service(rows[i]), failures[i]),
        ),
{
    lemma_probe_run(seq![], mapped_services(rows), failures);
    assert(probe_run(seq![], mapped_services(rows), failures) =~= Seq::new(
        rows.len(),
        |i: int| probed_service(mapped_service(rows[i]), failures[i]),
    ));
}

/// A service from a listing of databases is the Postgres service of its row's app and
/// stage; it says whether its connection can be had, and why not, and still names its
/// database.
pub proof fn law_databases_say_whether_they_connect(
    row: LegacyDatabaseService,
    failure: Option<Seq<char>>,
)
    ensures
        ({
            let service = probed_service(mapped_service(row), failure);
            &&& service.app_slug == row.app_slug@
            &&& service.stage == row.stage@
            &&& service.kind == "postgres"@
            &&& member(service.config, "connectionAvailable"@) == Some(
                JsonModel::Bool(failure is None),
            )
            &&& failure matches Some(error) ==> member(service.config, "connectionError"@) == Some(
                JsonModel::Text(error),
            )
            &&& failure is None ==> member(service.config, "connectionError"@) is None
            &&& member(service.config, "dbName"@) == Some(JsonModel::Text(row.db_name@))
        }),
{
    let service = mapped_service(row);
    let error = match failure {
        Some(error) => error,
        None => seq![],
    };
    law_marks_change_nothing_else(service, error, "dbName"@);
    law_marks_change_nothing_else(service, error, "connectionError"@);
    reveal_strlit("connectionAvailable");
    reveal_strlit("connectionError");
    reveal_strlit("dbName");
    assert("dbName"@.len() == 6);
    assert("connectionError"@.len() == 15);
    assert("connectionAvailable"@.len() == 19);
    assert(member(service.config, "dbName"@) == Some(JsonModel::Text(row.db_name@)));
    assert(member(service.config, "connectionError"@) is None);
}

/// What is cached of a service from a listing of databases reads back: its configuration
/// is one of which [`crate::cache::cache_row`] ensures that.
pub proof fn law_database_configurations_are_exact(
    row: LegacyDatabaseService,
    failure: Option<Seq<char>>,
)
    ensures
        is_exact(probed_service(mapped_service(row), failure).config, nesting_limit()),
{
    reveal_with_fuel(is_exact, 2);
}

/// Slashes at the end of the server's address make no difference.
pub proof fn law_trailing_slashes_make_no_difference(server: Seq<char>)
    ensures
        server_base(server.push('/')) == server_base(server),
{
    assert(server.push('/').drop_last() =~= server);
}

/// The address that requests go to never ends in a slash.
pub proof fn law_base_has_no_trailing_slash(server: Seq<char>)
    ensures
        server_base(server).len() > 0 ==> server_base(server).last() != '/',
    decreases server.len(),
{
    if server.len() > 0 && server.last() == '/' {
        law_base_has_no_trailing_slash(server.drop_last());
    }
}

/// One procedure called at one address has one input, where the inputs read back.
proof fn lemma_input_urls_distinct(
    base: Seq<char>,
    procedure: Seq<char>,
    left: JsonModel,
    right: JsonModel,
)
    requires
        reads_back(left),
        reads_back(right),
        input_url(base, procedure, json_text(left)) == input_url(
            base,
            procedure,
            json_text(right),
        ),
    ensures
        left == right,
{
    let url = input_url(base, procedure, json_text(left));
    let n = (procedure_url(base, procedure) + "?input="@).len() as int;
    assert(url.subrange(n, url.len() as int) =~= percent_text(json_text(left)));
    assert(url.subrange(n, url.len() as int) =~= percent_text(json_text(right)));
    law_percent_text_distinct(json_text(left), json_text(right));
}

/// Requests for the connections of different services go to different addresses.
/// That the inputs read back is what [`ConnectionCall::request`] ensures of them.
pub proof fn law_connection_urls_distinct(
    base: Seq<char>,
    a: (Seq<char>, Seq<char>, Seq<char>),
    b: (Seq<char>, Seq<char>, Seq<char>),
)
    requires
        reads_back(connection_input(a.0, a.1, a.2)),
        reads_back(connection_input(b.0, b.1, b.2)),
        connection_url(base, a.0, a.1, a.2) == connection_url(base, b.0, b.1, b.2),
    ensures
        a == b,
{
    let left = connection_input(a.0, a.1, a.2);
    let right = connection_input(b.0, b.1, b.2);
    lemma_input_urls_distinct(base, "services.connection"@, left, right);
    reveal_strlit("appSlug");
    reveal_strlit("stage");
    reveal_strlit("kind");
    assert("appSlug"@.len() == 7);
    assert("stage"@.len() == 5);
    assert("kind"@.len() == 4);
    let inner_left = entries(left)["json"@];
    let inner_right = entries(right)["json"@];
    assert(inner_left == inner_right);
    assert(entries(inner_left)["appSlug"@] == JsonModel::Text(a.0));
    assert(entries(inner_right)["appSlug"@] == JsonModel::Text(b.0));
    assert(entries(inner_left)["stage"@] == JsonModel::Text(a.1));
    assert(entries(inner_right)["stage"@] == JsonModel::Text(b.1));
    assert(entries(inner_left)["kind"@] == JsonModel::Text(a.2));
    assert(entries(inner_right)["kind"@] == JsonModel::Text(b.2));
}

/// Requests for the connections of different databases go to different addresses.
/// That the inputs read back is what [`DatabaseCall::request`] ensures of them.
pub proof fn law_database_urls_distinct(
    base: Seq<char>,
    a: (Seq<char>, Seq<char>),
    b: (Seq<char>, Seq<char>),
)
    requires
        reads_back(database_input(a.0, a.1)),
        reads_back(database_input(b.0, b.1)),
        database_url(base, a.0, a.1) == database_url(base, b.0, b.1),
    ensures
        a == b,
{
    let left = database_input(a.0, a.1);
    let right = database_input(b.0, b.1);
    lemma_input_urls_distinct(base, "database.connection"@, left, right);
    reveal_strlit("appSlug");
    reveal_strlit("stage");
    assert("appSlug"@.len() == 7);
    assert("stage"@.len() == 5);
    let inner_left = entries(left)["json"@];
    let inner_right = entries(right)["json"@];
    assert(inner_left == inner_right);
    assert(entries(inner_left)["appSlug"@] == JsonModel::Text(a.0));
    assert(entries(inner_right)["appSlug"@] == JsonModel::Text(b.0));
    assert(entries(inner_left)["stage"@] == JsonModel::Text(a.1));
    assert(entries(inner_right)["stage"@] == JsonModel::Text(b.1));
}

} // verus!
