//! Laws on which requests are made, and on what the status of a reply calls for.

use crate::client::{
    connection_input, database_input, get_connection, input_address, is_reading, list_services,
    procedure_address, server_base, CallFailure, ConnectionCall, ConnectionReading, DatabaseCall,
    DatabasesCall, Reading, Request, ServicesCall, ServicesReading, REQUEST_TIMEOUT_SECONDS,
};
use crate::json::{json_text, parsed_json, reads_back, JsonModel};
use crate::laws::legacy::{is_connection_to, lemma_is_connection_to};
use crate::laws::terms::{is_base, is_query_of};
use crate::laws::text::{lemma_one_base, lemma_query, lemma_trimmed_end};
use crate::legacy::LegacyDatabaseConnection;
use crate::percent::percent_text;
use crate::service::{ForgeGraphConnection, TrpcData, TrpcResponse};
use crate::status::Status;
use vstd::prelude::*;

verus! {

/// A request is given a quarter of a minute.
pub proof fn law_request_timeout()
    ensures
        4 * REQUEST_TIMEOUT_SECONDS == 60,
{
}

/// A procedure is called below the base.
pub proof fn law_procedure_address(base: &str, procedure: &str, r: String)
    requires
        call_ensures(procedure_address, (base, procedure), r),
    ensures
        r@ == base@ + "/api/trpc/"@ + procedure@,
{
}

/// `url` is the address below `base` at which a procedure is called with `input`.
pub open spec fn is_address(
    url: Seq<char>,
    base: Seq<char>,
    procedure: Seq<char>,
    input: Seq<char>,
) -> bool {
    exists|query: Seq<char>| #[trigger]
        is_query_of(query, input) && url == base + "/api/trpc/"@ + procedure + "?input="@ + query
}

/// An input stands in the query of the address, percent-encoded.
pub proof fn law_input_address(base: &str, procedure: &str, input: &str, r: String)
    requires
        call_ensures(input_address, (base, procedure, input), r),
    ensures
        is_address(r@, base@, procedure@, input@),
{
    lemma_query(input@);
    assert(is_query_of(percent_text(input@), input@));
}

/// An address that starts with "https://".
pub open spec fn is_https_address(base: Seq<char>) -> bool {
    base.len() >= 8 && base.take(8) == "https://"@
}

proof fn lemma_https(base: Seq<char>)
    ensures
        is_https_address(base) <==> "https://"@.is_prefix_of(base),
{
    reveal_strlit("https://");
    assert("https://"@.len() == 8);
    if "https://"@.is_prefix_of(base) {
        assert(base.take(8) =~= "https://"@);
    }
}

pub(crate) proof fn lemma_base(server: Seq<char>, base: Seq<char>)
    requires
        is_base(base, server),
    ensures
        base == server_base(server),
        is_https_address(base) <==> "https://"@.is_prefix_of(server_base(server)),
{
    lemma_trimmed_end(server);
    lemma_one_base(base, server_base(server), server);
    lemma_https(base);
}

/// Services are asked for where the server's address, without slashes at its end, is an
/// HTTPS one, and only there.
pub proof fn law_list_services(
    server: &str,
    token: &str,
    base: Seq<char>,
    r: Result<ServicesCall, String>,
)
    requires
        call_ensures(list_services, (server, token), r),
        is_base(base, server@),
    ensures
        r is Ok <==> is_https_address(base),
        r is Err ==> r->Err_0@ == "ForgeGraph server URL must use HTTPS"@,
{
    lemma_base(server@, base);
}

/// A connection is asked for where the server's address, without slashes at its end, is
/// an HTTPS one, and only there.
pub proof fn law_get_connection(
    server: &str,
    token: &str,
    app_slug: &str,
    stage: &str,
    kind: &str,
    base: Seq<char>,
    r: Result<ConnectionCall, String>,
)
    requires
        call_ensures(get_connection, (server, token, app_slug, stage, kind), r),
        is_base(base, server@),
    ensures
        r is Ok <==> is_https_address(base),
        r is Err ==> r->Err_0@ == "ForgeGraph server URL must use HTTPS"@,
{
    lemma_base(server@, base);
}

/// The request calls a procedure without an input, with the token.
pub open spec fn is_plain_request(
    request: Request,
    base: Seq<char>,
    procedure: Seq<char>,
    token: Seq<char>,
) -> bool {
    &&& request.url@ == base + "/api/trpc/"@ + procedure
    &&& request.authorization@ == "Bearer "@ + token
}

/// The request calls a procedure with a text that reads as `input`, with the token.
pub open spec fn is_input_request(
    request: Request,
    base: Seq<char>,
    procedure: Seq<char>,
    input: JsonModel,
    token: Seq<char>,
) -> bool {
    &&& exists|text: Seq<char>| #[trigger]
        parsed_json(text) == Some(input) && is_address(request.url@, base, procedure, text)
    &&& request.authorization@ == "Bearer "@ + token
}

/// The services of the server are listed at `services.list`, with the token.
pub proof fn law_services_request(
    server: &str,
    token: &str,
    base: Seq<char>,
    call: ServicesCall,
    request: Request,
)
    requires
        call_ensures(list_services, (server, token), Ok::<ServicesCall, String>(call)),
        is_base(base, server@),
        call_ensures(ServicesCall::request, (&call,), request),
    ensures
        is_plain_request(request, base, "services.list"@, token@),
{
    lemma_base(server@, base);
}

/// What is to be done with a reply, by its code: a token that is not accepted is
/// reported as such, a granted request is parsed, and anything else names its error.
pub open spec fn is_right_reading(reading: Reading, code: u16) -> bool {
    if code == 401 {
        reading matches Reading::Rejected(CallFailure::Rejected(error)) && error@
            == "ForgeGraph token is invalid or expired."@
    } else if 200 <= code <= 299 {
        reading is Payload
    } else {
        reading is ErrorText
    }
}

proof fn lemma_right_reading(reading: Reading, code: u16)
    requires
        is_reading(code, reading),
    ensures
        is_right_reading(reading, code),
{
}

/// A server that does not know `services.list` is asked for databases; any other reply
/// to it is read by its code.
pub proof fn law_services_receive(
    call: ServicesCall,
    code: u16,
    status: Status,
    r: ServicesReading,
)
    requires
        call_ensures(Status::new, (code,), Some(status)),
        call_ensures(ServicesCall::receive, (call, status), r),
    ensures
        code == 404 <==> r is Databases,
        code != 404 ==> r is Own && is_right_reading(r->Own_0, code),
{
}

/// Databases are listed at `database.list` of the same server, with the same token.
pub proof fn law_databases_request(
    server: &str,
    token: &str,
    base: Seq<char>,
    call: ServicesCall,
    status: Status,
    databases: DatabasesCall,
    request: Request,
)
    requires
        call_ensures(list_services, (server, token), Ok::<ServicesCall, String>(call)),
        is_base(base, server@),
        call_ensures(ServicesCall::receive, (call, status), ServicesReading::Databases(databases)),
        call_ensures(DatabasesCall::request, (&databases,), request),
    ensures
        is_plain_request(request, base, "database.list"@, token@),
{
    lemma_base(server@, base);
}

/// The reply to `database.list` is read by its code.
pub proof fn law_databases_receive(call: &DatabasesCall, code: u16, status: Status, r: Reading)
    requires
        call_ensures(Status::new, (code,), Some(status)),
        call_ensures(DatabasesCall::receive, (call, status), r),
    ensures
        is_right_reading(r, code),
{
}

/// The reply to `database.connection` is read by its code.
pub proof fn law_database_receive(call: &DatabaseCall, code: u16, status: Status, r: Reading)
    requires
        call_ensures(Status::new, (code,), Some(status)),
        call_ensures(DatabaseCall::receive, (call, status), r),
    ensures
        is_right_reading(r, code),
{
}

/// What asks for a service: its app, its stage and its kind.
pub open spec fn asks_for_service(
    app_slug: Seq<char>,
    stage: Seq<char>,
    kind: Seq<char>,
) -> JsonModel {
    JsonModel::Record(
        map![
            "json"@ => JsonModel::Record(
                map![
                    "appSlug"@ => JsonModel::Text(app_slug),
                    "stage"@ => JsonModel::Text(stage),
                    "kind"@ => JsonModel::Text(kind),
                ],
            ),
        ],
    )
}

/// What asks for a database: its app and its stage.
pub open spec fn asks_for_database(app_slug: Seq<char>, stage: Seq<char>) -> JsonModel {
    JsonModel::Record(
        map![
            "json"@ => JsonModel::Record(
                map![
                    "appSlug"@ => JsonModel::Text(app_slug),
                    "stage"@ => JsonModel::Text(stage),
                ],
            ),
        ],
    )
}

proof fn lemma_input_request(
    request: Request,
    base: Seq<char>,
    procedure: Seq<char>,
    input: JsonModel,
    token: Seq<char>,
)
    requires
        request.url@ == base + "/api/trpc/"@ + procedure + "?input="@ + percent_text(
            json_text(input),
        ),
        request.authorization@ == "Bearer "@ + token,
        reads_back(input),
    ensures
        is_input_request(request, base, procedure, input, token),
{
    let text = json_text(input);
    lemma_query(text);
    assert(is_query_of(percent_text(text), text));
    assert(parsed_json(text) == Some(input));
    assert(is_address(request.url@, base, procedure, text));
}

/// The connection of a service is asked for at `services.connection`, by its app, its
/// stage and its kind, with the token.
pub proof fn law_connection_request(
    server: &str,
    token: &str,
    app_slug: &str,
    stage: &str,
    kind: &str,
    base: Seq<char>,
    call: ConnectionCall,
    r: Result<Request, String>,
)
    requires
        call_ensures(
            get_connection,
            (server, token, app_slug, stage, kind),
            Ok::<ConnectionCall, String>(call),
        ),
        is_base(base, server@),
        call_ensures(ConnectionCall::request, (&call,), r),
    ensures
        r is Ok,
        is_input_request(
            r->Ok_0,
            base,
            "services.connection"@,
            asks_for_service(app_slug@, stage@, kind@),
            token@,
        ),
{
    lemma_base(server@, base);
    let input = asks_for_service(app_slug@, stage@, kind@);
    assert(input == connection_input(app_slug@, stage@, kind@));
    lemma_input_request(r->Ok_0, base, "services.connection"@, input, token@);
}

/// A Postgres service that the server does not know is asked for as a database; any
/// other reply to `services.connection` is read by its code.
pub proof fn law_connection_receive(
    server: &str,
    token: &str,
    app_slug: &str,
    stage: &str,
    kind: &str,
    call: ConnectionCall,
    code: u16,
    status: Status,
    r: ConnectionReading,
)
    requires
        call_ensures(
            get_connection,
            (server, token, app_slug, stage, kind),
            Ok::<ConnectionCall, String>(call),
        ),
        call_ensures(Status::new, (code,), Some(status)),
        call_ensures(ConnectionCall::receive, (call, status), r),
    ensures
        code == 404 && kind@ == "postgres"@ <==> r is Database,
        !(code == 404 && kind@ == "postgres"@) ==> r is Own && is_right_reading(r->Own_0, code),
{
}

pub(crate) proof fn lemma_database_request(call: DatabaseCall, r: Result<Request, String>)
    requires
        call_ensures(DatabaseCall::request, (&call,), r),
    ensures
        r is Ok,
        is_input_request(
            r->Ok_0,
            call.base(),
            "database.connection"@,
            asks_for_database(call.app_slug(), call.stage()),
            call.token(),
        ),
{
    let input = asks_for_database(call.app_slug(), call.stage());
    assert(input == database_input(call.app_slug(), call.stage()));
    lemma_input_request(r->Ok_0, call.base(), "database.connection"@, input, call.token());
}

/// The database of a service that the server does not know is asked for at
/// `database.connection` of the same server, by the same app and stage, with the same
/// token.
pub proof fn law_database_request(
    server: &str,
    token: &str,
    app_slug: &str,
    stage: &str,
    kind: &str,
    base: Seq<char>,
    call: ConnectionCall,
    status: Status,
    database: DatabaseCall,
    r: Result<Request, String>,
)
    requires
        call_ensures(
            get_connection,
            (server, token, app_slug, stage, kind),
            Ok::<ConnectionCall, String>(call),
        ),
        is_base(base, server@),
        call_ensures(
            ConnectionCall::receive,
            (call, status),
            ConnectionReading::Database(database),
        ),
        call_ensures(DatabaseCall::request, (&database,), r),
    ensures
        r is Ok,
        is_input_request(
            r->Ok_0,
            base,
            "database.connection"@,
            asks_for_database(app_slug@, stage@),
            token@,
        ),
{
    lemma_base(server@, base);
    lemma_database_request(database, r);
}

/// What comes of the database of a service that the server does not know is the
/// connection to it under the app and the stage that were asked for; a reply that could
/// not be parsed is reported with the reason.
pub proof fn law_database_finish(
    server: &str,
    token: &str,
    app_slug: &str,
    stage: &str,
    kind: &str,
    call: ConnectionCall,
    status: Status,
    database: DatabaseCall,
    parsed: Result<TrpcResponse<LegacyDatabaseConnection>, String>,
    reply: LegacyDatabaseConnection,
    r: Result<ForgeGraphConnection, String>,
)
    requires
        call_ensures(
            get_connection,
            (server, token, app_slug, stage, kind),
            Ok::<ConnectionCall, String>(call),
        ),
        call_ensures(
            ConnectionCall::receive,
            (call, status),
            ConnectionReading::Database(database),
        ),
        call_ensures(DatabaseCall::finish, (&database, parsed), r),
    ensures
        parsed matches Ok(response) ==> (response.result.data == TrpcData::Plain(reply)
            || response.result.data == (TrpcData::Json { json: reply })) ==> r is Ok
            && is_connection_to(r->Ok_0, app_slug@, stage@, reply),
        parsed matches Err(error) ==> r is Err && r->Err_0@
            == "Failed to parse ForgeGraph response: "@ + error@,
{
    if let Ok(response) = parsed {
        if response.result.data == TrpcData::Plain(reply) || response.result.data == (
        TrpcData::Json { json: reply }) {
            lemma_is_connection_to(r->Ok_0, app_slug@, stage@, reply);
        }
    }
}

} // verus!
