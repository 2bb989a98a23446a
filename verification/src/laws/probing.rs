//! Laws on listing the databases of a server that does not list services.

use crate::client::{
    failure, is_probing, list_services, probed_service, DatabaseCall, DatabasesCall, ProbeTurn,
    Probing, Request, ServicesCall, ServicesReading,
};
use crate::json::{member, value_model, JsonModel};
use crate::laws::calls::{
    asks_for_database, is_input_request, lemma_base, lemma_database_request,
};
use crate::laws::legacy::{is_connection_to, lemma_are_mesh_of, lemma_is_connection_to};
use crate::laws::terms::{are_mesh_of, is_base};
use crate::legacy::{
    mapped_service, mapped_services, LegacyDatabaseConnection, LegacyDatabaseService,
};
use crate::service::{
    service_views, ForgeGraphConnection, ForgeGraphService, ServiceView, TrpcData, TrpcResponse,
};
use crate::status::Status;
use vstd::prelude::*;

verus! {

/// `next` is how far a listing has come after the outcome of a turn was recorded.
pub open spec fn recorded(
    turn: ProbeTurn,
    outcome: Result<ForgeGraphConnection, String>,
    next: Probing,
) -> bool {
    call_ensures(ProbeTurn::record, (turn, outcome), next)
}

/// `end` is how far a listing has come after the outcomes were recorded, one for each
/// turn.
pub open spec fn probed(
    start: Probing,
    outcomes: Seq<Result<ForgeGraphConnection, String>>,
    end: Probing,
) -> bool
    decreases outcomes.len(),
{
    if outcomes.len() == 0 {
        end == start
    } else {
        exists|turn: ProbeTurn| #[trigger]
            recorded(turn, outcomes.last(), end) && probed(
                start,
                outcomes.drop_last(),
                Probing::Turn(turn),
            )
    }
}

/// `response` holds `rows`, in either envelope.
pub open spec fn lists(
    response: TrpcResponse<Vec<LegacyDatabaseService>>,
    rows: Vec<LegacyDatabaseService>,
) -> bool {
    response.result.data == TrpcData::Plain(rows) || response.result.data == (TrpcData::Json {
        json: rows,
    })
}

/// The services of the first rows, marked by their outcomes.
spec fn marked(
    rows: Seq<LegacyDatabaseService>,
    outcomes: Seq<Result<ForgeGraphConnection, String>>,
) -> Seq<ServiceView> {
    Seq::new(
        outcomes.len(),
        |i: int| probed_service(mapped_service(rows[i]), failure(outcomes[i])),
    )
}

proof fn lemma_probed(
    start: Probing,
    base: Seq<char>,
    token: Seq<char>,
    rows: Seq<LegacyDatabaseService>,
    outcomes: Seq<Result<ForgeGraphConnection, String>>,
    end: Probing,
)
    requires
        is_probing(start, base, token, seq![], mapped_services(rows)),
        probed(start, outcomes, end),
    ensures
        outcomes.len() <= rows.len(),
        is_probing(
            end,
            base,
            token,
            marked(rows, outcomes),
            mapped_services(rows).skip(outcomes.len() as int),
        ),
    decreases outcomes.len(),
{
    let pending = mapped_services(rows);
    if outcomes.len() == 0 {
        assert(marked(rows, outcomes) =~= seq![]);
        assert(pending.skip(0) =~= pending);
    } else {
        let before = outcomes.drop_last();
        let turn = choose|turn: ProbeTurn| #[trigger]
            recorded(turn, outcomes.last(), end) && probed(start, before, Probing::Turn(turn));
        lemma_probed(start, base, token, rows, before, Probing::Turn(turn));
        let n = before.len() as int;
        assert(pending.skip(n)[0] == mapped_service(rows[n]));
        assert(pending.skip(n).drop_first() =~= pending.skip(n + 1));
        assert(marked(rows, before).push(
            probed_service(mapped_service(rows[n]), failure(outcomes.last())),
        ) =~= marked(rows, outcomes));
    }
}

/// The configuration of a service whose database was asked for with the given outcome.
pub open spec fn configuration_after(
    db_name: Seq<char>,
    outcome: Result<ForgeGraphConnection, String>,
) -> JsonModel {
    match outcome {
        Ok(_) => JsonModel::Record(
            map![
                "dbName"@ => JsonModel::Text(db_name),
                "connectionAvailable"@ => JsonModel::Bool(true),
            ],
        ),
        Err(error) => JsonModel::Record(
            map![
                "dbName"@ => JsonModel::Text(db_name),
                "connectionAvailable"@ => JsonModel::Bool(false),
                "connectionError"@ => JsonModel::Text(error@),
            ],
        ),
    }
}

/// A listing gives for every row, in the order of the rows, the Postgres service of its
/// app and stage, on its node, by its mesh transports. The service says that it can be
/// connected to where asking for its database succeeded, and else that it cannot, with
/// the error, whatever that error is.
pub proof fn law_listing(
    call: DatabasesCall,
    response: TrpcResponse<Vec<LegacyDatabaseService>>,
    rows: Vec<LegacyDatabaseService>,
    start: Probing,
    outcomes: Seq<Result<ForgeGraphConnection, String>>,
    services: Vec<ForgeGraphService>,
    i: int,
)
    requires
        call_ensures(
            DatabasesCall::finish,
            (call, Ok::<TrpcResponse<Vec<LegacyDatabaseService>>, String>(response)),
            Ok::<Probing, String>(start),
        ),
        lists(response, rows),
        probed(start, outcomes, Probing::Done(services)),
    ensures
        outcomes.len() == rows@.len(),
        services@.len() == rows@.len(),
        0 <= i < rows@.len() ==> {
            &&& services@[i].app_slug@ == rows@[i].app_slug@
            &&& services@[i].app_name@ == rows@[i].app_slug@
            &&& services@[i].stage@ == rows@[i].stage@
            &&& services@[i].kind@ == "postgres"@
            &&& services@[i].node_name@ == rows@[i].node_name@
            &&& services@[i].node_status@ == "unknown"@
            &&& value_model(services@[i].config) == configuration_after(
                rows@[i].db_name@,
                outcomes[i],
            )
            &&& are_mesh_of(services@[i].transports@, rows@[i].transports@)
        },
{
    lemma_probed(start, call.base(), call.token(), rows@, outcomes, Probing::Done(services));
    let pending = mapped_services(rows@);
    assert(pending.len() == rows@.len());
    assert(pending.skip(outcomes.len() as int).len() == 0);
    let views = service_views(services@);
    assert(services@.len() == views.len());
    if 0 <= i < rows@.len() {
        let service = services@[i];
        assert(service@ == views[i]);
        assert(service@ == probed_service(mapped_service(rows@[i]), failure(outcomes[i])));
        assert(service@.config == value_model(service.config));
        assert(service@.config->Record_0 =~= configuration_after(
            rows@[i].db_name@,
            outcomes[i],
        )->Record_0);
        lemma_are_mesh_of(service.transports@, rows@[i].transports@);
    }
}

/// A listing is done when every row has had its turn, and not before.
pub proof fn law_listing_goes_on(
    call: DatabasesCall,
    response: TrpcResponse<Vec<LegacyDatabaseService>>,
    rows: Vec<LegacyDatabaseService>,
    start: Probing,
    outcomes: Seq<Result<ForgeGraphConnection, String>>,
    end: Probing,
)
    requires
        call_ensures(
            DatabasesCall::finish,
            (call, Ok::<TrpcResponse<Vec<LegacyDatabaseService>>, String>(response)),
            Ok::<Probing, String>(start),
        ),
        lists(response, rows),
        probed(start, outcomes, end),
    ensures
        end is Done <==> outcomes.len() == rows@.len(),
        end is Turn <==> outcomes.len() < rows@.len(),
{
    lemma_probed(start, call.base(), call.token(), rows@, outcomes, end);
    let pending = mapped_services(rows@);
    assert(pending.len() == rows@.len());
    assert(pending.skip(outcomes.len() as int).len() == rows@.len() - outcomes.len());
}

/// A listing that could not be parsed is reported with the reason, and one that could
/// be is taken up.
pub proof fn law_databases_finish(
    call: DatabasesCall,
    parsed: Result<TrpcResponse<Vec<LegacyDatabaseService>>, String>,
    r: Result<Probing, String>,
)
    requires
        call_ensures(DatabasesCall::finish, (call, parsed), r),
    ensures
        r is Ok <==> parsed is Ok,
        parsed matches Err(error) ==> r is Err && r->Err_0@
            == "Failed to parse ForgeGraph response: "@ + error@,
{
}

/// Every turn asks for the database of its row, at `database.connection` of the server
/// that was asked, by the row's app and stage, with the token.
pub proof fn law_listing_asks(
    server: &str,
    token: &str,
    base: Seq<char>,
    services_call: ServicesCall,
    status: Status,
    call: DatabasesCall,
    response: TrpcResponse<Vec<LegacyDatabaseService>>,
    rows: Vec<LegacyDatabaseService>,
    start: Probing,
    outcomes: Seq<Result<ForgeGraphConnection, String>>,
    turn: ProbeTurn,
    database: DatabaseCall,
    r: Result<Request, String>,
)
    requires
        call_ensures(list_services, (server, token), Ok::<ServicesCall, String>(services_call)),
        is_base(base, server@),
        call_ensures(
            ServicesCall::receive,
            (services_call, status),
            ServicesReading::Databases(call),
        ),
        call_ensures(
            DatabasesCall::finish,
            (call, Ok::<TrpcResponse<Vec<LegacyDatabaseService>>, String>(response)),
            Ok::<Probing, String>(start),
        ),
        lists(response, rows),
        probed(start, outcomes, Probing::Turn(turn)),
        call_ensures(ProbeTurn::call, (&turn,), database),
        call_ensures(DatabaseCall::request, (&database,), r),
    ensures
        outcomes.len() < rows@.len(),
        r is Ok,
        is_input_request(
            r->Ok_0,
            base,
            "database.connection"@,
            asks_for_database(
                rows@[outcomes.len() as int].app_slug@,
                rows@[outcomes.len() as int].stage@,
            ),
            token@,
        ),
{
    lemma_base(server@, base);
    lemma_probed(start, call.base(), call.token(), rows@, outcomes, Probing::Turn(turn));
    lemma_database_request(database, r);
    let pending = mapped_services(rows@);
    let n = outcomes.len() as int;
    assert(pending.skip(n).len() > 0);
    assert(pending.skip(n)[0] == mapped_service(rows@[n]));
}

/// What a turn's database gives is the connection to it under the app and the stage of
/// the turn.
pub proof fn law_turn_finish(
    turn: ProbeTurn,
    database: DatabaseCall,
    response: TrpcResponse<LegacyDatabaseConnection>,
    reply: LegacyDatabaseConnection,
    r: Result<ForgeGraphConnection, String>,
)
    requires
        call_ensures(ProbeTurn::call, (&turn,), database),
        call_ensures(
            DatabaseCall::finish,
            (&database, Ok::<TrpcResponse<LegacyDatabaseConnection>, String>(response)),
            r,
        ),
        response.result.data == TrpcData::Plain(reply) || response.result.data == (
        TrpcData::Json { json: reply }),
    ensures
        r is Ok,
        is_connection_to(
            r->Ok_0,
            turn.pending()[0].app_slug,
            turn.pending()[0].stage,
            reply,
        ),
{
    lemma_is_connection_to(r->Ok_0, database.app_slug(), database.stage(), reply);
}

/// The outcome of a turn marks the service of the turn: with an error, whatever it is,
/// the service says that it cannot be connected to, and why; without one, that it can.
/// The services of earlier turns stay as they are.
pub proof fn law_record(
    turn: ProbeTurn,
    outcome: Result<ForgeGraphConnection, String>,
    next: ProbeTurn,
)
    requires
        call_ensures(ProbeTurn::record, (turn, outcome), Probing::Turn(next)),
    ensures
        next.checked().drop_last() == turn.checked(),
        next.pending() == turn.pending().drop_first(),
        member(next.checked().last().config, "connectionAvailable"@) == Some(
            JsonModel::Bool(outcome is Ok),
        ),
        outcome matches Err(error) ==> member(
            next.checked().last().config,
            "connectionError"@,
        ) == Some(JsonModel::Text(error@)),
{
    reveal_strlit("connectionAvailable");
    reveal_strlit("connectionError");
    assert("connectionAvailable"@.len() == 19);
    assert("connectionError"@.len() == 15);
    assert(next.checked().drop_last() =~= turn.checked());
}

} // verus!
