//! Laws on what the `database` endpoints give.

use crate::json::{value_model, JsonModel};
use crate::laws::terms::{are_mesh_of, only_mesh, same_transport, same_transports};
use crate::legacy::{
    map_legacy_database_connection, map_legacy_database_services, map_legacy_transports,
    mapped_connection, mapped_transports, mark_legacy_connection_available,
    mark_legacy_connection_unavailable, LegacyDatabaseConnection, LegacyDatabaseService, LegacyTransport,
};
use crate::service::{
    service_views, transport_views, ForgeGraphConnection, ForgeGraphService, Transport,
};
use vstd::prelude::*;

verus! {

proof fn lemma_mapped_transports(transports: Seq<LegacyTransport>)
    ensures
        mapped_transports(transports).len() == only_mesh(transports).len(),
        forall|i: int|
            0 <= i < only_mesh(transports).len() ==> {
                &&& (#[trigger] mapped_transports(transports)[i]).kind == "mesh"@
                &&& mapped_transports(transports)[i].host == only_mesh(transports)[i]->host@
                &&& mapped_transports(transports)[i].port == only_mesh(transports)[i]->port
            },
    decreases transports.len(),
{
    reveal(Seq::filter);
    if transports.len() > 0 {
        lemma_mapped_transports(transports.drop_last());
    }
}

pub(crate) proof fn lemma_are_mesh_of(mapped: Seq<Transport>, transports: Seq<LegacyTransport>)
    requires
        transport_views(mapped) == mapped_transports(transports),
    ensures
        are_mesh_of(mapped, transports),
{
    lemma_mapped_transports(transports);
    assert(mapped.len() == transport_views(mapped).len());
    assert forall|i: int| 0 <= i < mapped.len() implies ({
        &&& (#[trigger] mapped[i]).kind@ == "mesh"@
        &&& mapped[i].host@ == only_mesh(transports)[i]->host@
        &&& mapped[i].port == only_mesh(transports)[i]->port
    }) by {
        assert(mapped[i]@ == transport_views(mapped)[i]);
        assert(mapped[i]@ == mapped_transports(transports)[i]);
    }
}

pub(crate) proof fn lemma_same_transports(a: Seq<Transport>, b: Seq<Transport>)
    requires
        transport_views(a) == transport_views(b),
    ensures
        same_transports(a, b),
{
    assert(a.len() == transport_views(a).len());
    assert(b.len() == transport_views(b).len());
    assert forall|i: int| 0 <= i < a.len() implies same_transport(#[trigger] a[i], b[i]) by {
        assert(a[i]@ == transport_views(a)[i]);
        assert(b[i]@ == transport_views(b)[i]);
    }
}

/// Of the transports of a database the mesh ones are kept, all of them, in their order,
/// with their hosts and ports.
pub proof fn law_transports(transports: Vec<LegacyTransport>, r: Vec<Transport>)
    requires
        call_ensures(map_legacy_transports, (transports,), r),
    ensures
        are_mesh_of(r@, transports@),
{
    lemma_are_mesh_of(r@, transports@);
}

/// Every row of a listing becomes the Postgres service of its app and stage, on its
/// node, whose status is unknown, with its mesh transports, and with nothing but the
/// database's name in its configuration.
pub proof fn law_rows_become_services(
    rows: Vec<LegacyDatabaseService>,
    r: Vec<ForgeGraphService>,
    i: int,
)
    requires
        call_ensures(map_legacy_database_services, (rows,), r),
        0 <= i < rows@.len(),
    ensures
        r@.len() == rows@.len(),
        r@[i].app_slug@ == rows@[i].app_slug@,
        r@[i].app_name@ == rows@[i].app_slug@,
        r@[i].stage@ == rows@[i].stage@,
        r@[i].kind@ == "postgres"@,
        r@[i].node_name@ == rows@[i].node_name@,
        r@[i].node_status@ == "unknown"@,
        value_model(r@[i].config) == JsonModel::Record(
            map!["dbName"@ => JsonModel::Text(rows@[i].db_name@)],
        ),
        are_mesh_of(r@[i].transports@, rows@[i].transports@),
{
    assert(r@.len() == service_views(r@).len());
    assert(r@[i]@ == service_views(r@)[i]);
    lemma_are_mesh_of(r@[i].transports@, rows@[i].transports@);
}

/// A listing gives as many services as it has rows.
pub proof fn law_as_many_services_as_rows(rows: Vec<LegacyDatabaseService>, r: Vec<ForgeGraphService>)
    requires
        call_ensures(map_legacy_database_services, (rows,), r),
    ensures
        r@.len() == rows@.len(),
{
    assert(r@.len() == service_views(r@).len());
}

/// Whether two services are alike but for their configurations.
pub open spec fn same_but_config(a: ForgeGraphService, b: ForgeGraphService) -> bool {
    &&& a.app_slug@ == b.app_slug@
    &&& a.app_name@ == b.app_name@
    &&& a.stage@ == b.stage@
    &&& a.kind@ == b.kind@
    &&& a.node_name@ == b.node_name@
    &&& a.node_status@ == b.node_status@
    &&& same_transports(a.transports@, b.transports@)
}

/// The entries of an object; none for any other value.
pub open spec fn object_of(value: JsonModel) -> Map<Seq<char>, JsonModel> {
    if value is Record {
        value->Record_0
    } else {
        Map::empty()
    }
}

/// A service that can be connected to says so in its configuration, which keeps its
/// other entries; the rest of the service stays.
pub proof fn law_mark_available(service: ForgeGraphService, r: ForgeGraphService)
    requires
        call_ensures(mark_legacy_connection_available, (service,), r),
    ensures
        value_model(r.config) == JsonModel::Record(
            object_of(value_model(service.config)).insert(
                "connectionAvailable"@,
                JsonModel::Bool(true),
            ),
        ),
        same_but_config(r, service),
{
    assert(r@.config == value_model(r.config));
    lemma_same_transports(r.transports@, service.transports@);
}

/// A service that cannot be connected to says so in its configuration, with the error,
/// and the configuration keeps its other entries; the rest of the service stays.
pub proof fn law_mark_unavailable(service: ForgeGraphService, error: String, r: ForgeGraphService)
    requires
        call_ensures(mark_legacy_connection_unavailable, (service, error), r),
    ensures
        value_model(r.config) == JsonModel::Record(
            object_of(value_model(service.config)).insert(
                "connectionAvailable"@,
                JsonModel::Bool(false),
            ).insert("connectionError"@, JsonModel::Text(error@)),
        ),
        same_but_config(r, service),
{
    assert(r@.config == value_model(r.config));
    lemma_same_transports(r.transports@, service.transports@);
}

/// `made` is the Postgres connection of an app and a stage to a database, by its mesh
/// transports, and holds the database's name, user and password under the names that
/// services use; nothing is known of its node.
pub open spec fn is_connection_to(
    made: ForgeGraphConnection,
    app_slug: Seq<char>,
    stage: Seq<char>,
    database: LegacyDatabaseConnection,
) -> bool {
    &&& made.app_slug@ == app_slug
    &&& made.app_name@ == app_slug
    &&& made.stage@ == stage
    &&& made.kind@ == "postgres"@
    &&& made.node_name@.len() == 0
    &&& made.node_status@ == "unknown"@
    &&& value_model(made.config) == JsonModel::Record(
        map![
            "dbName"@ => JsonModel::Text(database.db_name@),
            "dbUser"@ => JsonModel::Text(database.user@),
        ],
    )
    &&& value_model(made.credentials) == JsonModel::Record(
        map![
            "dbName"@ => JsonModel::Text(database.db_name@),
            "database"@ => JsonModel::Text(database.db_name@),
            "username"@ => JsonModel::Text(database.user@),
            "password"@ => JsonModel::Text(database.password@),
        ],
    )
    &&& are_mesh_of(made.transports@, database.transports@)
}

pub(crate) proof fn lemma_is_connection_to(
    made: ForgeGraphConnection,
    app_slug: Seq<char>,
    stage: Seq<char>,
    database: LegacyDatabaseConnection,
)
    requires
        made@ == mapped_connection(app_slug, stage, database),
    ensures
        is_connection_to(made, app_slug, stage, database),
{
    assert(made@.config == value_model(made.config));
    assert(made@.credentials == value_model(made.credentials));
    lemma_are_mesh_of(made.transports@, database.transports@);
}

/// The connection of a database is the one to it of the app and stage that were asked
/// for.
pub proof fn law_database_connection(
    app_slug: &str,
    stage: &str,
    connection: LegacyDatabaseConnection,
    r: ForgeGraphConnection,
)
    requires
        call_ensures(map_legacy_database_connection, (app_slug, stage, connection), r),
    ensures
        is_connection_to(r, app_slug@, stage@, connection),
{
    lemma_is_connection_to(r, app_slug@, stage@, connection);
}

} // verus!
