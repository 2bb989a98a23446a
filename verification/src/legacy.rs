//! Servers that only know the `database` endpoints: their rows and connections
//! become services and connections like any other.

use crate::json::{
    bool_value, entries, map_model, member, object_entries, record_value, text_value, JsonModel,
};
use crate::service::{
    service_views, transport_views, ConnectionView, ForgeGraphConnection, ForgeGraphService,
    ServiceView, Transport, TransportView,
};
use vstd::prelude::*;
use vstd::string::*;

verus! {

/// How a database can be reached, as the `database` endpoints put it.
#[derive(Debug, Clone)]
pub enum LegacyTransport {
    Mesh { host: String, port: u16 },
    SshTunnel {  },
}

/// A row of `database.list`.
#[derive(Debug, Clone)]
pub struct LegacyDatabaseService {
    pub app_slug: String,
    pub stage: String,
    pub node_name: String,
    pub db_name: String,
    pub transports: Vec<LegacyTransport>,
}

/// The reply of `database.connection`.
#[derive(Debug, Clone)]
pub struct LegacyDatabaseConnection {
    pub user: String,
    pub password: String,
    pub db_name: String,
    pub transports: Vec<LegacyTransport>,
}

/// The transport that a mesh transport stands for; an SSH tunnel stands for none.
pub open spec fn mapped_transport(transport: LegacyTransport) -> Option<TransportView> {
    match transport {
        LegacyTransport::Mesh { host, port } => Some(
            TransportView { kind: "mesh"@, host: host@, port },
        ),
        LegacyTransport::SshTunnel {  } => None,
    }
}

/// The transports that the mesh transports among the given ones stand for, in order.
pub open spec fn mapped_transports(transports: Seq<LegacyTransport>) -> Seq<TransportView>
    decreases transports.len(),
{
    if transports.len() == 0 {
        seq![]
    } else {
        let before = mapped_transports(transports.drop_last());
        match mapped_transport(transports.last()) {
            Some(transport) => before.push(transport),
            None => before,
        }
    }
}

/// The service that a row of `database.list` stands for.
pub open spec fn mapped_service(row: LegacyDatabaseService) -> ServiceView {
    ServiceView {
        app_slug: row.app_slug@,
        app_name: row.app_slug@,
        stage: row.stage@,
        kind: "postgres"@,
        node_name: row.node_name@,
        node_status: "unknown"@,
        config: JsonModel::Record(map!["dbName"@ => JsonModel::Text(row.db_name@)]),
        transports: mapped_transports(row.transports@),
    }
}

/// The services that rows of `database.list` stand for, one for each row.
pub open spec fn mapped_services(rows: Seq<LegacyDatabaseService>) -> Seq<ServiceView> {
    rows.map_values(|row: LegacyDatabaseService| mapped_service(row))
}

/// Keeps the mesh transports; SSH tunnels are left out.
pub fn map_legacy_transports(transports: Vec<LegacyTransport>) -> (r: Vec<Transport>)
    ensures
        transport_views(r@) == mapped_transports(transports@),
{
    let mut mapped: Vec<Transport> = Vec::new();
    let ghost all = transports@;
    assert(all.take(0) =~= seq![]);
    for transport in it: transports
        invariant
            it.seq() == all,
            transport_views(mapped@) =~= mapped_transports(all.take(it.index() as int)),
    {
        assert(all.take(it.index() + 1).drop_last() =~= all.take(it.index() as int));
        match transport {
            LegacyTransport::Mesh { host, port } => {
                mapped.push(Transport { kind: "mesh".to_owned(), host, port });
            },
            LegacyTransport::SshTunnel {  } => {},
        }
    }
    assert(all.take(all.len() as int) =~= all);
    mapped
}

/// Turns the rows of `database.list` into Postgres services.
pub fn map_legacy_database_services(rows: Vec<LegacyDatabaseService>) -> (r: Vec<ForgeGraphService>)
    ensures
        service_views(r@) == mapped_services(rows@),
{
    let mut services: Vec<ForgeGraphService> = Vec::new();
    let ghost all = rows@;
    for row in it: rows
        invariant
            it.seq() == all,
            services@.len() == it.index(),
            forall|j: int| 0 <= j < it.index() ==> services@[j]@ == mapped_service(#[trigger] all[j]),
    {
        let mut config = serde_json::Map::new();
        config.insert("dbName".to_owned(), text_value(row.db_name));
        assert(map_model(config) =~= map!["dbName"@ => JsonModel::Text(row.db_name@)]);
        let service = ForgeGraphService {
            app_slug: row.app_slug.clone(),
            app_name: row.app_slug,
            stage: row.stage,
            kind: "postgres".to_owned(),
            node_name: row.node_name,
            node_status: "unknown".to_owned(),
            config: record_value(config),
            transports: map_legacy_transports(row.transports),
        };
        assert(service@ == mapped_service(row));
        services.push(service);
    }
    assert(service_views(services@) =~= mapped_services(all));
    services
}

/// The service, marked as one whose connection can be had.
pub open spec fn marked_available(service: ServiceView) -> ServiceView {
    ServiceView {
        config: JsonModel::Record(
            entries(service.config).insert("connectionAvailable"@, JsonModel::Bool(true)),
        ),
        ..service
    }
}

/// The service, marked as one whose connection cannot be had, and why.
pub open spec fn marked_unavailable(service: ServiceView, error: Seq<char>) -> ServiceView {
    ServiceView {
        config: JsonModel::Record(
            entries(service.config).insert("connectionAvailable"@, JsonModel::Bool(false)).insert(
                "connectionError"@,
                JsonModel::Text(error),
            ),
        ),
        ..service
    }
}

/// Notes in the service's configuration that its connection can be had.
pub fn mark_legacy_connection_available(service: ForgeGraphService) -> (r: ForgeGraphService)
    ensures
        r@ == marked_available(service@),
{
    let mut config = object_entries(&service.config);
    config.insert("connectionAvailable".to_owned(), bool_value(true));
    ForgeGraphService { config: record_value(config), ..service }
}

/// Notes in the service's configuration that its connection cannot be had, and why.
pub fn mark_legacy_connection_unavailable(service: ForgeGraphService, error: String) -> (r:
    ForgeGraphService)
    ensures
        r@ == marked_unavailable(service@, error@),
{
    let mut config = object_entries(&service.config);
    config.insert("connectionAvailable".to_owned(), bool_value(false));
    config.insert("connectionError".to_owned(), text_value(error));
    ForgeGraphService { config: record_value(config), ..service }
}

/// The connection that a reply of `database.connection` stands for.
pub open spec fn mapped_connection(
    app_slug: Seq<char>,
    stage: Seq<char>,
    connection: LegacyDatabaseConnection,
) -> ConnectionView {
    ConnectionView {
        app_slug,
        app_name: app_slug,
        stage,
        kind: "postgres"@,
        node_name: seq![],
        node_status: "unknown"@,
        config: JsonModel::Record(
            map![
                "dbName"@ => JsonModel::Text(connection.db_name@),
                "dbUser"@ => JsonModel::Text(connection.user@),
            ],
        ),
        transports: mapped_transports(connection.transports@),
        credentials: JsonModel::Record(
            map![
                "dbName"@ => JsonModel::Text(connection.db_name@),
                "database"@ => JsonModel::Text(connection.db_name@),
                "username"@ => JsonModel::Text(connection.user@),
                "password"@ => JsonModel::Text(connection.password@),
            ],
        ),
    }
}

/// Turns the reply of `database.connection` into a Postgres connection.
pub fn map_legacy_database_connection(
    app_slug: &str,
    stage: &str,
    connection: LegacyDatabaseConnection,
) -> (r: ForgeGraphConnection)
    ensures
        r@ == mapped_connection(app_slug@, stage@, connection),
{
    let mut config = serde_json::Map::new();
    config.insert("dbName".to_owned(), text_value(connection.db_name.clone()));
    config.insert("dbUser".to_owned(), text_value(connection.user.clone()));
    let mut credentials = serde_json::Map::new();
    credentials.insert("dbName".to_owned(), text_value(connection.db_name.clone()));
    credentials.insert("database".to_owned(), text_value(connection.db_name));
    credentials.insert("username".to_owned(), text_value(connection.user));
    credentials.insert("password".to_owned(), text_value(connection.password));
    proof {
        let expected = mapped_connection(app_slug@, stage@, connection);
        assert(map_model(config) =~= entries(expected.config));
        assert(map_model(credentials) =~= entries(expected.credentials));
    }
    ForgeGraphConnection {
        app_slug: app_slug.to_owned(),
        app_name: app_slug.to_owned(),
        stage: stage.to_owned(),
        kind: "postgres".to_owned(),
        node_name: String::new(),
        node_status: "unknown".to_owned(),
        config: record_value(config),
        transports: map_legacy_transports(connection.transports),
        credentials: record_value(credentials),
    }
}

/// Transports keep their order: those of a list come before those of what follows it.
pub proof fn law_transports_keep_order(first: Seq<LegacyTransport>, then: Seq<LegacyTransport>)
    ensures
        mapped_transports(first + then) == mapped_transports(first) + mapped_transports(then),
    decreases then.len(),
{
    if then.len() == 0 {
        assert(first + then =~= first);
        assert(mapped_transports(first) + mapped_transports(then) =~= mapped_transports(first));
    } else {
        law_transports_keep_order(first, then.drop_last());
        assert((first + then).drop_last() =~= first + then.drop_last());
        assert((first + then).last() == then.last());
        assert(mapped_transports(first + then) =~= mapped_transports(first) + mapped_transports(
            then,
        ));
    }
}

/// Only mesh transports come out, each of them with the host and port of a mesh
/// transport that went in.
pub proof fn law_transports_are_mesh(transports: Seq<LegacyTransport>, i: int)
    requires
        0 <= i < mapped_transports(transports).len(),
    ensures
        mapped_transports(transports)[i].kind == "mesh"@,
        exists|j: int|
            0 <= j < transports.len() && #[trigger] mapped_transport(transports[j]) == Some(
                mapped_transports(transports)[i],
            ),
    decreases transports.len(),
{
    let before = mapped_transports(transports.drop_last());
    if i < before.len() {
        law_transports_are_mesh(transports.drop_last(), i);
        let j = choose|j: int|
            0 <= j < transports.drop_last().len() && #[trigger] mapped_transport(
                transports.drop_last()[j],
            ) == Some(before[i]);
        assert(transports[j] == transports.drop_last()[j]);
        assert(mapped_transport(transports[j]) == Some(mapped_transports(transports)[i]));
    } else {
        assert(mapped_transport(transports[transports.len() - 1]) == Some(
            mapped_transports(transports)[i],
        ));
    }
}

/// No mesh transport is lost.
pub proof fn law_mesh_transports_are_kept(transports: Seq<LegacyTransport>, j: int)
    requires
        0 <= j < transports.len(),
        transports[j] is Mesh,
    ensures
        mapped_transports(transports).contains(mapped_transport(transports[j])->Some_0),
    decreases transports.len(),
{
    let kept = mapped_transport(transports[j])->Some_0;
    let before = mapped_transports(transports.drop_last());
    if j < transports.len() - 1 {
        law_mesh_transports_are_kept(transports.drop_last(), j);
        let i = choose|i: int| 0 <= i < before.len() && before[i] == kept;
        assert(mapped_transports(transports)[i] == kept);
    } else {
        assert(mapped_transports(transports)[before.len() as int] == kept);
    }
}

/// Marking a service says in its configuration whether its connection can be had,
/// and changes no other entry of the configuration and nothing else of the service.
pub proof fn law_marks_change_nothing_else(service: ServiceView, error: Seq<char>, key: Seq<char>)
    ensures
        member(marked_available(service).config, "connectionAvailable"@) == Some(
            JsonModel::Bool(true),
        ),
        member(marked_unavailable(service, error).config, "connectionAvailable"@) == Some(
            JsonModel::Bool(false),
        ),
        member(marked_unavailable(service, error).config, "connectionError"@) == Some(
            JsonModel::Text(error),
        ),
        key != "connectionAvailable"@ ==> member(marked_available(service).config, key) == member(
            service.config,
            key,
        ),
        key != "connectionAvailable"@ && key != "connectionError"@ ==> member(
            marked_unavailable(service, error).config,
            key,
        ) == member(service.config, key),
        marked_available(service) == (ServiceView {
            config: marked_available(service).config,
            ..service
        }),
        marked_unavailable(service, error) == (ServiceView {
            config: marked_unavailable(service, error).config,
            ..service
        }),
{
    reveal_strlit("connectionAvailable");
    reveal_strlit("connectionError");
    assert("connectionAvailable"@.len() != "connectionError"@.len());
}

} // verus!
