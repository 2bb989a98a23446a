//! Connecting to a service: the pool key, the transport that is used, and the
//! connection configuration that its credentials give.

use crate::json::{get, member, text_member, text_of, unsigned_of, value_model, JsonModel};
use crate::legacy::{
    law_transports_are_mesh, mapped_connection, mapped_transports, LegacyDatabaseConnection,
};
use crate::service::{transport_views, ForgeGraphConnection, Transport, TransportView};
use crate::text::{contains, decimal, decimal_text, holds_part, optional_text, same};
use vstd::prelude::*;
use vstd::string::*;

verus! {

/// The key that identifies a service's connection in the pool.
pub open spec fn pool_key(app_slug: Seq<char>, stage: Seq<char>, kind: Seq<char>) -> Seq<char> {
    "fg:"@ + app_slug + ":"@ + stage + ":"@ + kind
}

/// Build the synthetic pool key used to identify a ForgeGraph connection.
pub fn fg_pool_key(app_slug: &str, stage: &str, kind: &str) -> (r: String)
    ensures
        r@ == pool_key(app_slug@, stage@, kind@),
{
    "fg:".to_owned().concat(app_slug).concat(":").concat(stage).concat(":").concat(kind)
}

/// Return the pool key for a ForgeGraph service so the frontend can use it
/// with existing pool-based query commands.
pub fn forgegraph_pool_key(app_slug: String, stage: String, kind: String) -> (r: Result<
    String,
    String,
>)
    ensures
        r is Ok,
        r->Ok_0@ == pool_key(app_slug@, stage@, kind@),
{
    Ok(fg_pool_key(&app_slug, &stage, &kind))
}

/// How many times `c` stands in `text`.
pub open spec fn occurrences(text: Seq<char>, c: char) -> nat
    decreases text.len(),
{
    if text.len() == 0 {
        0
    } else {
        occurrences(text.drop_first(), c) + if text[0] == c {
            1nat
        } else {
            0nat
        }
    }
}

/// Where two texts go on with `c` after as many further `c`, they split at the same place.
proof fn lemma_split(a: Seq<char>, x: Seq<char>, b: Seq<char>, y: Seq<char>, c: char)
    requires
        a + seq![c] + x == b + seq![c] + y,
        occurrences(a, c) == occurrences(b, c),
    ensures
        a == b,
        x == y,
    decreases a.len(),
{
    let left = a + seq![c] + x;
    let right = b + seq![c] + y;
    if a.len() == 0 {
        if b.len() > 0 {
            assert(left[0] == c);
            assert(right[0] == b[0]);
        }
        assert(left.drop_first() =~= x);
        assert(right.drop_first() =~= y);
        assert(a =~= b);
    } else if b.len() == 0 {
        assert(left[0] == a[0]);
        assert(right[0] == c);
    } else {
        assert(left[0] == a[0]);
        assert(right[0] == b[0]);
        assert(left.drop_first() =~= a.drop_first() + seq![c] + x);
        assert(right.drop_first() =~= b.drop_first() + seq![c] + y);
        lemma_split(a.drop_first(), x, b.drop_first(), y, c);
        assert(a =~= seq![a[0]] + a.drop_first());
        assert(b =~= seq![b[0]] + b.drop_first());
    }
}

/// Different services have different pool keys, as long as their apps hold equally
/// many colons and their stages hold equally many colons.
pub proof fn law_pool_keys_distinct(
    a: (Seq<char>, Seq<char>, Seq<char>),
    b: (Seq<char>, Seq<char>, Seq<char>),
)
    requires
        occurrences(a.0, ':') == occurrences(b.0, ':'),
        occurrences(a.1, ':') == occurrences(b.1, ':'),
        pool_key(a.0, a.1, a.2) == pool_key(b.0, b.1, b.2),
    ensures
        a == b,
{
    reveal_strlit("fg:");
    reveal_strlit(":");
    assert(":"@ =~= seq![':']);
    let left = pool_key(a.0, a.1, a.2);
    let right = pool_key(b.0, b.1, b.2);
    let after_left = a.1 + seq![':'] + a.2;
    let after_right = b.1 + seq![':'] + b.2;
    assert(left.subrange(3, left.len() as int) =~= a.0 + seq![':'] + after_left);
    assert(right.subrange(3, right.len() as int) =~= b.0 + seq![':'] + after_right);
    lemma_split(a.0, after_left, b.0, after_right, ':');
    lemma_split(a.1, a.2, b.1, b.2, ':');
}

/// The text under the first of `keys` under which `credentials` holds a text.
pub open spec fn first_credential(credentials: JsonModel, keys: Seq<Seq<char>>) -> Option<Seq<char>>
    decreases keys.len(),
{
    if keys.len() == 0 {
        None
    } else {
        match text_of(member(credentials, keys[0])) {
            Some(text) => Some(text),
            None => first_credential(credentials, keys.drop_first()),
        }
    }
}

/// The characters of several texts.
pub open spec fn texts(keys: Seq<&str>) -> Seq<Seq<char>> {
    keys.map_values(|key: &str| key@)
}

/// The text under the first of `keys` that holds one.
pub fn credential_string(credentials: &serde_json::Value, keys: &[&str]) -> (r: Option<String>)
    ensures
        optional_text(r) == first_credential(value_model(*credentials), texts(keys@)),
{
    let mut i: usize = 0;
    assert(texts(keys@).skip(0) =~= texts(keys@));
    while i < keys.len()
        invariant
            i <= keys@.len(),
            first_credential(value_model(*credentials), texts(keys@)) == first_credential(
                value_model(*credentials),
                texts(keys@).skip(i as int),
            ),
        decreases keys@.len() - i,
    {
        assert(texts(keys@).skip(i as int)[0] == keys@[i as int]@);
        assert(texts(keys@).skip(i as int).drop_first() =~= texts(keys@).skip(i + 1));
        let found = text_member(credentials, keys[i]);
        if found.is_some() {
            return found;
        }
        i = i + 1;
    }
    None
}

/// The transport to connect by: the first mesh transport, and no other.
pub open spec fn first_mesh(transports: Seq<TransportView>) -> Option<TransportView>
    decreases transports.len(),
{
    if transports.len() == 0 {
        None
    } else if transports[0].kind == "mesh"@ {
        Some(transports[0])
    } else {
        first_mesh(transports.drop_first())
    }
}

/// Picks the first mesh transport.
pub fn pick_transport(transports: &Vec<Transport>) -> (r: Option<&Transport>)
    ensures
        match r {
            Some(transport) => first_mesh(transport_views(transports@)) == Some(transport@),
            None => first_mesh(transport_views(transports@)) is None,
        },
{
    let ghost views = transport_views(transports@);
    let mut i: usize = 0;
    assert(views.skip(0) =~= views);
    while i < transports.len()
        invariant
            i <= transports@.len(),
            views == transport_views(transports@),
            first_mesh(views) == first_mesh(views.skip(i as int)),
        decreases transports@.len() - i,
    {
        assert(views.skip(i as int)[0] == transports@[i as int]@);
        assert(views.skip(i as int).drop_first() =~= views.skip(i + 1));
        if same(&transports[i].kind, "mesh") {
            return Some(&transports[i]);
        }
        i = i + 1;
    }
    None
}

/// Only mesh transports are used: the one to connect by is a mesh transport, and no
/// mesh transport comes before it. There is none only where no transport is a mesh one.
pub proof fn law_only_mesh_is_used(transports: Seq<TransportView>)
    ensures
        match first_mesh(transports) {
            Some(transport) => {
                &&& transport.kind == "mesh"@
                &&& exists|i: int|
                    {
                        &&& 0 <= i < transports.len()
                        &&& transport == #[trigger] transports[i]
                        &&& forall|j: int| 0 <= j < i ==> (#[trigger] transports[j]).kind != "mesh"@
                    }
            },
            None => forall|i: int|
                0 <= i < transports.len() ==> (#[trigger] transports[i]).kind != "mesh"@,
        },
    decreases transports.len(),
{
    if transports.len() > 0 {
        if transports[0].kind == "mesh"@ {
            assert(first_mesh(transports) == Some(transports[0]));
        } else {
            let rest = transports.drop_first();
            law_only_mesh_is_used(rest);
            if let Some(transport) = first_mesh(rest) {
                let i = choose|i: int|
                    {
                        &&& 0 <= i < rest.len()
                        &&& transport == #[trigger] rest[i]
                        &&& forall|j: int| 0 <= j < i ==> (#[trigger] rest[j]).kind != "mesh"@
                    };
                assert(transports[i + 1] == transport);
                assert forall|j: int| 0 <= j < i + 1 implies (#[trigger] transports[j]).kind
                    != "mesh"@ by {
                    if j > 0 {
                        assert(rest[j - 1] == transports[j]);
                    }
                }
            } else {
                assert forall|j: int| 0 <= j < transports.len() implies (
                #[trigger] transports[j]).kind != "mesh"@ by {
                    if j > 0 {
                        assert(rest[j - 1] == transports[j]);
                    }
                }
            }
        }
    }
}

/// What the pool needs to know to connect to a database.
pub struct ConnectionConfig {
    pub db_type: String,
    pub host: Option<String>,
    pub port: Option<i64>,
    pub database: Option<String>,
    pub username: Option<String>,
    pub password: Option<String>,
    pub ssl: Option<bool>,
    pub file_path: Option<String>,
    pub ssh_enabled: bool,
    pub ssh_host: Option<String>,
    pub ssh_port: Option<i64>,
    pub ssh_user: Option<String>,
    pub ssh_password: Option<String>,
    pub ssh_key_path: Option<String>,
}

/// What a [`ConnectionConfig`] says.
pub struct ConfigView {
    pub db_type: Seq<char>,
    pub host: Option<Seq<char>>,
    pub port: Option<i64>,
    pub database: Option<Seq<char>>,
    pub username: Option<Seq<char>>,
    pub password: Option<Seq<char>>,
    pub ssl: Option<bool>,
    pub file_path: Option<Seq<char>>,
    pub ssh_enabled: bool,
    pub ssh_host: Option<Seq<char>>,
    pub ssh_port: Option<i64>,
    pub ssh_user: Option<Seq<char>>,
    pub ssh_password: Option<Seq<char>>,
    pub ssh_key_path: Option<Seq<char>>,
}

impl View for ConnectionConfig {
    type V = ConfigView;

    open spec fn view(&self) -> ConfigView {
        ConfigView {
            db_type: self.db_type@,
            host: optional_text(self.host),
            port: self.port,
            database: optional_text(self.database),
            username: optional_text(self.username),
            password: optional_text(self.password),
            ssl: self.ssl,
            file_path: optional_text(self.file_path),
            ssh_enabled: self.ssh_enabled,
            ssh_host: optional_text(self.ssh_host),
            ssh_port: self.ssh_port,
            ssh_user: optional_text(self.ssh_user),
            ssh_password: optional_text(self.ssh_password),
            ssh_key_path: optional_text(self.ssh_key_path),
        }
    }
}

/// A configuration that reaches a server directly, neither by file nor by SSH.
pub open spec fn direct_config(
    db_type: Seq<char>,
    transport: TransportView,
    database: Option<Seq<char>>,
    username: Option<Seq<char>>,
    password: Option<Seq<char>>,
    ssl: bool,
) -> ConfigView {
    ConfigView {
        db_type,
        host: Some(transport.host),
        port: Some(transport.port as i64),
        database,
        username,
        password,
        ssl: Some(ssl),
        file_path: None,
        ssh_enabled: false,
        ssh_host: None,
        ssh_port: None,
        ssh_user: None,
        ssh_password: None,
        ssh_key_path: None,
    }
}

/// The configuration for a Postgres service.
pub open spec fn postgres_config(transport: TransportView, credentials: JsonModel) -> ConfigView {
    direct_config(
        "postgres"@,
        transport,
        first_credential(credentials, seq!["database"@, "dbName"@]),
        first_credential(credentials, seq!["username"@, "dbUser"@, "user"@]),
        first_credential(credentials, seq!["password"@]),
        true,
    )
}

/// The configuration for a Redis service.
pub open spec fn redis_config(transport: TransportView, credentials: JsonModel) -> ConfigView {
    direct_config(
        "redis"@,
        transport,
        match unsigned_of(member(credentials, "dbIndex"@)) {
            Some(index) => Some(decimal_text(index as nat)),
            None => None,
        },
        text_of(member(credentials, "username"@)),
        text_of(member(credentials, "password"@)),
        false,
    )
}

/// The kinds of services that can be connected to.
pub open spec fn is_supported_kind(kind: Seq<char>) -> bool {
    kind == "postgres"@ || kind == "redis"@
}

/// The configuration for a service of a supported kind.
pub open spec fn service_config(
    kind: Seq<char>,
    transport: TransportView,
    credentials: JsonModel,
) -> ConfigView {
    if kind == "postgres"@ {
        postgres_config(transport, credentials)
    } else {
        redis_config(transport, credentials)
    }
}

fn direct(
    db_type: &str,
    transport: &Transport,
    database: Option<String>,
    username: Option<String>,
    password: Option<String>,
    ssl: bool,
) -> (r: ConnectionConfig)
    ensures
        r@ == direct_config(
            db_type@,
            transport@,
            optional_text(database),
            optional_text(username),
            optional_text(password),
            ssl,
        ),
{
    ConnectionConfig {
        db_type: db_type.to_owned(),
        host: Some(transport.host.clone()),
        port: Some(transport.port as i64),
        database,
        username,
        password,
        ssl: Some(ssl),
        file_path: None,
        ssh_enabled: false,
        ssh_host: None,
        ssh_port: None,
        ssh_user: None,
        ssh_password: None,
        ssh_key_path: None,
    }
}

/// The number of the Redis database that the credentials name, in decimal.
fn database_index(credentials: &serde_json::Value) -> (r: Option<String>)
    ensures
        optional_text(r) == match unsigned_of(member(value_model(*credentials), "dbIndex"@)) {
            Some(index) => Some(decimal_text(index as nat)),
            None => None,
        },
{
    match get(credentials, "dbIndex") {
        Some(found) => match found.as_u64() {
            Some(index) => Some(decimal(index)),
            None => None,
        },
        None => None,
    }
}

/// The configuration to connect to a service with: by its first mesh transport, with
/// the credentials that its connection holds.
pub fn connection_config(kind: &str, connection: &ForgeGraphConnection) -> (r: Result<
    ConnectionConfig,
    String,
>)
    ensures
        match (first_mesh(connection@.transports), r) {
            (None, Ok(_)) => false,
            (None, Err(error)) => error@ == "No transports available for this service"@,
            (Some(transport), Ok(config)) => is_supported_kind(kind@) && config@ == service_config(
                kind@,
                transport,
                connection@.credentials,
            ),
            (Some(_), Err(error)) => !is_supported_kind(kind@) && error@
                == "Unsupported service kind: "@ + kind@,
        },
{
    let transport = match pick_transport(&connection.transports) {
        Some(transport) => transport,
        None => return Err("No transports available for this service".to_owned()),
    };
    let credentials = &connection.credentials;
    if same(kind, "postgres") {
        let database_keys: [&str; 2] = ["database", "dbName"];
        let username_keys: [&str; 3] = ["username", "dbUser", "user"];
        let password_keys: [&str; 1] = ["password"];
        assert(texts(database_keys@) =~= seq!["database"@, "dbName"@]);
        assert(texts(username_keys@) =~= seq!["username"@, "dbUser"@, "user"@]);
        assert(texts(password_keys@) =~= seq!["password"@]);
        Ok(
            direct(
                "postgres",
                transport,
                credential_string(credentials, &database_keys),
                credential_string(credentials, &username_keys),
                credential_string(credentials, &password_keys),
                true,
            ),
        )
    } else if same(kind, "redis") {
        Ok(
            direct(
                "redis",
                transport,
                database_index(credentials),
                text_member(credentials, "username"),
                text_member(credentials, "password"),
                false,
            ),
        )
    } else {
        Err("Unsupported service kind: ".to_owned().concat(kind))
    }
}

/// What the pool is to do to connect to a service.
pub struct ConnectPlan {
    pub pool_key: String,
    pub config: ConnectionConfig,
}

/// Plans how to connect to a service, given its connection.
pub fn plan_connect(
    app_slug: &str,
    stage: &str,
    kind: &str,
    connection: &ForgeGraphConnection,
) -> (r: Result<ConnectPlan, String>)
    ensures
        match (first_mesh(connection@.transports), r) {
            (None, Ok(_)) => false,
            (None, Err(error)) => error@ == "No transports available for this service"@,
            (Some(transport), Ok(plan)) => {
                &&& is_supported_kind(kind@)
                &&& plan.pool_key@ == pool_key(app_slug@, stage@, kind@)
                &&& plan.config@ == service_config(kind@, transport, connection@.credentials)
            },
            (Some(_), Err(error)) => !is_supported_kind(kind@) && error@
                == "Unsupported service kind: "@ + kind@,
        },
{
    let config = connection_config(kind, connection)?;
    Ok(ConnectPlan { pool_key: fg_pool_key(app_slug, stage, kind), config })
}

/// Whether a service's connection is up.
#[derive(Debug, Clone, Copy, PartialEq, Eq, Structural)]
pub enum ConnectionStatus {
    Connected,
    Disconnected,
}

/// What is reported of a service's connection.
#[derive(Debug)]
pub struct ConnectionStatusResponse {
    pub status: ConnectionStatus,
    pub error: Option<String>,
}

/// Whether an error of the pool says that the node cannot be reached.
pub open spec fn is_unreachable(error: Seq<char>) -> bool {
    holds_part(error, "Connection refused"@) || holds_part(error, "timed out"@)
}

/// The error that is reported for one of the pool.
pub open spec fn reported_error(error: Seq<char>) -> Seq<char> {
    if is_unreachable(error) {
        "Cannot reach node — is Tailscale connected?"@
    } else {
        error
    }
}

/// What to report after the pool was told to connect. An unreachable node is reported
/// as such; any other error is handed on.
pub fn connect_response(outcome: Result<(), String>) -> (r: ConnectionStatusResponse)
    ensures
        match outcome {
            Ok(_) => r.status == ConnectionStatus::Connected && r.error is None,
            Err(error) => {
                &&& r.status == ConnectionStatus::Disconnected
                &&& optional_text(r.error) == Some(reported_error(error@))
            },
        },
{
    match outcome {
        Ok(_) => ConnectionStatusResponse { status: ConnectionStatus::Connected, error: None },
        Err(error) => {
            let unreachable = contains(&error, "Connection refused") || contains(
                &error,
                "timed out",
            );
            let error = if unreachable {
                "Cannot reach node — is Tailscale connected?".to_owned()
            } else {
                error
            };
            ConnectionStatusResponse { status: ConnectionStatus::Disconnected, error: Some(error) }
        },
    }
}

/// A service is never reached by file or through SSH.
pub proof fn law_services_are_reached_directly(
    kind: Seq<char>,
    transport: TransportView,
    credentials: JsonModel,
)
    ensures
        ({
            let config = service_config(kind, transport, credentials);
            &&& config.host == Some(transport.host)
            &&& config.port == Some(transport.port as i64)
            &&& config.file_path is None
            &&& !config.ssh_enabled
            &&& config.ssh_host is None
            &&& config.ssh_port is None
            &&& config.ssh_user is None
            &&& config.ssh_password is None
            &&& config.ssh_key_path is None
        }),
{
}

/// A database that was asked for by the `database` endpoints is connected to by its
/// first mesh transport, under its own name, user and password.
pub proof fn law_databases_connect(
    app_slug: Seq<char>,
    stage: Seq<char>,
    database: LegacyDatabaseConnection,
)
    ensures
        ({
            let connection = mapped_connection(app_slug, stage, database);
            let mesh = mapped_transports(database.transports@);
            &&& first_mesh(connection.transports) == if mesh.len() > 0 {
                Some(mesh[0])
            } else {
                None
            }
            &&& mesh.len() > 0 ==> service_config(
                connection.kind,
                mesh[0],
                connection.credentials,
            ) == direct_config(
                "postgres"@,
                mesh[0],
                Some(database.db_name@),
                Some(database.user@),
                Some(database.password@),
                true,
            )
        }),
{
    let connection = mapped_connection(app_slug, stage, database);
    let mesh = mapped_transports(database.transports@);
    if mesh.len() > 0 {
        law_transports_are_mesh(database.transports@, 0);
    }
    reveal_strlit("dbName");
    reveal_strlit("database");
    reveal_strlit("username");
    reveal_strlit("password");
    assert("dbName"@.len() == 6);
    assert("database"@[0] == 'd');
    assert("username"@[0] == 'u');
    assert("password"@[0] == 'p');
    assert("database"@.len() == 8);
    assert("username"@.len() == 8);
    assert("password"@.len() == 8);
    let credentials = connection.credentials;
    assert(member(credentials, "database"@) == Some(JsonModel::Text(database.db_name@)));
    assert(member(credentials, "username"@) == Some(JsonModel::Text(database.user@)));
    assert(member(credentials, "password"@) == Some(JsonModel::Text(database.password@)));
}

} // verus!
