//! Laws on connecting to services.

use crate::connect::{
    connect_response, connection_config, credential_string, fg_pool_key, first_credential,
    first_mesh, forgegraph_pool_key, law_only_mesh_is_used, law_pool_keys_distinct, occurrences,
    pick_transport, plan_connect, texts, ConnectPlan, ConnectionConfig, ConnectionStatus,
    ConnectionStatusResponse,
};
use crate::json::{member, text_of, unsigned_of, value_model, JsonModel, NumberModel};
use crate::laws::terms::{holds_text, is_decimal, is_text, is_within, lacks_text};
use crate::laws::text::{lemma_decimal, lemma_holds_part};
use crate::service::{transport_views, ForgeGraphConnection, Transport};
use crate::text::decimal_text;
use vstd::prelude::*;

verus! {

/// A service's pool key names its app, its stage and its kind.
pub proof fn law_pool_key(app_slug: &str, stage: &str, kind: &str, r: String)
    requires
        call_ensures(fg_pool_key, (app_slug, stage, kind), r),
    ensures
        r@ == "fg:"@ + app_slug@ + ":"@ + stage@ + ":"@ + kind@,
{
}

/// The pool key that is handed out is the one that pools go by.
pub proof fn law_pool_key_handed_out(
    app_slug: String,
    stage: String,
    kind: String,
    r: Result<String, String>,
)
    requires
        call_ensures(forgegraph_pool_key, (app_slug, stage, kind), r),
    ensures
        r is Ok,
        r->Ok_0@ == "fg:"@ + app_slug@ + ":"@ + stage@ + ":"@ + kind@,
{
}

/// Services with one pool key are one service, as long as their apps hold equally many
/// colons and their stages hold equally many colons.
pub proof fn law_pool_key_tells_services_apart(
    a: (&str, &str, &str),
    b: (&str, &str, &str),
    key_a: String,
    key_b: String,
)
    requires
        call_ensures(fg_pool_key, a, key_a),
        call_ensures(fg_pool_key, b, key_b),
        occurrences(a.0@, ':') == occurrences(b.0@, ':'),
        occurrences(a.1@, ':') == occurrences(b.1@, ':'),
        key_a@ == key_b@,
    ensures
        a.0@ == b.0@,
        a.1@ == b.1@,
        a.2@ == b.2@,
{
    law_pool_keys_distinct((a.0@, a.1@, a.2@), (b.0@, b.1@, b.2@));
}

/// The credential under the keys: the text under the first key that has one.
pub proof fn law_credential_string(
    credentials: &serde_json::Value,
    keys: &[&str],
    r: Option<String>,
    text: Seq<char>,
)
    requires
        call_ensures(credential_string, (credentials, keys), r),
    ensures
        is_text(r, text) <==> exists|i: int|
            {
                &&& 0 <= i < keys@.len()
                &&& #[trigger] holds_text(value_model(*credentials), keys@[i]@, text)
                &&& forall|j: int|
                    0 <= j < i ==> lacks_text(value_model(*credentials), #[trigger] keys@[j]@)
            },
{
    lemma_first_credential(value_model(*credentials), texts(keys@), text);
    let value = value_model(*credentials);
    let names = texts(keys@);
    if is_text(r, text) {
        let i = choose|i: int|
            {
                &&& 0 <= i < names.len()
                &&& holds_text(value, #[trigger] names[i], text)
                &&& forall|j: int| 0 <= j < i ==> lacks_text(value, #[trigger] names[j])
            };
        assert(holds_text(value, keys@[i]@, text));
        assert forall|j: int| 0 <= j < i implies lacks_text(value, #[trigger] keys@[j]@) by {
            assert(lacks_text(value, names[j]));
        }
    }
    if exists|i: int|
        {
            &&& 0 <= i < keys@.len()
            &&& #[trigger] holds_text(value, keys@[i]@, text)
            &&& forall|j: int| 0 <= j < i ==> lacks_text(value, #[trigger] keys@[j]@)
        } {
        let i = choose|i: int|
            {
                &&& 0 <= i < keys@.len()
                &&& #[trigger] holds_text(value, keys@[i]@, text)
                &&& forall|j: int| 0 <= j < i ==> lacks_text(value, #[trigger] keys@[j]@)
            };
        assert(names[i] == keys@[i]@);
        assert forall|j: int| 0 <= j < i implies lacks_text(value, #[trigger] names[j]) by {
            assert(lacks_text(value, keys@[j]@));
        }
    }
}

/// The text under one key is what the first credential under that key alone is.
proof fn lemma_one_credential(value: JsonModel, key: Seq<char>)
    ensures
        text_of(member(value, key)) is None <==> lacks_text(value, key),
        text_of(member(value, key)) matches Some(text) ==> holds_text(
            value,
            key,
            text,
        ),
{
    if let Some(text) = text_of(member(value, key)) {
        assert(holds_text(value, key, text));
    }
}

proof fn lemma_first_credential(value: JsonModel, keys: Seq<Seq<char>>, text: Seq<char>)
    ensures
        first_credential(value, keys) == Some(text) <==> exists|i: int|
            {
                &&& 0 <= i < keys.len()
                &&& holds_text(value, #[trigger] keys[i], text)
                &&& forall|j: int| 0 <= j < i ==> lacks_text(value, #[trigger] keys[j])
            },
    decreases keys.len(),
{
    if keys.len() > 0 {
        let rest = keys.drop_first();
        lemma_one_credential(value, keys[0]);
        if lacks_text(value, keys[0]) {
            lemma_first_credential(value, rest, text);
            if first_credential(value, keys) == Some(text) {
                let i = choose|i: int|
                    {
                        &&& 0 <= i < rest.len()
                        &&& holds_text(value, #[trigger] rest[i], text)
                        &&& forall|j: int| 0 <= j < i ==> lacks_text(value, #[trigger] rest[j])
                    };
                assert(keys[i + 1] == rest[i]);
                assert forall|j: int| 0 <= j < i + 1 implies lacks_text(
                    value,
                    #[trigger] keys[j],
                ) by {
                    if j > 0 {
                        assert(rest[j - 1] == keys[j]);
                    }
                }
            }
            if exists|i: int|
                {
                    &&& 0 <= i < keys.len()
                    &&& holds_text(value, #[trigger] keys[i], text)
                    &&& forall|j: int| 0 <= j < i ==> lacks_text(value, #[trigger] keys[j])
                } {
                let i = choose|i: int|
                    {
                        &&& 0 <= i < keys.len()
                        &&& holds_text(value, #[trigger] keys[i], text)
                        &&& forall|j: int| 0 <= j < i ==> lacks_text(value, #[trigger] keys[j])
                    };
                assert(i > 0);
                assert(rest[i - 1] == keys[i]);
                assert forall|j: int| 0 <= j < i - 1 implies lacks_text(
                    value,
                    #[trigger] rest[j],
                ) by {
                    assert(rest[j] == keys[j + 1]);
                }
            }
        } else if first_credential(value, keys) == Some(text) {
            assert(holds_text(value, keys[0], text));
        }
    }
}

/// The transport at `i` is a mesh transport, and none before it is.
pub open spec fn is_first_mesh(transports: Seq<Transport>, i: int) -> bool {
    &&& 0 <= i < transports.len()
    &&& transports[i].kind@ == "mesh"@
    &&& forall|j: int| 0 <= j < i ==> (#[trigger] transports[j]).kind@ != "mesh"@
}

/// No transport is a mesh transport.
pub open spec fn has_no_mesh(transports: Seq<Transport>) -> bool {
    forall|j: int| 0 <= j < transports.len() ==> (#[trigger] transports[j]).kind@ != "mesh"@
}

/// Which transport is the first mesh transport.
proof fn lemma_first_mesh(transports: Seq<Transport>) -> (i: int)
    ensures
        match first_mesh(transport_views(transports)) {
            Some(view) => is_first_mesh(transports, i) && view == transports[i]@,
            None => has_no_mesh(transports),
        },
{
    let views = transport_views(transports);
    law_only_mesh_is_used(views);
    if let Some(view) = first_mesh(views) {
        let i = choose|i: int|
            {
                &&& 0 <= i < views.len()
                &&& view == #[trigger] views[i]
                &&& forall|j: int| 0 <= j < i ==> (#[trigger] views[j]).kind != "mesh"@
            };
        assert forall|j: int| 0 <= j < i implies (#[trigger] transports[j]).kind@ != "mesh"@ by {
            assert(views[j] == transports[j]@);
        }
        i
    } else {
        assert forall|j: int| 0 <= j < transports.len() implies (#[trigger] transports[j]).kind@
            != "mesh"@ by {
            assert(views[j] == transports[j]@);
        }
        0
    }
}

/// A list has one first mesh transport, and none where it has no mesh transport.
proof fn lemma_one_first_mesh(transports: Seq<Transport>, i: int, k: int)
    requires
        is_first_mesh(transports, i),
    ensures
        !has_no_mesh(transports),
        is_first_mesh(transports, k) ==> k == i,
{
}

/// The transport that is picked is the first mesh transport, and there is none only
/// where no transport is a mesh one.
pub proof fn law_pick_transport(transports: &Vec<Transport>, r: Option<&Transport>)
    requires
        call_ensures(pick_transport, (transports,), r),
    ensures
        match r {
            Some(transport) => exists|i: int| #[trigger] is_first_mesh(transports@, i)
                && transport.kind@ == transports@[i].kind@ && transport.host@
                == transports@[i].host@ && transport.port == transports@[i].port,
            None => has_no_mesh(transports@),
        },
{
    let i = lemma_first_mesh(transports@);
    if let Some(transport) = r {
        assert(is_first_mesh(transports@, i));
        assert(transport@ == transports@[i]@);
    }
}

/// Where there is no mesh transport, no service of any kind is connected to.
pub proof fn law_no_mesh_no_connection(
    kind: &str,
    connection: &ForgeGraphConnection,
    r: Result<ConnectionConfig, String>,
)
    requires
        call_ensures(connection_config, (kind, connection), r),
        has_no_mesh(connection.transports@),
    ensures
        r is Err,
        r->Err_0@ == "No transports available for this service"@,
{
    let i = lemma_first_mesh(connection.transports@);
}

/// With a mesh transport, Postgres and Redis services are connected to, and services of
/// no other kind.
pub proof fn law_supported_kinds(
    kind: &str,
    connection: &ForgeGraphConnection,
    r: Result<ConnectionConfig, String>,
    i: int,
)
    requires
        call_ensures(connection_config, (kind, connection), r),
        is_first_mesh(connection.transports@, i),
    ensures
        r is Ok <==> kind@ == "postgres"@ || kind@ == "redis"@,
        r is Err ==> r->Err_0@ == "Unsupported service kind: "@ + kind@,
{
    let k = lemma_first_mesh(connection.transports@);
}

/// A service is reached at the host and port of its first mesh transport, as a database
/// of its kind, neither by file nor through SSH; Postgres with TLS, Redis without.
pub proof fn law_reached_by_mesh(
    kind: &str,
    connection: &ForgeGraphConnection,
    config: ConnectionConfig,
)
    requires
        call_ensures(connection_config, (kind, connection), Ok::<ConnectionConfig, String>(config)),
    ensures
        exists|i: int| #[trigger] is_first_mesh(connection.transports@, i) && is_text(
            config.host,
            connection.transports@[i].host@,
        ) && config.port == Some(connection.transports@[i].port as i64),
        config.db_type@ == kind@,
        config.ssl == Some(kind@ == "postgres"@),
        config.file_path is None,
        !config.ssh_enabled,
        config.ssh_host is None,
        config.ssh_port is None,
        config.ssh_user is None,
        config.ssh_password is None,
        config.ssh_key_path is None,
{
    lemma_kinds_differ();
    let i = lemma_first_mesh(connection.transports@);
    assert(is_first_mesh(connection.transports@, i));
    assert(config@.host == Some(connection.transports@[i].host@));
    assert(config@.file_path is None);
}

proof fn lemma_kinds_differ()
    ensures
        "redis"@ != "postgres"@,
{
    reveal_strlit("redis");
    reveal_strlit("postgres");
    assert("redis"@.len() == 5);
    assert("postgres"@.len() == 8);
}

/// A Postgres service is connected to under the texts that its credentials hold: the
/// database under "database" or else "dbName", the user under "username" or else
/// "dbUser" or else "user", and the password under "password". Each depends on the
/// entries under its own keys alone.
pub proof fn law_postgres_credentials(
    kind: &str,
    connection: &ForgeGraphConnection,
    config: ConnectionConfig,
    text: Seq<char>,
)
    requires
        call_ensures(connection_config, (kind, connection), Ok::<ConnectionConfig, String>(config)),
        kind@ == "postgres"@,
    ensures
        ({
            let credentials = value_model(connection.credentials);
            &&& is_text(config.database, text) <==> {
                ||| holds_text(credentials, "database"@, text)
                ||| lacks_text(credentials, "database"@) && holds_text(
                    credentials,
                    "dbName"@,
                    text,
                )
            }
            &&& is_text(config.username, text) <==> {
                ||| holds_text(credentials, "username"@, text)
                ||| lacks_text(credentials, "username"@) && holds_text(
                    credentials,
                    "dbUser"@,
                    text,
                )
                ||| lacks_text(credentials, "username"@) && lacks_text(credentials, "dbUser"@)
                    && holds_text(credentials, "user"@, text)
            }
            &&& is_text(config.password, text) <==> holds_text(credentials, "password"@, text)
        }),
{
    let credentials = value_model(connection.credentials);
    lemma_one_credential(credentials, "database"@);
    lemma_one_credential(credentials, "dbName"@);
    lemma_one_credential(credentials, "username"@);
    lemma_one_credential(credentials, "dbUser"@);
    lemma_one_credential(credentials, "user"@);
    lemma_one_credential(credentials, "password"@);
    reveal_with_fuel(first_credential, 4);
    let i = lemma_first_mesh(connection.transports@);
    assert(seq!["database"@, "dbName"@].drop_first() =~= seq!["dbName"@]);
    assert(seq!["username"@, "dbUser"@, "user"@].drop_first() =~= seq!["dbUser"@, "user"@]);
    assert(seq!["dbUser"@, "user"@].drop_first() =~= seq!["user"@]);
    assert(config@.database == first_credential(credentials, seq!["database"@, "dbName"@]));
    assert(config@.username == first_credential(
        credentials,
        seq!["username"@, "dbUser"@, "user"@],
    ));
    assert(config@.password == first_credential(credentials, seq!["password"@]));
}

/// A Redis service is connected to under the user and the password that its
/// credentials hold under "username" and "password", each by itself.
pub proof fn law_redis_credentials(
    kind: &str,
    connection: &ForgeGraphConnection,
    config: ConnectionConfig,
    text: Seq<char>,
)
    requires
        call_ensures(connection_config, (kind, connection), Ok::<ConnectionConfig, String>(config)),
        kind@ == "redis"@,
    ensures
        is_text(config.username, text) <==> holds_text(
            value_model(connection.credentials),
            "username"@,
            text,
        ),
        is_text(config.password, text) <==> holds_text(
            value_model(connection.credentials),
            "password"@,
            text,
        ),
{
    let credentials = value_model(connection.credentials);
    lemma_kinds_differ();
    lemma_one_credential(credentials, "username"@);
    lemma_one_credential(credentials, "password"@);
    let i = lemma_first_mesh(connection.transports@);
    assert(config@.username == text_of(member(credentials, "username"@)));
    assert(config@.password == text_of(member(credentials, "password"@)));
}

/// `value` is an object whose entry under `key` is the integer `n`, which is not
/// negative.
pub open spec fn holds_unsigned(value: JsonModel, key: Seq<char>, n: u64) -> bool {
    value matches JsonModel::Record(map) && map.contains_key(key) && map[key] == JsonModel::Number(
        NumberModel::Unsigned(n),
    )
}

/// The Redis database is the integer under "dbIndex", in decimal; without one, none is
/// named. It depends on no other entry of the credentials.
pub proof fn law_redis_database(
    kind: &str,
    connection: &ForgeGraphConnection,
    config: ConnectionConfig,
    n: u64,
)
    requires
        call_ensures(connection_config, (kind, connection), Ok::<ConnectionConfig, String>(config)),
        kind@ == "redis"@,
    ensures
        holds_unsigned(value_model(connection.credentials), "dbIndex"@, n) ==> config.database
            is Some && is_decimal(config.database->Some_0@, n as int),
        (forall|m: u64|
            !holds_unsigned(value_model(connection.credentials), "dbIndex"@, m)) ==> config.database
            is None,
{
    let credentials = value_model(connection.credentials);
    lemma_kinds_differ();
    lemma_decimal(n as nat);
    let i = lemma_first_mesh(connection.transports@);
    if let Some(m) = unsigned_of(member(credentials, "dbIndex"@)) {
        assert(holds_unsigned(credentials, "dbIndex"@, m));
        assert(config@.database == Some(decimal_text(m as nat)));
    } else {
        assert(config@.database is None);
    }
}

/// A plan is the pool key of the service and the configuration that its connection
/// gives; what is refused is refused for the same reason.
pub proof fn law_plan_connect(
    app_slug: &str,
    stage: &str,
    kind: &str,
    connection: &ForgeGraphConnection,
    r: Result<ConnectPlan, String>,
)
    requires
        call_ensures(plan_connect, (app_slug, stage, kind, connection), r),
    ensures
        match r {
            Ok(plan) => {
                &&& plan.pool_key@ == "fg:"@ + app_slug@ + ":"@ + stage@ + ":"@ + kind@
                &&& kind@ == "postgres"@ || kind@ == "redis"@
                &&& exists|i: int| #[trigger] is_first_mesh(connection.transports@, i) && is_text(
                    plan.config.host,
                    connection.transports@[i].host@,
                ) && plan.config.port == Some(connection.transports@[i].port as i64)
            },
            Err(error) => {
                &&& has_no_mesh(connection.transports@) ==> error@
                    == "No transports available for this service"@
                &&& !has_no_mesh(connection.transports@) ==> kind@ != "postgres"@ && kind@
                    != "redis"@ && error@ == "Unsupported service kind: "@ + kind@
            },
        },
{
    let i = lemma_first_mesh(connection.transports@);
    if let Ok(plan) = r {
        lemma_one_first_mesh(connection.transports@, i, i);
        assert(plan.config@.host == Some(connection.transports@[i].host@));
        assert(is_first_mesh(connection.transports@, i));
    } else if !has_no_mesh(connection.transports@) {
        assert(first_mesh(transport_views(connection.transports@)) is Some);
    }
}

/// What the pool is told to connect to is what the connection's configuration is.
pub proof fn law_plan_holds_the_configuration(
    app_slug: &str,
    stage: &str,
    kind: &str,
    connection: &ForgeGraphConnection,
    plan: ConnectPlan,
    config: ConnectionConfig,
)
    requires
        call_ensures(
            plan_connect,
            (app_slug, stage, kind, connection),
            Ok::<ConnectPlan, String>(plan),
        ),
        call_ensures(connection_config, (kind, connection), Ok::<ConnectionConfig, String>(config)),
    ensures
        plan.config.db_type@ == config.db_type@,
        forall|t: Seq<char>| is_text(plan.config.host, t) <==> is_text(config.host, t),
        plan.config.port == config.port,
        forall|t: Seq<char>| is_text(plan.config.database, t) <==> is_text(config.database, t),
        forall|t: Seq<char>| is_text(plan.config.username, t) <==> is_text(config.username, t),
        forall|t: Seq<char>| is_text(plan.config.password, t) <==> is_text(config.password, t),
        plan.config.ssl == config.ssl,
        plan.config.file_path is None,
        !plan.config.ssh_enabled,
        plan.config.ssh_host is None,
        plan.config.ssh_port is None,
        plan.config.ssh_user is None,
        plan.config.ssh_password is None,
        plan.config.ssh_key_path is None,
{
    let a = plan.config@;
    let b = config@;
    assert(a == b);
    assert(a.host == b.host && a.database == b.database);
    assert(a.username == b.username && a.password == b.password);
    assert(b.file_path is None && b.ssh_host is None);
}

/// After connecting, the service is reported as connected, without an error. After a
/// failure it is reported as disconnected, with the pool's error, or, where that error
/// says that the connection was refused or timed out, with one that asks for Tailscale.
pub proof fn law_connect_response(outcome: Result<(), String>, r: ConnectionStatusResponse)
    requires
        call_ensures(connect_response, (outcome,), r),
    ensures
        match outcome {
            Ok(_) => r.status == ConnectionStatus::Connected && r.error is None,
            Err(error) => {
                let unreachable = is_within("Connection refused"@, error@) || is_within(
                    "timed out"@,
                    error@,
                );
                &&& r.status == ConnectionStatus::Disconnected
                &&& unreachable ==> is_text(
                    r.error,
                    "Cannot reach node — is Tailscale connected?"@,
                )
                &&& !unreachable ==> is_text(r.error, error@)
            },
        },
{
    if let Err(error) = outcome {
        lemma_holds_part(error@, "Connection refused"@);
        lemma_holds_part(error@, "timed out"@);
    }
}

} // verus!
