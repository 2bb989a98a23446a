//! Laws on services, connections and envelopes.

use crate::json::value_model;
use crate::laws::legacy::{lemma_same_transports, same_but_config};
use crate::laws::terms::{same_transport, same_transports};
use crate::service::{
    connection_debug, quoted, ForgeGraphConnection, ForgeGraphService, Transport, TrpcData,
};
use vstd::prelude::*;

verus! {

/// A clone of a transport is alike in every field.
pub proof fn law_cloned_transport(a: &Transport, r: Transport)
    requires
        call_ensures(Transport::clone, (a,), r),
    ensures
        same_transport(r, *a),
{
    assert(r@ == a@);
}

/// A clone of a service is alike in every field.
pub proof fn law_cloned_service(a: &ForgeGraphService, r: ForgeGraphService)
    requires
        call_ensures(ForgeGraphService::clone, (a,), r),
    ensures
        same_but_config(r, *a),
        value_model(r.config) == value_model(a.config),
{
    assert(r@ == a@);
    lemma_same_transports(r.transports@, a.transports@);
}

/// A clone of a connection is alike in every field.
pub proof fn law_cloned_connection(a: &ForgeGraphConnection, r: ForgeGraphConnection)
    requires
        call_ensures(ForgeGraphConnection::clone, (a,), r),
    ensures
        r.app_slug@ == a.app_slug@,
        r.app_name@ == a.app_name@,
        r.stage@ == a.stage@,
        r.kind@ == a.kind@,
        r.node_name@ == a.node_name@,
        r.node_status@ == a.node_status@,
        value_model(r.config) == value_model(a.config),
        same_transports(r.transports@, a.transports@),
        value_model(r.credentials) == value_model(a.credentials),
{
    assert(r@ == a@);
    lemma_same_transports(r.transports@, a.transports@);
}

/// For debugging a connection shows the app, the stage, the kind and the node, in
/// quotes, and that its credentials are not shown.
pub proof fn law_debug_text(connection: &ForgeGraphConnection, r: String)
    requires
        call_ensures(ForgeGraphConnection::debug_text, (connection,), r),
    ensures
        r@ == "ForgeGraphConnection { app_slug: "@ + quoted(connection.app_slug@) + ", stage: "@
            + quoted(connection.stage@) + ", kind: "@ + quoted(connection.kind@)
            + ", node_name: "@ + quoted(connection.node_name@)
            + ", credentials: \"[REDACTED]\" }"@,
{
}

/// Connections of one service on one node are shown alike, whatever their credentials,
/// configurations and transports.
pub proof fn law_debug_text_tells_no_secrets(
    a: &ForgeGraphConnection,
    b: &ForgeGraphConnection,
    shown_a: String,
    shown_b: String,
)
    requires
        call_ensures(ForgeGraphConnection::debug_text, (a,), shown_a),
        call_ensures(ForgeGraphConnection::debug_text, (b,), shown_b),
        a.app_slug@ == b.app_slug@,
        a.stage@ == b.stage@,
        a.kind@ == b.kind@,
        a.node_name@ == b.node_name@,
    ensures
        shown_a@ == shown_b@,
{
}

/// The parts of what is shown for debugging come in their order, each once.
pub proof fn law_connection_debug(
    app_slug: &str,
    stage: &str,
    kind: &str,
    node_name: &str,
    r: String,
)
    requires
        call_ensures(connection_debug, (app_slug, stage, kind, node_name), r),
    ensures
        r@ == "ForgeGraphConnection { app_slug: "@ + app_slug@ + ", stage: "@ + stage@
            + ", kind: "@ + kind@ + ", node_name: "@ + node_name@
            + ", credentials: \"[REDACTED]\" }"@,
{
}

/// A payload comes out of either envelope as it went in.
pub proof fn law_into_inner<T>(data: TrpcData<T>, value: T, r: T)
    requires
        call_ensures(TrpcData::<T>::into_inner, (data,), r),
        data == TrpcData::Plain(value) || data == (TrpcData::Json { json: value }),
    ensures
        r == value,
{
}

} // verus!
