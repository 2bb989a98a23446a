//! What the ForgeGraph API hands out: services, connections, and the envelopes
//! that they come in.

use crate::json::{value_model, JsonModel};
use vstd::prelude::*;
use vstd::string::*;

verus! {

/// Network transport descriptor for a ForgeGraph service.
#[derive(Debug)]
pub struct Transport {
    pub kind: String,
    pub host: String,
    pub port: u16,
}

/// What a [`Transport`] says.
pub struct TransportView {
    pub kind: Seq<char>,
    pub host: Seq<char>,
    pub port: u16,
}

impl View for Transport {
    type V = TransportView;

    open spec fn view(&self) -> TransportView {
        TransportView { kind: self.kind@, host: self.host@, port: self.port }
    }
}

impl Clone for Transport {
    fn clone(&self) -> (r: Self)
        ensures
            r@ == self@,
    {
        Transport { kind: self.kind.clone(), host: self.host.clone(), port: self.port }
    }
}

/// What each of several transports says.
pub open spec fn transport_views(transports: Seq<Transport>) -> Seq<TransportView> {
    transports.map_values(|t: Transport| t@)
}

fn clone_transports(transports: &Vec<Transport>) -> (r: Vec<Transport>)
    ensures
        transport_views(r@) == transport_views(transports@),
{
    let r = transports.clone();
    assert(transport_views(r@) =~= transport_views(transports@));
    r
}

/// Summary of a ForgeGraph-managed service (no credentials).
#[derive(Debug)]
pub struct ForgeGraphService {
    pub app_slug: String,
    pub app_name: String,
    pub stage: String,
    pub kind: String,
    pub node_name: String,
    pub node_status: String,
    pub config: serde_json::Value,
    pub transports: Vec<Transport>,
}

/// What a [`ForgeGraphService`] says.
pub struct ServiceView {
    pub app_slug: Seq<char>,
    pub app_name: Seq<char>,
    pub stage: Seq<char>,
    pub kind: Seq<char>,
    pub node_name: Seq<char>,
    pub node_status: Seq<char>,
    pub config: JsonModel,
    pub transports: Seq<TransportView>,
}

impl View for ForgeGraphService {
    type V = ServiceView;

    open spec fn view(&self) -> ServiceView {
        ServiceView {
            app_slug: self.app_slug@,
            app_name: self.app_name@,
            stage: self.stage@,
            kind: self.kind@,
            node_name: self.node_name@,
            node_status: self.node_status@,
            config: value_model(self.config),
            transports: transport_views(self.transports@),
        }
    }
}

impl Clone for ForgeGraphService {
    fn clone(&self) -> (r: Self)
        ensures
            r@ == self@,
    {
        ForgeGraphService {
            app_slug: self.app_slug.clone(),
            app_name: self.app_name.clone(),
            stage: self.stage.clone(),
            kind: self.kind.clone(),
            node_name: self.node_name.clone(),
            node_status: self.node_status.clone(),
            config: self.config.clone(),
            transports: clone_transports(&self.transports),
        }
    }
}

/// What each of several services says.
pub open spec fn service_views(services: Seq<ForgeGraphService>) -> Seq<ServiceView> {
    services.map_values(|s: ForgeGraphService| s@)
}

/// Full connection details including credentials, returned by `services.connection`.
pub struct ForgeGraphConnection {
    pub app_slug: String,
    pub app_name: String,
    pub stage: String,
    pub kind: String,
    pub node_name: String,
    pub node_status: String,
    pub config: serde_json::Value,
    pub transports: Vec<Transport>,
    pub credentials: serde_json::Value,
}

/// What a [`ForgeGraphConnection`] says.
pub struct ConnectionView {
    pub app_slug: Seq<char>,
    pub app_name: Seq<char>,
    pub stage: Seq<char>,
    pub kind: Seq<char>,
    pub node_name: Seq<char>,
    pub node_status: Seq<char>,
    pub config: JsonModel,
    pub transports: Seq<TransportView>,
    pub credentials: JsonModel,
}

impl View for ForgeGraphConnection {
    type V = ConnectionView;

    open spec fn view(&self) -> ConnectionView {
        ConnectionView {
            app_slug: self.app_slug@,
            app_name: self.app_name@,
            stage: self.stage@,
            kind: self.kind@,
            node_name: self.node_name@,
            node_status: self.node_status@,
            config: value_model(self.config),
            transports: transport_views(self.transports@),
            credentials: value_model(self.credentials),
        }
    }
}

impl Clone for ForgeGraphConnection {
    fn clone(&self) -> (r: Self)
        ensures
            r@ == self@,
    {
        ForgeGraphConnection {
            app_slug: self.app_slug.clone(),
            app_name: self.app_name.clone(),
            stage: self.stage.clone(),
            kind: self.kind.clone(),
            node_name: self.node_name.clone(),
            node_status: self.node_status.clone(),
            config: self.config.clone(),
            transports: clone_transports(&self.transports),
            credentials: self.credentials.clone(),
        }
    }
}

/// How Rust shows a string for debugging: in quotes, with escapes.
pub uninterp spec fn quoted(text: Seq<char>) -> Seq<char>;

/// `Debug` of `str`: the text in quotes and with escapes, which depends on the text
/// alone.
#[verifier::external_body]
fn quote(text: &str) -> (r: String)
    ensures
        r@ == quoted(text@),
{
    format!("{:?}", text)
}

/// How a connection is shown for debugging, given its parts as they are shown.
pub open spec fn debug_text_of(
    app_slug: Seq<char>,
    stage: Seq<char>,
    kind: Seq<char>,
    node_name: Seq<char>,
) -> Seq<char> {
    "ForgeGraphConnection { app_slug: "@ + app_slug + ", stage: "@ + stage + ", kind: "@ + kind
        + ", node_name: "@ + node_name + ", credentials: \"[REDACTED]\" }"@
}

/// How a connection is shown for debugging.
pub open spec fn connection_debug_text(connection: ConnectionView) -> Seq<char> {
    debug_text_of(
        quoted(connection.app_slug),
        quoted(connection.stage),
        quoted(connection.kind),
        quoted(connection.node_name),
    )
}

/// How a connection is shown for debugging, given its parts as they are shown.
pub fn connection_debug(app_slug: &str, stage: &str, kind: &str, node_name: &str) -> (r: String)
    ensures
        r@ == debug_text_of(app_slug@, stage@, kind@, node_name@),
{
    "ForgeGraphConnection { app_slug: ".to_owned().concat(app_slug).concat(", stage: ").concat(
        stage,
    ).concat(", kind: ").concat(kind).concat(", node_name: ").concat(node_name).concat(
        ", credentials: \"[REDACTED]\" }",
    )
}

impl ForgeGraphConnection {
    /// The connection as it is shown for debugging, without its credentials.
    pub fn debug_text(&self) -> (r: String)
        ensures
            r@ == connection_debug_text(self@),
    {
        connection_debug(
            &quote(&self.app_slug),
            &quote(&self.stage),
            &quote(&self.kind),
            &quote(&self.node_name),
        )
    }
}

/// Nothing of a connection's credentials, configuration or transports is shown for
/// debugging: connections that differ in those alone are shown alike.
pub proof fn law_debug_text_hides_credentials(a: ConnectionView, b: ConnectionView)
    requires
        a.app_slug == b.app_slug,
        a.stage == b.stage,
        a.kind == b.kind,
        a.node_name == b.node_name,
    ensures
        connection_debug_text(a) == connection_debug_text(b),
{
}

/// Outer tRPC envelope: `{ result: { data: T } }`.
#[derive(Debug, Clone)]
pub struct TrpcResponse<T> {
    pub result: TrpcResult<T>,
}

/// Inner tRPC result: `{ data: T }`.
#[derive(Debug, Clone)]
pub struct TrpcResult<T> {
    pub data: TrpcData<T>,
}

/// What a tRPC result holds: the payload itself, or the payload under `json`.
#[derive(Debug, Clone)]
pub enum TrpcData<T> {
    Json { json: T },
    Plain(T),
}

impl<T> TrpcData<T> {
    /// The payload.
    pub open spec fn payload(self) -> T {
        match self {
            TrpcData::Json { json } => json,
            TrpcData::Plain(value) => value,
        }
    }

    /// Takes the payload out.
    pub fn into_inner(self) -> (r: T)
        ensures
            r == self.payload(),
    {
        match self {
            Self::Json { json } => json,
            Self::Plain(value) => value,
        }
    }
}

/// A payload under `json` and the same payload by itself are one answer, which is the
/// payload unchanged.
pub proof fn law_envelopes_make_no_difference<T>(value: T)
    ensures
        (TrpcData::Json { json: value }).payload() == value,
        TrpcData::Plain(value).payload() == value,
{
}

} // verus!
