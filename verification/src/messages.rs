//! Wire-level message model: envelope header, direction tag, action
//! discriminants and the request/response payloads they carry.

use vstd::prelude::*;

verus! {

/// Direction tag of the envelope: who originated the message.
#[derive(Clone, Copy, PartialEq, Eq, Structural)]
pub enum ApiDirection {
    FromWidget,
    ToWidget,
}

/// Envelope header. The id is opaque; it only serves to pair a response
/// with its request. No other header fields are interpreted.
#[derive(Clone)]
pub struct Header {
    pub id: String,
}

impl Header {
    /// A copy of the header, equal to the original.
    pub fn duplicate(&self) -> (r: Header)
        ensures
            r == *self,
    {
        Header { id: self.id.clone() }
    }
}

/// A payload with no fields.
#[derive(Clone)]
pub struct Empty {}

/// Every action carries either request data or a response, where a response
/// is either successful data or a human-readable error string.
pub enum MessageKind<Req, Resp> {
    Request(Req),
    Response(Result<Resp, String>),
}

/// A supported version of the widget API, exposed as an opaque label.
#[derive(Clone, Copy, PartialEq, Eq, Structural)]
pub enum ApiVersion {
    V0_0_1,
    V0_0_2,
    MSC2762,
    MSC2871,
    MSC3819,
}

/// Reply payload for `GetSupportedApiVersion`.
#[derive(Clone)]
pub struct SupportedApiVersionsResponse {
    pub versions: Vec<ApiVersion>,
}

/// The constant list of supported versions, in the order it is emitted.
pub open spec fn supported_api_versions() -> Seq<ApiVersion> {
    seq![
        ApiVersion::V0_0_1,
        ApiVersion::V0_0_2,
        ApiVersion::MSC2762,
        ApiVersion::MSC2871,
        ApiVersion::MSC3819,
    ]
}

impl SupportedApiVersionsResponse {
    pub fn new() -> (r: Self)
        ensures
            r.versions@ == supported_api_versions(),
    {
        let mut versions: Vec<ApiVersion> = Vec::new();
        versions.push(ApiVersion::V0_0_1);
        versions.push(ApiVersion::V0_0_2);
        versions.push(ApiVersion::MSC2762);
        versions.push(ApiVersion::MSC2871);
        versions.push(ApiVersion::MSC3819);
        proof {
            assert(versions@ =~= supported_api_versions());
        }
        SupportedApiVersionsResponse { versions }
    }
}

/// Request payload for `GetOpenId`.
#[derive(Clone)]
pub struct OpenIdRequest {}

/// Credentials reported to the widget on an allowed OpenID request.
#[derive(Clone)]
pub struct OpenIdCredentials {
    pub access_token: String,
    pub token_type: String,
    pub matrix_server_name: String,
    pub expires_in_seconds: u64,
}

/// Reply payload for `GetOpenId`, and the payload of a later
/// `OpenIdCredentialsUpdate` once a pending decision resolves.
#[derive(Clone)]
pub enum OpenIdResponse {
    Allowed(OpenIdCredentials),
    Blocked,
    Pending,
}

/// A final OpenID decision from the chat client: never pending.
#[derive(Clone)]
pub enum OpenIdDecision {
    Allowed(OpenIdCredentials),
    Blocked,
}

/// What the chat client answers when asked for an OpenID decision: either a
/// final decision, or a promise to deliver one later.
#[derive(Clone)]
pub enum OpenIdStatus {
    Resolved(OpenIdDecision),
    Pending,
}

/// The reply payload that a final decision turns into.
pub open spec fn decision_response(d: OpenIdDecision) -> OpenIdResponse {
    match d {
        OpenIdDecision::Allowed(c) => OpenIdResponse::Allowed(c),
        OpenIdDecision::Blocked => OpenIdResponse::Blocked,
    }
}

impl OpenIdDecision {
    pub fn into_response(self) -> (r: OpenIdResponse)
        ensures
            r == decision_response(self),
    {
        match self {
            OpenIdDecision::Allowed(c) => OpenIdResponse::Allowed(c),
            OpenIdDecision::Blocked => OpenIdResponse::Blocked,
        }
    }
}

/// Request payload for `SendEvent`. The event content is arbitrary JSON and
/// is carried through opaquely.
pub struct SendEventRequest {
    pub event_type: String,
    pub state_key: Option<String>,
    pub content: serde_json::Value,
}

/// Reply payload for `SendEvent`.
#[derive(Clone)]
pub struct SendEventResponse {
    pub event_id: String,
    pub room_id: String,
}

/// Request payload for `ReadEvent`: which events to fetch.
#[derive(Clone)]
pub struct ReadEventRequest {
    pub event_type: String,
    pub state_key: Option<String>,
    pub limit: Option<u32>,
}

/// Reply payload for `ReadEvent`: the matched events, as opaque JSON.
pub struct ReadEventResponse {
    pub events: Vec<serde_json::Value>,
}

/// Raw strings in which the widget states its desired capabilities.
#[derive(Clone)]
pub struct CapabilitiesResponse {
    pub capabilities: Vec<String>,
}

/// Actions originated by the widget.
pub enum FromWidgetAction {
    GetSupportedApiVersion(MessageKind<Empty, SupportedApiVersionsResponse>),
    ContentLoaded(MessageKind<Empty, Empty>),
    GetOpenId(MessageKind<OpenIdRequest, OpenIdResponse>),
    SendEvent(MessageKind<SendEventRequest, SendEventResponse>),
    ReadEvent(MessageKind<ReadEventRequest, ReadEventResponse>),
}

/// Payload of the informational `CapabilitiesUpdated` request: what the
/// widget asked for and what the user approved.
pub struct CapabilitiesUpdatedRequest {
    pub requested: crate::permissions::Permissions,
    pub approved: crate::permissions::Permissions,
}

/// Actions originated by the client.
pub enum ToWidgetAction {
    Capabilities(MessageKind<Empty, CapabilitiesResponse>),
    CapabilitiesUpdated(MessageKind<CapabilitiesUpdatedRequest, Empty>),
    OpenIdCredentialsUpdate(MessageKind<OpenIdResponse, Empty>),
}

/// Every action on the wire, tagged with its direction.
pub enum Action {
    FromWidget(FromWidgetAction),
    ToWidget(ToWidgetAction),
}

/// A whole wire message: the envelope header and the action it carries.
pub struct Message {
    pub header: Header,
    pub action: Action,
}

/// `data` and the `header` that belongs with it. A request is only ever
/// handled together with its header, and a response echoes that header.
pub struct WithHeader<T> {
    pub header: Header,
    pub data: T,
}

impl<T> WithHeader<T> {
    pub fn new(header: Header, data: T) -> (r: Self)
        ensures
            r.header == header,
            r.data == data,
    {
        WithHeader { header, data }
    }
}

} // verus!
