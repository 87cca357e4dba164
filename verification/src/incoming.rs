//! Validation of incoming requests (widget to client): a raw action either
//! becomes one of a closed set of typed requests, paired with its header,
//! or it is no request at all. A typed request is consumed by `map`, which
//! yields the one response that echoes the request's header.

use vstd::prelude::*;

use crate::messages::{
    Action, Empty, FromWidgetAction, Header, Message, MessageKind, OpenIdRequest, OpenIdResponse,
    ReadEventRequest, ReadEventResponse, SendEventRequest, SendEventResponse,
    SupportedApiVersionsResponse, WithHeader,
};

verus! {

/// A validated `GetSupportedApiVersion` request.
pub struct GetSupportedApiVersion {
    pub header: Header,
    pub content: Empty,
}

/// A validated `ContentLoaded` request.
pub struct ContentLoaded {
    pub header: Header,
    pub content: Empty,
}

/// A validated `GetOpenId` request.
pub struct GetOpenId {
    pub header: Header,
    pub content: OpenIdRequest,
}

/// A validated `SendEvent` request.
pub struct SendEvent {
    pub header: Header,
    pub content: SendEventRequest,
}

/// A validated `ReadEvent` request.
pub struct ReadEvent {
    pub header: Header,
    pub content: ReadEventRequest,
}

/// A response ready to go back to the widget: the echoed header and the
/// action payload.
pub type IncomingResponse = WithHeader<FromWidgetAction>;

impl GetSupportedApiVersion {
    pub fn map(self, response_data: Result<SupportedApiVersionsResponse, String>) -> (r:
        IncomingResponse)
        ensures
            r.header == self.header,
            r.data == FromWidgetAction::GetSupportedApiVersion(
                MessageKind::Response(response_data),
            ),
    {
        WithHeader::new(
            self.header,
            FromWidgetAction::GetSupportedApiVersion(MessageKind::Response(response_data)),
        )
    }
}

impl ContentLoaded {
    pub fn map(self, response_data: Result<Empty, String>) -> (r: IncomingResponse)
        ensures
            r.header == self.header,
            r.data == FromWidgetAction::ContentLoaded(MessageKind::Response(response_data)),
    {
        WithHeader::new(self.header, FromWidgetAction::ContentLoaded(MessageKind::Response(response_data)))
    }
}

impl GetOpenId {
    pub fn map(self, response_data: Result<OpenIdResponse, String>) -> (r: IncomingResponse)
        ensures
            r.header == self.header,
            r.data == FromWidgetAction::GetOpenId(MessageKind::Response(response_data)),
    {
        WithHeader::new(self.header, FromWidgetAction::GetOpenId(MessageKind::Response(response_data)))
    }
}

impl SendEvent {
    pub fn map(self, response_data: Result<SendEventResponse, String>) -> (r: IncomingResponse)
        ensures
            r.header == self.header,
            r.data == FromWidgetAction::SendEvent(MessageKind::Response(response_data)),
    {
        WithHeader::new(self.header, FromWidgetAction::SendEvent(MessageKind::Response(response_data)))
    }
}

impl ReadEvent {
    pub fn map(self, response_data: Result<ReadEventResponse, String>) -> (r: IncomingResponse)
        ensures
            r.header == self.header,
            r.data == FromWidgetAction::ReadEvent(MessageKind::Response(response_data)),
    {
        WithHeader::new(self.header, FromWidgetAction::ReadEvent(MessageKind::Response(response_data)))
    }
}

/// The closed set of valid incoming requests.
pub enum IncomingRequest {
    GetSupportedApiVersion(GetSupportedApiVersion),
    ContentLoaded(ContentLoaded),
    GetOpenId(GetOpenId),
    SendEvent(SendEvent),
    ReadEvent(ReadEvent),
}

/// The header a validated request carries.
pub open spec fn request_header(r: IncomingRequest) -> Header {
    match r {
        IncomingRequest::GetSupportedApiVersion(q) => q.header,
        IncomingRequest::ContentLoaded(q) => q.header,
        IncomingRequest::GetOpenId(q) => q.header,
        IncomingRequest::SendEvent(q) => q.header,
        IncomingRequest::ReadEvent(q) => q.header,
    }
}

/// What a raw action validates to: a request action becomes the typed
/// request holding its header; a response in incoming position is never a
/// new request.
pub open spec fn validated_request(header: Header, action: FromWidgetAction) -> Option<
    IncomingRequest,
> {
    match action {
        FromWidgetAction::GetSupportedApiVersion(MessageKind::Request(content)) => Some(
            IncomingRequest::GetSupportedApiVersion(GetSupportedApiVersion { header, content }),
        ),
        FromWidgetAction::ContentLoaded(MessageKind::Request(content)) => Some(
            IncomingRequest::ContentLoaded(ContentLoaded { header, content }),
        ),
        FromWidgetAction::GetOpenId(MessageKind::Request(content)) => Some(
            IncomingRequest::GetOpenId(GetOpenId { header, content }),
        ),
        FromWidgetAction::SendEvent(MessageKind::Request(content)) => Some(
            IncomingRequest::SendEvent(SendEvent { header, content }),
        ),
        FromWidgetAction::ReadEvent(MessageKind::Request(content)) => Some(
            IncomingRequest::ReadEvent(ReadEvent { header, content }),
        ),
        _ => None,
    }
}

/// The failed response for a request: the same action variant, carrying
/// the error string, under the request's own header.
pub open spec fn failed_response(r: IncomingRequest, error: String) -> FromWidgetAction {
    match r {
        IncomingRequest::GetSupportedApiVersion(_) => FromWidgetAction::GetSupportedApiVersion(
            MessageKind::Response(Err(error)),
        ),
        IncomingRequest::ContentLoaded(_) => FromWidgetAction::ContentLoaded(
            MessageKind::Response(Err(error)),
        ),
        IncomingRequest::GetOpenId(_) => FromWidgetAction::GetOpenId(
            MessageKind::Response(Err(error)),
        ),
        IncomingRequest::SendEvent(_) => FromWidgetAction::SendEvent(
            MessageKind::Response(Err(error)),
        ),
        IncomingRequest::ReadEvent(_) => FromWidgetAction::ReadEvent(
            MessageKind::Response(Err(error)),
        ),
    }
}

impl IncomingRequest {
    /// Validate a raw action against the closed request set.
    pub fn new(header: Header, action: FromWidgetAction) -> (r: Option<Self>)
        ensures
            r == validated_request(header, action),
    {
        match action {
            FromWidgetAction::GetSupportedApiVersion(MessageKind::Request(content)) => Some(
                IncomingRequest::GetSupportedApiVersion(
                    GetSupportedApiVersion { header, content },
                ),
            ),
            FromWidgetAction::ContentLoaded(MessageKind::Request(content)) => Some(
                IncomingRequest::ContentLoaded(ContentLoaded { header, content }),
            ),
            FromWidgetAction::GetOpenId(MessageKind::Request(content)) => Some(
                IncomingRequest::GetOpenId(GetOpenId { header, content }),
            ),
            FromWidgetAction::SendEvent(MessageKind::Request(content)) => Some(
                IncomingRequest::SendEvent(SendEvent { header, content }),
            ),
            FromWidgetAction::ReadEvent(MessageKind::Request(content)) => Some(
                IncomingRequest::ReadEvent(ReadEvent { header, content }),
            ),
            _ => None,
        }
    }

    /// The one failed response for this request: same variant, same header,
    /// carrying the error string.
    pub fn fail(self, error: String) -> (r: IncomingResponse)
        ensures
            r.header == request_header(self),
            r.data == failed_response(self, error),
    {
        match self {
            IncomingRequest::GetSupportedApiVersion(q) => q.map(Err(error)),
            IncomingRequest::ContentLoaded(q) => q.map(Err(error)),
            IncomingRequest::GetOpenId(q) => q.map(Err(error)),
            IncomingRequest::SendEvent(q) => q.map(Err(error)),
            IncomingRequest::ReadEvent(q) => q.map(Err(error)),
        }
    }
}

/// Validation keeps the header: whatever typed request a raw action
/// becomes, it carries the raw frame's header, so the response built by
/// `map` or `fail` echoes exactly that header.
pub proof fn lemma_validated_request_keeps_header(header: Header, action: FromWidgetAction)
    ensures
        match validated_request(header, action) {
            Some(req) => request_header(req) == header,
            None => true,
        },
{
}

impl WithHeader<FromWidgetAction> {
    /// Wrap a finished response into a wire message under its header.
    pub fn into_message(self) -> (r: Message)
        ensures
            r.header == self.header,
            r.action == Action::FromWidget(self.data),
    {
        Message { header: self.header, action: Action::FromWidget(self.data) }
    }
}

} // verus!
