//! The session's state machine. It owns the negotiated capabilities and
//! decides, for each validated request, which reply goes back to the
//! widget and whether a collaborator may be invoked. The surrounding task
//! performs the collaborator calls and hands their results back in.

use vstd::prelude::*;

use crate::error::Error;
use crate::incoming::{
    ContentLoaded, GetOpenId, GetSupportedApiVersion, IncomingRequest, IncomingResponse,
    validated_request,
};
use crate::messages::{
    decision_response, Empty, FromWidgetAction, Header, MessageKind, OpenIdResponse, OpenIdStatus,
    SupportedApiVersionsResponse, supported_api_versions,
};
use crate::permissions::Permissions;

verus! {

/// The negotiated capabilities: the approved permission set, and whether
/// the session holds a reader or a sender handle to the chat client.
pub struct Capabilities {
    pub approved: Permissions,
    pub has_reader: bool,
    pub has_sender: bool,
}

/// A handle is held exactly when the approved set has at least one filter
/// of the corresponding kind.
pub open spec fn capabilities_wf(c: Capabilities) -> bool {
    &&& c.has_reader == (c.approved.read.len() > 0)
    &&& c.has_sender == (c.approved.send.len() > 0)
}

impl Capabilities {
    /// Capabilities for an approved permission set; handles are present
    /// exactly for the non-empty filter lists.
    pub fn from_approved(approved: Permissions) -> (r: Capabilities)
        ensures
            capabilities_wf(r),
            r.approved == approved,
    {
        let has_reader = approved.read.len() > 0;
        let has_sender = approved.send.len() > 0;
        Capabilities { approved, has_reader, has_sender }
    }
}

/// State of the state machine that handles incoming requests.
pub struct State {
    /// Negotiated capabilities; `None` until negotiation completes, then
    /// set exactly once and never changed again.
    pub capabilities: Option<Capabilities>,
    /// Whether initialization waits for the widget's `ContentLoaded`.
    pub init_on_load: bool,
}

/// Every capability set the state ever holds keeps its handle invariant.
pub open spec fn state_wf(s: State) -> bool {
    match s.capabilities {
        Some(c) => capabilities_wf(c),
        None => true,
    }
}

/// Whether a read request may proceed: `None` when it may, otherwise the
/// error string it is refused with.
pub open spec fn read_gate(s: State) -> Option<Seq<char>> {
    match s.capabilities {
        None => Some("Capabilities have not been negotiated"@),
        Some(c) => if c.has_reader {
            None
        } else {
            Some("No permissions to read events"@)
        },
    }
}

/// Whether a send request may proceed: `None` when it may, otherwise the
/// error string it is refused with.
pub open spec fn send_gate(s: State) -> Option<Seq<char>> {
    match s.capabilities {
        None => Some("Capabilities have not been negotiated"@),
        Some(c) => if c.has_sender {
            None
        } else {
            Some("No permissions to send events"@)
        },
    }
}

/// Whether `ContentLoaded` is answered with `"Already loaded"`.
pub open spec fn content_loaded_is_error(init_on_load: bool, caps_set: bool) -> bool {
    init_on_load && caps_set
}

/// Whether `ContentLoaded` starts capability negotiation.
pub open spec fn content_loaded_negotiates(init_on_load: bool, caps_set: bool) -> bool {
    init_on_load && !caps_set
}

impl State {
    /// A fresh session: no capabilities negotiated yet.
    pub fn new(init_on_load: bool) -> (r: Self)
        ensures
            r.capabilities is None,
            r.init_on_load == init_on_load,
            state_wf(r),
    {
        State { capabilities: None, init_on_load }
    }

    /// The negotiated capabilities, or the error a data request is refused
    /// with before negotiation.
    pub fn caps(&self) -> (r: Result<&Capabilities, Error>)
        ensures
            match r {
                Ok(c) => self.capabilities == Some(*c),
                Err(e) => self.capabilities is None && error_is_not_negotiated(e),
            },
    {
        match &self.capabilities {
            Some(c) => Ok(c),
            None => Err(Error::custom("Capabilities have not been negotiated")),
        }
    }

    /// Record the outcome of capability negotiation. This happens exactly
    /// once per session: capabilities go from `None` to `Some` and then
    /// never change.
    pub fn set_capabilities(&mut self, caps: Capabilities)
        requires
            old(self).capabilities is None,
            capabilities_wf(caps),
        ensures
            final(self).capabilities == Some(caps),
            final(self).init_on_load == old(self).init_on_load,
            state_wf(*final(self)),
    {
        self.capabilities = Some(caps);
    }

    /// Decide the reply to `ContentLoaded`, and whether negotiation starts
    /// now. The state itself does not change here; negotiation completes
    /// later through `set_capabilities`.
    pub fn handle_content_loaded(&self, req: ContentLoaded) -> (r: (IncomingResponse, bool))
        ensures
            r.0.header == req.header,
            r.1 == content_loaded_negotiates(self.init_on_load, self.capabilities is Some),
            content_loaded_is_error(self.init_on_load, self.capabilities is Some)
                ==> (r.0.data matches FromWidgetAction::ContentLoaded(MessageKind::Response(Err(m)))
                && m@ == "Already loaded"@),
            !content_loaded_is_error(self.init_on_load, self.capabilities is Some)
                ==> r.0.data == FromWidgetAction::ContentLoaded(
                MessageKind::Response(Ok::<Empty, String>(Empty {})),
            ),
    {
        let caps_set = self.capabilities.is_some();
        if self.init_on_load && caps_set {
            (req.map(Err(String::from_str("Already loaded"))), false)
        } else if self.init_on_load {
            (req.map(Ok(Empty {})), true)
        } else {
            (req.map(Ok(Empty {})), false)
        }
    }

    /// Decide whether a read may proceed; a refusal carries the error
    /// string that is answered instead. Only on `Ok` may the caller invoke
    /// the chat client's reader.
    pub fn check_read(&self) -> (r: Result<(), String>)
        ensures
            match r {
                Ok(u) => read_gate(*self) is None,
                Err(m) => (read_gate(*self) matches Some(v) && m@ == v),
            },
    {
        match self.caps() {
            Ok(c) => {
                if c.has_reader {
                    Ok(())
                } else {
                    Err(String::from_str("No permissions to read events"))
                }
            },
            Err(e) => Err(e.message()),
        }
    }

    /// Decide whether a send may proceed; a refusal carries the error
    /// string that is answered instead. Only on `Ok` may the caller invoke
    /// the chat client's sender.
    pub fn check_send(&self) -> (r: Result<(), String>)
        ensures
            match r {
                Ok(u) => send_gate(*self) is None,
                Err(m) => (send_gate(*self) matches Some(v) && m@ == v),
            },
    {
        match self.caps() {
            Ok(c) => {
                if c.has_sender {
                    Ok(())
                } else {
                    Err(String::from_str("No permissions to send events"))
                }
            },
            Err(e) => Err(e.message()),
        }
    }
}

/// Whether an error is the refusal used before negotiation completed.
pub open spec fn error_is_not_negotiated(e: Error) -> bool {
    e matches Error::Custom(m) && m@ == "Capabilities have not been negotiated"@
}

/// The constant reply to `GetSupportedApiVersion`. It is computed from
/// the request alone, never from session state, so it may be answered out
/// of order on the fast path.
pub fn handle_get_supported_api_version(req: GetSupportedApiVersion) -> (r: IncomingResponse)
    ensures
        r.header == req.header,
        (r.data matches FromWidgetAction::GetSupportedApiVersion(MessageKind::Response(Ok(v)))
            && v.versions@ == supported_api_versions()),
{
    req.map(Ok(SupportedApiVersionsResponse::new()))
}

/// The immediate reply to `GetOpenId` for what the chat client answered,
/// and whether a final decision is still owed to the widget: exactly when
/// the status is pending, the session must later send an
/// `OpenIdCredentialsUpdate` once the decision resolves.
pub fn handle_open_id_status(req: GetOpenId, status: OpenIdStatus) -> (r: (
    IncomingResponse,
    bool,
))
    ensures
        r.0.header == req.header,
        match status {
            OpenIdStatus::Resolved(d) => r.0.data == FromWidgetAction::GetOpenId(
                MessageKind::Response(Ok::<OpenIdResponse, String>(decision_response(d))),
            ) && !r.1,
            OpenIdStatus::Pending => r.0.data == FromWidgetAction::GetOpenId(
                MessageKind::Response(Ok::<OpenIdResponse, String>(OpenIdResponse::Pending)),
            ) && r.1,
        },
{
    match status {
        OpenIdStatus::Resolved(decision) => (req.map(Ok(decision.into_response())), false),
        OpenIdStatus::Pending => (req.map(Ok(OpenIdResponse::Pending)), true),
    }
}

/// Where an incoming frame is routed.
pub enum RoutedRequest {
    /// Answered immediately, off the session's queue: the reply is
    /// complete.
    FastPath(IncomingResponse),
    /// Enqueued for the session task, in arrival order.
    Queued(IncomingRequest),
    /// No valid request: reported back as `"Invalid message"` under the
    /// frame's header.
    Invalid(Header),
}

/// Route one incoming frame: validate it, answer the stateless
/// `GetSupportedApiVersion` at once, queue everything else, and reject
/// what does not validate.
pub fn route_incoming(header: Header, action: FromWidgetAction) -> (r: RoutedRequest)
    ensures
        match validated_request(header, action) {
            Some(req) => match req {
                IncomingRequest::GetSupportedApiVersion(q) => (r matches RoutedRequest::FastPath(
                    resp,
                ) && resp.header == header && (resp.data matches
                    FromWidgetAction::GetSupportedApiVersion(MessageKind::Response(Ok(v)))
                    && v.versions@ == supported_api_versions())),
                _ => r == RoutedRequest::Queued(req),
            },
            None => r == RoutedRequest::Invalid(header),
        },
{
    let kept = header.duplicate();
    match IncomingRequest::new(header, action) {
        Some(req) => match req {
            IncomingRequest::GetSupportedApiVersion(q) => RoutedRequest::FastPath(
                handle_get_supported_api_version(q),
            ),
            other => RoutedRequest::Queued(other),
        },
        None => RoutedRequest::Invalid(kept),
    }
}

/// Before capabilities are negotiated, both data gates refuse: every
/// `SendEvent` or `ReadEvent` dispatched before the session is ready is
/// answered with an error, and only a passed gate lets the caller reach
/// the chat client.
pub proof fn lemma_capability_gate(s: State)
    ensures
        s.capabilities is None ==> read_gate(s) is Some,
        s.capabilities is None ==> send_gate(s) is Some,
        read_gate(s) is None ==> (s.capabilities matches Some(c) && c.has_reader),
        send_gate(s) is None ==> (s.capabilities matches Some(c) && c.has_sender),
{
}

} // verus!
