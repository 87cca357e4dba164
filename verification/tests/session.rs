use widget_driver::error::Error;
use widget_driver::filter::{EventFilter, MessageLikeEventFilter};
use widget_driver::incoming::{IncomingRequest, IncomingResponse};
use widget_driver::messages::{
    ApiVersion, Empty, FromWidgetAction, Header, MessageKind, OpenIdCredentials, OpenIdDecision,
    OpenIdRequest, OpenIdStatus, SupportedApiVersionsResponse,
};
use widget_driver::permissions::Permissions;
use widget_driver::state::{
    handle_get_supported_api_version, handle_open_id_status, route_incoming, Capabilities,
    RoutedRequest, State,
};

fn header(id: &str) -> Header {
    Header { id: String::from(id) }
}

fn caps_with(read: Vec<EventFilter>, send: Vec<EventFilter>) -> Capabilities {
    Capabilities::from_approved(Permissions { read, send, requires_client: false })
}

fn text_filter() -> EventFilter {
    EventFilter::MessageLike(MessageLikeEventFilter::RoomMessageWithMsgtype(String::from(
        "m.text",
    )))
}

fn expect_content_loaded_reply(resp: &IncomingResponse) -> &Result<Empty, String> {
    match &resp.data {
        FromWidgetAction::ContentLoaded(MessageKind::Response(r)) => r,
        _ => panic!("reply is not a ContentLoaded response"),
    }
}

#[test]
fn supported_api_versions_constant_list() {
    let expected = vec![
        ApiVersion::V0_0_1,
        ApiVersion::V0_0_2,
        ApiVersion::MSC2762,
        ApiVersion::MSC2871,
        ApiVersion::MSC3819,
    ];
    assert!(SupportedApiVersionsResponse::new().versions == expected);
    assert!(SupportedApiVersionsResponse::new().versions == expected);
}

#[test]
fn fast_path_replies_with_versions_and_echoes_header() {
    let routed = route_incoming(
        header("v1"),
        FromWidgetAction::GetSupportedApiVersion(MessageKind::Request(Empty {})),
    );
    match routed {
        RoutedRequest::FastPath(resp) => {
            assert_eq!(resp.header.id, "v1");
            match resp.data {
                FromWidgetAction::GetSupportedApiVersion(MessageKind::Response(Ok(v))) => {
                    assert_eq!(v.versions.len(), 5);
                },
                _ => panic!("fast path did not answer with versions"),
            }
        },
        _ => panic!("GetSupportedApiVersion was not fast-pathed"),
    }
}

#[test]
fn other_requests_are_queued_in_validated_form() {
    let routed = route_incoming(
        header("q1"),
        FromWidgetAction::ContentLoaded(MessageKind::Request(Empty {})),
    );
    match routed {
        RoutedRequest::Queued(IncomingRequest::ContentLoaded(req)) => {
            assert_eq!(req.header.id, "q1");
        },
        _ => panic!("ContentLoaded was not queued"),
    }
}

#[test]
fn response_in_incoming_position_is_invalid() {
    let routed = route_incoming(
        header("bad"),
        FromWidgetAction::ContentLoaded(MessageKind::Response(Ok(Empty {}))),
    );
    match routed {
        RoutedRequest::Invalid(h) => assert_eq!(h.id, "bad"),
        _ => panic!("a response frame validated as a request"),
    }
}

#[test]
fn validator_rejects_responses_and_accepts_requests() {
    let accepted = IncomingRequest::new(
        header("a"),
        FromWidgetAction::GetOpenId(MessageKind::Request(OpenIdRequest {})),
    );
    assert!(matches!(accepted, Some(IncomingRequest::GetOpenId(_))));

    let rejected = IncomingRequest::new(
        header("b"),
        FromWidgetAction::GetOpenId(MessageKind::Response(Err(String::from("nope")))),
    );
    assert!(rejected.is_none());
}

#[test]
fn fail_echoes_header_and_error_string() {
    let req = IncomingRequest::new(
        header("h7"),
        FromWidgetAction::GetOpenId(MessageKind::Request(OpenIdRequest {})),
    )
    .unwrap();
    let resp = req.fail(String::from("Invalid message"));
    assert_eq!(resp.header.id, "h7");
    match resp.data {
        FromWidgetAction::GetOpenId(MessageKind::Response(Err(m))) => {
            assert_eq!(m, "Invalid message");
        },
        _ => panic!("failure reply lost its variant or its message"),
    }
}

#[test]
fn content_loaded_twice_with_init_on_load() {
    let mut state = State::new(true);

    let first = IncomingRequest::new(
        header("cl1"),
        FromWidgetAction::ContentLoaded(MessageKind::Request(Empty {})),
    );
    let req1 = match first {
        Some(IncomingRequest::ContentLoaded(r)) => r,
        _ => panic!("ContentLoaded did not validate"),
    };
    let (resp1, negotiate) = state.handle_content_loaded(req1);
    assert_eq!(resp1.header.id, "cl1");
    assert!(expect_content_loaded_reply(&resp1).is_ok());
    assert!(negotiate);

    // Negotiation completes: capabilities are set exactly once.
    state.set_capabilities(caps_with(vec![text_filter()], vec![]));

    let second = IncomingRequest::new(
        header("cl2"),
        FromWidgetAction::ContentLoaded(MessageKind::Request(Empty {})),
    );
    let req2 = match second {
        Some(IncomingRequest::ContentLoaded(r)) => r,
        _ => panic!("ContentLoaded did not validate"),
    };
    let (resp2, negotiate2) = state.handle_content_loaded(req2);
    assert_eq!(resp2.header.id, "cl2");
    match expect_content_loaded_reply(&resp2) {
        Err(m) => assert_eq!(m, "Already loaded"),
        Ok(_) => panic!("a second ContentLoaded was accepted"),
    }
    assert!(!negotiate2);
}

#[test]
fn content_loaded_without_init_on_load_is_plain_ok() {
    let state = State::new(false);
    let req = match IncomingRequest::new(
        header("cl"),
        FromWidgetAction::ContentLoaded(MessageKind::Request(Empty {})),
    ) {
        Some(IncomingRequest::ContentLoaded(r)) => r,
        _ => panic!("ContentLoaded did not validate"),
    };
    let (resp, negotiate) = state.handle_content_loaded(req);
    assert!(expect_content_loaded_reply(&resp).is_ok());
    assert!(!negotiate);
}

#[test]
fn data_requests_before_negotiation_are_refused() {
    let state = State::new(false);
    assert_eq!(
        state.check_read().unwrap_err(),
        "Capabilities have not been negotiated"
    );
    assert_eq!(
        state.check_send().unwrap_err(),
        "Capabilities have not been negotiated"
    );
    assert!(state.caps().is_err());
}

#[test]
fn send_without_send_filter_is_refused_read_allowed() {
    let mut state = State::new(false);
    state.set_capabilities(caps_with(vec![text_filter()], vec![]));
    assert!(state.check_read().is_ok());
    assert_eq!(state.check_send().unwrap_err(), "No permissions to send events");
}

#[test]
fn read_without_read_filter_is_refused() {
    let mut state = State::new(false);
    state.set_capabilities(caps_with(vec![], vec![text_filter()]));
    assert!(state.check_send().is_ok());
    assert_eq!(state.check_read().unwrap_err(), "No permissions to read events");
}

#[test]
fn approved_read_only_capability_refuses_send() {
    // The widget asked for (and was granted) only the read capability for
    // m.text room messages; a SendEvent afterwards is refused.
    let granted = vec![String::from(
        "org.matrix.msc2762.m.receive.event:m.room.message#m.text",
    )];
    let approved = Permissions::deserialize(&granted);
    assert_eq!(approved.read.len(), 1);
    assert!(approved.send.is_empty());

    let mut state = State::new(false);
    state.set_capabilities(Capabilities::from_approved(approved));
    assert!(state.check_read().is_ok());
    assert_eq!(state.check_send().unwrap_err(), "No permissions to send events");
}

#[test]
fn open_id_pending_then_allowed_update() {
    let req = match IncomingRequest::new(
        header("oid"),
        FromWidgetAction::GetOpenId(MessageKind::Request(OpenIdRequest {})),
    ) {
        Some(IncomingRequest::GetOpenId(r)) => r,
        _ => panic!("GetOpenId did not validate"),
    };
    let (resp, update_owed) = handle_open_id_status(req, OpenIdStatus::Pending);
    assert_eq!(resp.header.id, "oid");
    assert!(update_owed);
    match resp.data {
        FromWidgetAction::GetOpenId(MessageKind::Response(Ok(
            widget_driver::messages::OpenIdResponse::Pending,
        ))) => {},
        _ => panic!("pending status was not answered with a pending reply"),
    }

    // When the handle resolves, the final decision carries the credentials.
    let decision = OpenIdDecision::Allowed(OpenIdCredentials {
        access_token: String::from("an-opaque-token"),
        token_type: String::from("Bearer"),
        matrix_server_name: String::from("example.org"),
        expires_in_seconds: 3600,
    });
    match decision.into_response() {
        widget_driver::messages::OpenIdResponse::Allowed(c) => {
            assert_eq!(c.matrix_server_name, "example.org");
            assert_eq!(c.expires_in_seconds, 3600);
        },
        _ => panic!("allowed decision did not turn into an allowed reply"),
    }
}

#[test]
fn open_id_resolved_blocked_replies_blocked_immediately() {
    let req = match IncomingRequest::new(
        header("oid2"),
        FromWidgetAction::GetOpenId(MessageKind::Request(OpenIdRequest {})),
    ) {
        Some(IncomingRequest::GetOpenId(r)) => r,
        _ => panic!("GetOpenId did not validate"),
    };
    let (resp, update_owed) =
        handle_open_id_status(req, OpenIdStatus::Resolved(OpenIdDecision::Blocked));
    assert!(!update_owed);
    match resp.data {
        FromWidgetAction::GetOpenId(MessageKind::Response(Ok(
            widget_driver::messages::OpenIdResponse::Blocked,
        ))) => {},
        _ => panic!("blocked decision was not answered with a blocked reply"),
    }
}

#[test]
fn error_messages_are_exact() {
    assert_eq!(Error::custom("boom").message(), "boom");
    assert_eq!(Error::WidgetDisconnected.message(), "Widget disconnected");
    assert_eq!(
        Error::WidgetErrorReply(String::from("widget said no")).message(),
        "widget said no"
    );
}

#[test]
fn handle_get_supported_api_version_ignores_state_entirely() {
    // The function does not even take the session state: its answer is a
    // pure function of the request.
    let req = match IncomingRequest::new(
        header("x"),
        FromWidgetAction::GetSupportedApiVersion(MessageKind::Request(Empty {})),
    ) {
        Some(IncomingRequest::GetSupportedApiVersion(r)) => r,
        _ => panic!("GetSupportedApiVersion did not validate"),
    };
    let resp = handle_get_supported_api_version(req);
    assert_eq!(resp.header.id, "x");
}
