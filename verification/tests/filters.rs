use widget_driver::filter::{
    EventFilter, MatrixEventContent, MatrixEventFilterInput, MessageLikeEventFilter,
    StateEventFilter,
};
use widget_driver::messages::SendEventRequest;

fn message_event(event_type: &str, msgtype: Option<&str>) -> MatrixEventFilterInput {
    MatrixEventFilterInput {
        event_type: String::from(event_type),
        state_key: None,
        content: MatrixEventContent { msgtype: msgtype.map(String::from) },
    }
}

fn state_event(event_type: &str, state_key: &str) -> MatrixEventFilterInput {
    MatrixEventFilterInput {
        event_type: String::from(event_type),
        state_key: Some(String::from(state_key)),
        content: MatrixEventContent { msgtype: None },
    }
}

#[test]
fn msgtype_filter_matches_room_message_with_that_msgtype() {
    let filter = EventFilter::MessageLike(MessageLikeEventFilter::RoomMessageWithMsgtype(
        String::from("m.text"),
    ));
    assert!(filter.matches(&message_event("m.room.message", Some("m.text"))));
    assert!(!filter.matches(&message_event("m.room.message", Some("m.emote"))));
    assert!(!filter.matches(&message_event("m.room.message", None)));
    assert!(!filter.matches(&message_event("m.sticker", Some("m.text"))));
}

#[test]
fn message_filter_never_matches_event_with_state_key() {
    let filter = EventFilter::MessageLike(MessageLikeEventFilter::RoomMessageWithMsgtype(
        String::from("m.text"),
    ));
    // The same event with an empty state key present is a state event and
    // must not match.
    let mut ev = message_event("m.room.message", Some("m.text"));
    assert!(filter.matches(&ev));
    ev.state_key = Some(String::from(""));
    assert!(!filter.matches(&ev));

    let with_type = EventFilter::MessageLike(MessageLikeEventFilter::WithType(String::from(
        "m.room.message",
    )));
    assert!(!with_type.matches(&state_event("m.room.message", "")));
}

#[test]
fn state_filter_never_matches_event_without_state_key() {
    let filter = EventFilter::State(StateEventFilter::WithType(String::from("m.room.topic")));
    assert!(filter.matches(&state_event("m.room.topic", "anything")));
    assert!(!filter.matches(&message_event("m.room.topic", None)));

    let keyed = EventFilter::State(StateEventFilter::WithTypeAndStateKey(
        String::from("m.room.member"),
        String::from("@bob:example.org"),
    ));
    assert!(keyed.matches(&state_event("m.room.member", "@bob:example.org")));
    assert!(!keyed.matches(&state_event("m.room.member", "@alice:example.org")));
    assert!(!keyed.matches(&message_event("m.room.member", None)));
}

#[test]
fn send_event_request_content_msgtype_reaches_filters() {
    let content: serde_json::Value =
        serde_json::from_str("{\"msgtype\":\"m.text\",\"body\":\"hi\"}").unwrap();
    let req = SendEventRequest {
        event_type: String::from("m.room.message"),
        state_key: None,
        content,
    };
    let input = MatrixEventFilterInput::from_send_event_request(req);
    assert_eq!(input.content.msgtype.as_deref(), Some("m.text"));
    let filter = EventFilter::MessageLike(MessageLikeEventFilter::RoomMessageWithMsgtype(
        String::from("m.text"),
    ));
    assert!(filter.matches(&input));
}

#[test]
fn send_event_request_bad_msgtype_is_treated_as_absent() {
    let content: serde_json::Value = serde_json::from_str("{\"msgtype\":5}").unwrap();
    let req = SendEventRequest {
        event_type: String::from("m.room.message"),
        state_key: None,
        content,
    };
    let input = MatrixEventFilterInput::from_send_event_request(req);
    assert_eq!(input.content.msgtype, None);
    let filter = EventFilter::MessageLike(MessageLikeEventFilter::RoomMessageWithMsgtype(
        String::from("m.text"),
    ));
    assert!(!filter.matches(&input));

    let non_object: serde_json::Value = serde_json::from_str("\"just a string\"").unwrap();
    let req2 = SendEventRequest {
        event_type: String::from("m.room.message"),
        state_key: None,
        content: non_object,
    };
    let input2 = MatrixEventFilterInput::from_send_event_request(req2);
    assert_eq!(input2.content.msgtype, None);
}
