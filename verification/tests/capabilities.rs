use widget_driver::filter::{EventFilter, MessageLikeEventFilter, StateEventFilter};
use widget_driver::permissions::Permissions;

fn msg_filter(msgtype: &str) -> EventFilter {
    EventFilter::MessageLike(MessageLikeEventFilter::RoomMessageWithMsgtype(String::from(
        msgtype,
    )))
}

#[test]
fn serialize_read_msgtype_filter_exact_string() {
    let p = Permissions {
        read: vec![msg_filter("m.text")],
        send: vec![],
        requires_client: false,
    };
    let strings = p.serialize();
    assert_eq!(
        strings,
        vec![String::from("org.matrix.msc2762.m.receive.event:m.room.message#m.text")]
    );
}

#[test]
fn serialize_orders_requires_client_then_read_then_send() {
    let p = Permissions {
        read: vec![EventFilter::MessageLike(MessageLikeEventFilter::WithType(String::from(
            "m.reaction",
        )))],
        send: vec![EventFilter::State(StateEventFilter::WithTypeAndStateKey(
            String::from("m.room.topic"),
            String::from(""),
        ))],
        requires_client: true,
    };
    let strings = p.serialize();
    assert_eq!(
        strings,
        vec![
            String::from("io.element.requires_client"),
            String::from("org.matrix.msc2762.m.receive.event:m.reaction"),
            String::from("org.matrix.msc2762.m.send.state_event:m.room.topic#"),
        ]
    );
}

#[test]
fn round_trip_keeps_filters_and_flag() {
    let p = Permissions {
        read: vec![
            msg_filter("m.text"),
            EventFilter::State(StateEventFilter::WithType(String::from("m.room.member"))),
        ],
        send: vec![EventFilter::MessageLike(MessageLikeEventFilter::WithType(String::from(
            "m.room.message",
        )))],
        requires_client: true,
    };
    let strings = p.serialize();
    let q = Permissions::deserialize(&strings);
    assert!(q.requires_client);
    assert_eq!(q.read.len(), 2);
    assert_eq!(q.send.len(), 1);
    assert!(matches!(
        &q.read[0],
        EventFilter::MessageLike(MessageLikeEventFilter::RoomMessageWithMsgtype(m)) if m == "m.text"
    ));
    assert!(matches!(
        &q.read[1],
        EventFilter::State(StateEventFilter::WithType(t)) if t == "m.room.member"
    ));
    assert!(matches!(
        &q.send[0],
        EventFilter::MessageLike(MessageLikeEventFilter::WithType(t)) if t == "m.room.message"
    ));
    // A second trip over the wire loses nothing either.
    assert_eq!(q.serialize(), strings);
}

#[test]
fn unknown_permission_is_dropped_and_rest_survives() {
    let strings = vec![
        String::from("org.example.unknown:xyz"),
        String::from("org.matrix.msc2762.m.receive.event:m.room.message#m.text"),
        String::from("io.element.requires_client"),
    ];
    let p = Permissions::deserialize(&strings);
    assert!(p.requires_client);
    assert_eq!(p.read.len(), 1);
    assert_eq!(p.send.len(), 0);
    assert!(matches!(
        &p.read[0],
        EventFilter::MessageLike(MessageLikeEventFilter::RoomMessageWithMsgtype(m)) if m == "m.text"
    ));
    // Round-tripping what remains is lossless.
    let again = Permissions::deserialize(&p.serialize());
    assert!(again.requires_client);
    assert_eq!(again.read.len(), 1);
    assert_eq!(again.serialize(), p.serialize());
}

#[test]
fn totally_unknown_strings_give_empty_permissions() {
    let strings = vec![String::from("gibberish"), String::from("a:b")];
    let p = Permissions::deserialize(&strings);
    assert!(!p.requires_client);
    assert!(p.read.is_empty());
    assert!(p.send.is_empty());
}

#[test]
fn state_filter_with_key_splits_on_first_hash() {
    let strings = vec![String::from(
        "org.matrix.msc2762.m.receive.state_event:m.room.member#@alice:example.org",
    )];
    let p = Permissions::deserialize(&strings);
    assert_eq!(p.read.len(), 1);
    assert!(matches!(
        &p.read[0],
        EventFilter::State(StateEventFilter::WithTypeAndStateKey(t, k))
            if t == "m.room.member" && k == "@alice:example.org"
    ));
}

#[test]
fn default_permissions_are_empty() {
    let p = Permissions::default();
    assert!(!p.requires_client);
    assert!(p.read.is_empty());
    assert!(p.send.is_empty());
    assert!(p.serialize().is_empty());
}
