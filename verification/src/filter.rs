//! Event filters: which timeline events a widget may read or send, and
//! whether a given event matches a filter.

use vstd::prelude::*;

use crate::json::content_msgtype;
use crate::messages::SendEventRequest;
use crate::text::str_eq;

verus! {

/// Filter for message-like events.
#[derive(Clone)]
pub enum MessageLikeEventFilter {
    /// Matches message-like events with the given `type`.
    WithType(String),
    /// Matches `m.room.message` events with the given `msgtype`.
    RoomMessageWithMsgtype(String),
}

/// Filter for state events.
#[derive(Clone)]
pub enum StateEventFilter {
    /// Matches state events with the given `type`, regardless of `state_key`.
    WithType(String),
    /// Matches state events with the given `type` and `state_key`.
    WithTypeAndStateKey(String, String),
}

/// Different kinds of filters for timeline events.
#[derive(Clone)]
pub enum EventFilter {
    /// Filter for message-like events.
    MessageLike(MessageLikeEventFilter),
    /// Filter for state events.
    State(StateEventFilter),
}

/// Mathematical model of a message-like filter.
pub enum MessageLikeEventFilterView {
    WithType(Seq<char>),
    RoomMessageWithMsgtype(Seq<char>),
}

/// Mathematical model of a state filter.
pub enum StateEventFilterView {
    WithType(Seq<char>),
    WithTypeAndStateKey(Seq<char>, Seq<char>),
}

/// Mathematical model of an event filter.
pub enum EventFilterView {
    MessageLike(MessageLikeEventFilterView),
    State(StateEventFilterView),
}

impl View for MessageLikeEventFilter {
    type V = MessageLikeEventFilterView;

    open spec fn view(&self) -> MessageLikeEventFilterView {
        match self {
            MessageLikeEventFilter::WithType(t) => MessageLikeEventFilterView::WithType(t@),
            MessageLikeEventFilter::RoomMessageWithMsgtype(m) =>
                MessageLikeEventFilterView::RoomMessageWithMsgtype(m@),
        }
    }
}

impl View for StateEventFilter {
    type V = StateEventFilterView;

    open spec fn view(&self) -> StateEventFilterView {
        match self {
            StateEventFilter::WithType(t) => StateEventFilterView::WithType(t@),
            StateEventFilter::WithTypeAndStateKey(t, k) =>
                StateEventFilterView::WithTypeAndStateKey(t@, k@),
        }
    }
}

impl View for EventFilter {
    type V = EventFilterView;

    open spec fn view(&self) -> EventFilterView {
        match self {
            EventFilter::MessageLike(f) => EventFilterView::MessageLike(f@),
            EventFilter::State(f) => EventFilterView::State(f@),
        }
    }
}

/// What filters are evaluated against: the event's type, its state key if
/// it has one, and the `msgtype` of its content if there is one.
pub struct MatrixEventFilterInput {
    pub event_type: String,
    pub state_key: Option<String>,
    pub content: MatrixEventContent,
}

/// The one piece of event content that filters inspect.
pub struct MatrixEventContent {
    pub msgtype: Option<String>,
}

/// Mathematical model of a filter input.
pub struct MatrixEventFilterInputView {
    pub event_type: Seq<char>,
    pub state_key: Option<Seq<char>>,
    pub msgtype: Option<Seq<char>>,
}

impl View for MatrixEventFilterInput {
    type V = MatrixEventFilterInputView;

    open spec fn view(&self) -> MatrixEventFilterInputView {
        MatrixEventFilterInputView {
            event_type: self.event_type@,
            state_key: match self.state_key {
                Some(k) => Some(k@),
                None => None,
            },
            msgtype: match self.content.msgtype {
                Some(m) => Some(m@),
                None => None,
            },
        }
    }
}

/// The event type whose content a `RoomMessageWithMsgtype` filter inspects.
pub open spec fn room_message_type() -> Seq<char> {
    "m.room.message"@
}

/// A message-like filter matches only events without a state key; the type
/// must agree, and for `RoomMessageWithMsgtype` also the content's msgtype.
pub open spec fn message_filter_matches(
    f: MessageLikeEventFilterView,
    ev: MatrixEventFilterInputView,
) -> bool {
    ev.state_key is None && match f {
        MessageLikeEventFilterView::WithType(t) => ev.event_type == t,
        MessageLikeEventFilterView::RoomMessageWithMsgtype(m) => {
            &&& ev.event_type == room_message_type()
            &&& ev.msgtype == Some(m)
        },
    }
}

/// A state filter matches only events with a state key; the type must
/// agree, and for `WithTypeAndStateKey` also the state key.
pub open spec fn state_filter_matches(
    f: StateEventFilterView,
    ev: MatrixEventFilterInputView,
) -> bool {
    ev.state_key is Some && match f {
        StateEventFilterView::WithType(t) => ev.event_type == t,
        StateEventFilterView::WithTypeAndStateKey(t, k) => {
            &&& ev.event_type == t
            &&& ev.state_key == Some(k)
        },
    }
}

/// Whether an event filter admits a given event.
pub open spec fn filter_matches(f: EventFilterView, ev: MatrixEventFilterInputView) -> bool {
    match f {
        EventFilterView::MessageLike(mf) => message_filter_matches(mf, ev),
        EventFilterView::State(sf) => state_filter_matches(sf, ev),
    }
}

impl MessageLikeEventFilter {
    pub fn matches(&self, matrix_event: &MatrixEventFilterInput) -> (r: bool)
        ensures
            r == message_filter_matches(self@, matrix_event@),
    {
        if matrix_event.state_key.is_some() {
            // A state event does not match a message-like event filter.
            return false;
        }

        match self {
            MessageLikeEventFilter::WithType(event_type) => {
                str_eq(matrix_event.event_type.as_str(), event_type.as_str())
            },
            MessageLikeEventFilter::RoomMessageWithMsgtype(msgtype) => {
                str_eq(matrix_event.event_type.as_str(), "m.room.message")
                    && match &matrix_event.content.msgtype {
                    Some(m) => str_eq(m.as_str(), msgtype.as_str()),
                    None => false,
                }
            },
        }
    }
}

impl StateEventFilter {
    pub fn matches(&self, matrix_event: &MatrixEventFilterInput) -> (r: bool)
        ensures
            r == state_filter_matches(self@, matrix_event@),
    {
        let state_key = match &matrix_event.state_key {
            Some(k) => k,
            None => {
                // A message-like event does not match a state event filter.
                return false;
            },
        };

        match self {
            StateEventFilter::WithType(event_type) => {
                str_eq(matrix_event.event_type.as_str(), event_type.as_str())
            },
            StateEventFilter::WithTypeAndStateKey(event_type, filter_state_key) => {
                str_eq(matrix_event.event_type.as_str(), event_type.as_str())
                    && str_eq(state_key.as_str(), filter_state_key.as_str())
            },
        }
    }
}

impl EventFilter {
    pub fn matches(&self, matrix_event: &MatrixEventFilterInput) -> (r: bool)
        ensures
            r == filter_matches(self@, matrix_event@),
    {
        match self {
            EventFilter::MessageLike(message_filter) => message_filter.matches(matrix_event),
            EventFilter::State(state_filter) => state_filter.matches(matrix_event),
        }
    }
}

/// A message-like filter never matches an event whose state key is present,
/// and a state filter never matches one whose state key is absent.
pub proof fn lemma_state_key_separates_filters(f: EventFilterView, ev: MatrixEventFilterInputView)
    ensures
        f is MessageLike && ev.state_key is Some ==> !filter_matches(f, ev),
        f is State && ev.state_key is None ==> !filter_matches(f, ev),
{
}

impl MatrixEventFilterInput {
    /// Filter input for an event the widget asks to send. If the content
    /// holds no string `msgtype`, filters see the msgtype as absent; that is
    /// not an error.
    pub fn from_send_event_request(req: SendEventRequest) -> (r: Self)
        ensures
            r.event_type == req.event_type,
            r.state_key == req.state_key,
    {
        let msgtype = content_msgtype(&req.content);
        MatrixEventFilterInput {
            event_type: req.event_type,
            state_key: req.state_key,
            content: MatrixEventContent { msgtype },
        }
    }
}

} // verus!
