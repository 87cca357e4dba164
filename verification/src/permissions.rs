//! Permissions that a widget can request from a client: their wire encoding
//! as a flat list of capability strings, and its inverse.
//!
//! The grammar has no escape sequences: a `'#'` in a filter string always
//! separates, so a message-like event type that itself begins with
//! `m.room.message#`, or a state event type holding a `'#'`, cannot be
//! written. `filter_expressible` states exactly which filters survive the
//! round trip, and the round-trip law is proved for those.

use vstd::prelude::*;

use crate::filter::{
    EventFilter, EventFilterView, MessageLikeEventFilter, MessageLikeEventFilterView,
    StateEventFilter, StateEventFilterView,
};
use crate::text::{
    contains_char, find_char, first_index_of, lemma_first_index_of,
    lemma_first_index_of_unique, starts_with, str_eq, str_starts_with,
};

verus! {

/// Capability string for sending message-like events.
pub open spec fn send_event_name() -> Seq<char> {
    "org.matrix.msc2762.m.send.event"@
}

/// Capability string for reading message-like events.
pub open spec fn read_event_name() -> Seq<char> {
    "org.matrix.msc2762.m.receive.event"@
}

/// Capability string for sending state events.
pub open spec fn send_state_name() -> Seq<char> {
    "org.matrix.msc2762.m.send.state_event"@
}

/// Capability string for reading state events.
pub open spec fn read_state_name() -> Seq<char> {
    "org.matrix.msc2762.m.receive.state_event"@
}

/// Capability string that asks the client not to open the widget in a
/// separate browser.
pub open spec fn requires_client_name() -> Seq<char> {
    "io.element.requires_client"@
}

/// The filter-string prefix that selects `m.room.message` events by their
/// content's msgtype.
pub open spec fn room_message_prefix() -> Seq<char> {
    "m.room.message#"@
}

/// Ground facts about the capability string literals that the grammar
/// proofs rest on: none of the action names holds a `':'`, and the four
/// action names are pairwise distinct.
pub proof fn lemma_capability_names()
    ensures
        !contains_char(send_event_name(), ':'),
        !contains_char(read_event_name(), ':'),
        !contains_char(send_state_name(), ':'),
        !contains_char(read_state_name(), ':'),
        !contains_char(requires_client_name(), ':'),
        send_event_name() != read_event_name(),
        send_event_name() != send_state_name(),
        send_event_name() != read_state_name(),
        read_event_name() != send_state_name(),
        read_event_name() != read_state_name(),
        send_state_name() != read_state_name(),
        room_message_prefix().len() == 15,
{
    reveal_strlit("org.matrix.msc2762.m.send.event");
    reveal_strlit("org.matrix.msc2762.m.receive.event");
    reveal_strlit("org.matrix.msc2762.m.send.state_event");
    reveal_strlit("org.matrix.msc2762.m.receive.state_event");
    reveal_strlit("io.element.requires_client");
    reveal_strlit("m.room.message#");
    assert(send_event_name().len() == 31);
    assert(read_event_name().len() == 34);
    assert(send_state_name().len() == 37);
    assert(read_state_name().len() == 40);
    assert(requires_client_name().len() == 26);
}

/// Permissions that a widget can request from a client.
pub struct Permissions {
    /// Types of the messages that a widget wants to be able to fetch.
    pub read: Vec<EventFilter>,
    /// Types of the messages that a widget wants to be able to send.
    pub send: Vec<EventFilter>,
    /// If a widget requests this capability, the client is not allowed to
    /// open the widget in a separate browser.
    pub requires_client: bool,
}

/// Mathematical model of a permission set.
#[verifier::ext_equal]
pub struct PermissionsView {
    pub read: Seq<EventFilterView>,
    pub send: Seq<EventFilterView>,
    pub requires_client: bool,
}

impl View for Permissions {
    type V = PermissionsView;

    open spec fn view(&self) -> PermissionsView {
        PermissionsView {
            read: self.read@.map_values(|f: EventFilter| f@),
            send: self.send@.map_values(|f: EventFilter| f@),
            requires_client: self.requires_client,
        }
    }
}

/// The permission set with nothing granted.
pub open spec fn empty_permissions() -> PermissionsView {
    PermissionsView { read: Seq::empty(), send: Seq::empty(), requires_client: false }
}

/// The filter part of a capability string: the event type, or for
/// msgtype-filtered room messages and keyed state filters a `'#'`-joined
/// pair.
pub open spec fn filter_string(f: EventFilterView) -> Seq<char> {
    match f {
        EventFilterView::MessageLike(MessageLikeEventFilterView::WithType(t)) => t,
        EventFilterView::MessageLike(MessageLikeEventFilterView::RoomMessageWithMsgtype(m)) =>
            room_message_prefix() + m,
        EventFilterView::State(StateEventFilterView::WithType(t)) => t,
        EventFilterView::State(StateEventFilterView::WithTypeAndStateKey(t, k)) =>
            t + seq!['#'] + k,
    }
}

/// The action name under which a filter is emitted when it grants reading.
pub open spec fn read_name_of(f: EventFilterView) -> Seq<char> {
    if f is MessageLike {
        read_event_name()
    } else {
        read_state_name()
    }
}

/// The action name under which a filter is emitted when it grants sending.
pub open spec fn send_name_of(f: EventFilterView) -> Seq<char> {
    if f is MessageLike {
        send_event_name()
    } else {
        send_state_name()
    }
}

/// The capability string for one read filter.
pub open spec fn read_permission_string(f: EventFilterView) -> Seq<char> {
    read_name_of(f) + seq![':'] + filter_string(f)
}

/// The capability string for one send filter.
pub open spec fn send_permission_string(f: EventFilterView) -> Seq<char> {
    send_name_of(f) + seq![':'] + filter_string(f)
}

/// The whole serialized permission set: `requires_client` first if it is
/// set, then the read filters in order, then the send filters in order.
pub open spec fn serialized_permissions(p: PermissionsView) -> Seq<Seq<char>> {
    (if p.requires_client {
        seq![requires_client_name()]
    } else {
        Seq::<Seq<char>>::empty()
    }) + p.read.map_values(|f: EventFilterView| read_permission_string(f))
        + p.send.map_values(|f: EventFilterView| send_permission_string(f))
}

/// What a single capability string means.
pub enum PermissionView {
    RequiresClient,
    ReadFilter(EventFilterView),
    SendFilter(EventFilterView),
    Unknown,
}

/// The filter-string tail of a message-like capability: a
/// `m.room.message#` prefix selects by msgtype, anything else is an event
/// type.
pub open spec fn parse_message_filter(s: Seq<char>) -> MessageLikeEventFilterView {
    if starts_with(s, room_message_prefix()) {
        MessageLikeEventFilterView::RoomMessageWithMsgtype(
            s.skip(room_message_prefix().len() as int),
        )
    } else {
        MessageLikeEventFilterView::WithType(s)
    }
}

/// The filter-string tail of a state capability: split on the first `'#'`
/// into type and state key, or take the whole string as the type.
pub open spec fn parse_state_filter(s: Seq<char>) -> StateEventFilterView {
    match first_index_of(s, '#') {
        Some(i) => StateEventFilterView::WithTypeAndStateKey(s.take(i), s.skip(i + 1)),
        None => StateEventFilterView::WithType(s),
    }
}

/// The meaning of one capability string: `requires_client` by exact match,
/// else split on the first `':'` and match the action name; anything else
/// is unknown and will be dropped.
pub open spec fn parse_permission(s: Seq<char>) -> PermissionView {
    if s == requires_client_name() {
        PermissionView::RequiresClient
    } else {
        match first_index_of(s, ':') {
            Some(i) => {
                let head = s.take(i);
                let tail = s.skip(i + 1);
                if head == read_event_name() {
                    PermissionView::ReadFilter(
                        EventFilterView::MessageLike(parse_message_filter(tail)),
                    )
                } else if head == send_event_name() {
                    PermissionView::SendFilter(
                        EventFilterView::MessageLike(parse_message_filter(tail)),
                    )
                } else if head == read_state_name() {
                    PermissionView::ReadFilter(EventFilterView::State(parse_state_filter(tail)))
                } else if head == send_state_name() {
                    PermissionView::SendFilter(EventFilterView::State(parse_state_filter(tail)))
                } else {
                    PermissionView::Unknown
                }
            },
            None => PermissionView::Unknown,
        }
    }
}

/// How one parsed capability extends a permission set.
pub open spec fn apply_permission(p: PermissionsView, q: PermissionView) -> PermissionsView {
    match q {
        PermissionView::RequiresClient => PermissionsView { requires_client: true, ..p },
        PermissionView::ReadFilter(f) => PermissionsView { read: p.read.push(f), ..p },
        PermissionView::SendFilter(f) => PermissionsView { send: p.send.push(f), ..p },
        PermissionView::Unknown => p,
    }
}

/// The permission set described by a list of capability strings, applied
/// in order starting from nothing granted.
pub open spec fn parsed_permissions(ss: Seq<Seq<char>>) -> PermissionsView
    decreases ss.len(),
{
    if ss.len() == 0 {
        empty_permissions()
    } else {
        apply_permission(parsed_permissions(ss.drop_last()), parse_permission(ss.last()))
    }
}

/// Appending one capability string extends the parsed set by that one
/// capability.
pub proof fn lemma_parsed_append_one(ss: Seq<Seq<char>>, x: Seq<char>)
    ensures
        parsed_permissions(ss.push(x)) == apply_permission(
            parsed_permissions(ss),
            parse_permission(x),
        ),
{
    assert(ss.push(x).drop_last() =~= ss);
    assert(ss.push(x).last() == x);
}

/// Message-like filters whose serialization the grammar can read back:
/// a plain event type must not itself look msgtype-filtered.
pub open spec fn message_filter_expressible(f: MessageLikeEventFilterView) -> bool {
    match f {
        MessageLikeEventFilterView::WithType(t) => !starts_with(t, room_message_prefix()),
        MessageLikeEventFilterView::RoomMessageWithMsgtype(m) => true,
    }
}

/// State filters whose serialization the grammar can read back: the event
/// type must not hold the `'#'` separator.
pub open spec fn state_filter_expressible(f: StateEventFilterView) -> bool {
    match f {
        StateEventFilterView::WithType(t) => !contains_char(t, '#'),
        StateEventFilterView::WithTypeAndStateKey(t, k) => !contains_char(t, '#'),
    }
}

/// Filters whose serialization the grammar can read back.
pub open spec fn filter_expressible(f: EventFilterView) -> bool {
    match f {
        EventFilterView::MessageLike(mf) => message_filter_expressible(mf),
        EventFilterView::State(sf) => state_filter_expressible(sf),
    }
}

/// Permission sets whose serialization the grammar can read back.
pub open spec fn permissions_expressible(p: PermissionsView) -> bool {
    &&& forall|i: int| 0 <= i < p.read.len() ==> filter_expressible(#[trigger] p.read[i])
    &&& forall|i: int| 0 <= i < p.send.len() ==> filter_expressible(#[trigger] p.send[i])
}

/// Splitting `name + ':' + tail` on the first `':'` recovers `name` and
/// `tail` when `name` holds no `':'`; such a string is never the
/// `requires_client` capability.
proof fn lemma_split_permission_string(name: Seq<char>, tail: Seq<char>)
    requires
        !contains_char(name, ':'),
    ensures
        first_index_of(name + seq![':'] + tail, ':') == Some(name.len() as int),
        (name + seq![':'] + tail).take(name.len() as int) == name,
        (name + seq![':'] + tail).skip(name.len() as int + 1) == tail,
        name + seq![':'] + tail != requires_client_name(),
{
    let s = name + seq![':'] + tail;
    assert(s[name.len() as int] == ':');
    assert(forall|j: int| 0 <= j < name.len() ==> s[j] == name[j]);
    lemma_first_index_of_unique(s, ':', name.len() as int);
    assert(s.take(name.len() as int) =~= name);
    assert(s.skip(name.len() as int + 1) =~= tail);
    if s == requires_client_name() {
        lemma_capability_names();
        assert(contains_char(requires_client_name(), ':'));
    }
}

/// The filter tail of an expressible message-like filter parses back to
/// that filter.
proof fn lemma_parse_message_filter_string(f: MessageLikeEventFilterView)
    requires
        message_filter_expressible(f),
    ensures
        parse_message_filter(filter_string(EventFilterView::MessageLike(f))) == f,
{
    match f {
        MessageLikeEventFilterView::WithType(t) => {},
        MessageLikeEventFilterView::RoomMessageWithMsgtype(m) => {
            let s = room_message_prefix() + m;
            assert(s.take(room_message_prefix().len() as int) =~= room_message_prefix());
            assert(s.skip(room_message_prefix().len() as int) =~= m);
        },
    }
}

/// The filter tail of an expressible state filter parses back to that
/// filter.
proof fn lemma_parse_state_filter_string(f: StateEventFilterView)
    requires
        state_filter_expressible(f),
    ensures
        parse_state_filter(filter_string(EventFilterView::State(f))) == f,
{
    match f {
        StateEventFilterView::WithType(t) => {
            lemma_first_index_of(t, '#');
        },
        StateEventFilterView::WithTypeAndStateKey(t, k) => {
            let s = t + seq!['#'] + k;
            assert(s[t.len() as int] == '#');
            assert(forall|j: int| 0 <= j < t.len() ==> s[j] == t[j]);
            lemma_first_index_of_unique(s, '#', t.len() as int);
            assert(s.take(t.len() as int) =~= t);
            assert(s.skip(t.len() as int + 1) =~= k);
        },
    }
}

/// The capability string of an expressible read filter parses back to a
/// read grant of that filter.
proof fn lemma_parse_read_string(f: EventFilterView)
    requires
        filter_expressible(f),
    ensures
        parse_permission(read_permission_string(f)) == PermissionView::ReadFilter(f),
{
    lemma_capability_names();
    lemma_split_permission_string(read_name_of(f), filter_string(f));
    match f {
        EventFilterView::MessageLike(mf) => {
            lemma_parse_message_filter_string(mf);
        },
        EventFilterView::State(sf) => {
            lemma_parse_state_filter_string(sf);
        },
    }
}

/// The capability string of an expressible send filter parses back to a
/// send grant of that filter.
proof fn lemma_parse_send_string(f: EventFilterView)
    requires
        filter_expressible(f),
    ensures
        parse_permission(send_permission_string(f)) == PermissionView::SendFilter(f),
{
    lemma_capability_names();
    lemma_split_permission_string(send_name_of(f), filter_string(f));
    match f {
        EventFilterView::MessageLike(mf) => {
            lemma_parse_message_filter_string(mf);
        },
        EventFilterView::State(sf) => {
            lemma_parse_state_filter_string(sf);
        },
    }
}

/// Parsing a block of read capability strings appends exactly those
/// filters to the read list.
proof fn lemma_parsed_read_block(ss: Seq<Seq<char>>, fs: Seq<EventFilterView>)
    requires
        forall|i: int| 0 <= i < fs.len() ==> filter_expressible(#[trigger] fs[i]),
    ensures
        (parsed_permissions(ss + fs.map_values(|f: EventFilterView| read_permission_string(f)))
            =~= (PermissionsView {
            read: parsed_permissions(ss).read + fs,
            ..parsed_permissions(ss)
        })),
    decreases fs.len(),
{
    let strings = fs.map_values(|f: EventFilterView| read_permission_string(f));
    if fs.len() == 0 {
        assert(ss + strings =~= ss);
        assert(parsed_permissions(ss).read + fs =~= parsed_permissions(ss).read);
    } else {
        let fs0 = fs.drop_last();
        let last = fs.last();
        lemma_parsed_read_block(ss, fs0);
        let strings0 = fs0.map_values(|f: EventFilterView| read_permission_string(f));
        assert(ss + strings =~= (ss + strings0).push(read_permission_string(last)));
        lemma_parsed_append_one(ss + strings0, read_permission_string(last));
        lemma_parse_read_string(last);
        assert(parsed_permissions(ss).read + fs0 + seq![last] =~= parsed_permissions(ss).read + fs);
    }
}

/// Parsing a block of send capability strings appends exactly those
/// filters to the send list.
proof fn lemma_parsed_send_block(ss: Seq<Seq<char>>, fs: Seq<EventFilterView>)
    requires
        forall|i: int| 0 <= i < fs.len() ==> filter_expressible(#[trigger] fs[i]),
    ensures
        (parsed_permissions(ss + fs.map_values(|f: EventFilterView| send_permission_string(f)))
            =~= (PermissionsView {
            send: parsed_permissions(ss).send + fs,
            ..parsed_permissions(ss)
        })),
    decreases fs.len(),
{
    let strings = fs.map_values(|f: EventFilterView| send_permission_string(f));
    if fs.len() == 0 {
        assert(ss + strings =~= ss);
        assert(parsed_permissions(ss).send + fs =~= parsed_permissions(ss).send);
    } else {
        let fs0 = fs.drop_last();
        let last = fs.last();
        lemma_parsed_send_block(ss, fs0);
        let strings0 = fs0.map_values(|f: EventFilterView| send_permission_string(f));
        assert(ss + strings =~= (ss + strings0).push(send_permission_string(last)));
        lemma_parsed_append_one(ss + strings0, send_permission_string(last));
        lemma_parse_send_string(last);
        assert(parsed_permissions(ss).send + fs0 + seq![last] =~= parsed_permissions(ss).send + fs);
    }
}

/// Serialization round trip: a permission set built only of filters the
/// grammar can express parses back, from its own serialization, to exactly
/// itself — same read filters in order, same send filters in order, same
/// `requires_client` flag.
pub proof fn lemma_permissions_round_trip(p: PermissionsView)
    requires
        permissions_expressible(p),
    ensures
        parsed_permissions(serialized_permissions(p)) == p,
{
    let base: Seq<Seq<char>> = if p.requires_client {
        seq![requires_client_name()]
    } else {
        Seq::<Seq<char>>::empty()
    };
    if p.requires_client {
        assert(base.drop_last() =~= Seq::<Seq<char>>::empty());
        assert(base.last() == requires_client_name());
        assert(parse_permission(base.last()) == PermissionView::RequiresClient);
        assert(parsed_permissions(base.drop_last()) == empty_permissions());
        assert(parsed_permissions(base) == apply_permission(
            empty_permissions(),
            PermissionView::RequiresClient,
        ));
    }
    assert(parsed_permissions(base) =~= PermissionsView {
        read: Seq::empty(),
        send: Seq::empty(),
        requires_client: p.requires_client,
    });
    let read_strings = p.read.map_values(|f: EventFilterView| read_permission_string(f));
    let send_strings = p.send.map_values(|f: EventFilterView| send_permission_string(f));
    lemma_parsed_read_block(base, p.read);
    lemma_parsed_send_block(base + read_strings, p.send);
    assert(serialized_permissions(p) == base + read_strings + send_strings);
    assert(parsed_permissions(base + read_strings).read =~= p.read);
    assert(parsed_permissions(base + read_strings + send_strings) =~= p);
}

impl Default for Permissions {
    fn default() -> (r: Self)
        ensures
            r@ == empty_permissions(),
    {
        let r = Permissions { read: Vec::new(), send: Vec::new(), requires_client: false };
        proof {
            assert(r@ =~~= empty_permissions());
        }
        r
    }
}

/// The filter part of a capability string, as emitted on the wire.
fn filter_string_exec(f: &EventFilter) -> (r: String)
    ensures
        r@ == filter_string(f@),
{
    match f {
        EventFilter::MessageLike(MessageLikeEventFilter::WithType(t)) => t.clone(),
        EventFilter::MessageLike(MessageLikeEventFilter::RoomMessageWithMsgtype(m)) => {
            String::from_str("m.room.message#").concat(m.as_str())
        },
        EventFilter::State(StateEventFilter::WithType(t)) => t.clone(),
        EventFilter::State(StateEventFilter::WithTypeAndStateKey(t, k)) => {
            let r = t.clone().concat("#").concat(k.as_str());
            proof {
                reveal_strlit("#");
                assert("#"@ =~= seq!['#']);
                assert(r@ =~= t@ + seq!['#'] + k@);
            }
            r
        },
    }
}

/// One whole capability string: action name, `':'`, filter part.
fn permission_string_exec(name: String, f: &EventFilter) -> (r: String)
    requires
        name@ == read_name_of(f@) || name@ == send_name_of(f@),
    ensures
        r@ == name@ + seq![':'] + filter_string(f@),
{
    let tail = filter_string_exec(f);
    let r = name.concat(":").concat(tail.as_str());
    proof {
        reveal_strlit(":");
        assert(":"@ =~= seq![':']);
        assert(r@ =~= name@ + seq![':'] + filter_string(f@));
    }
    r
}

impl Permissions {
    /// Emit the permission set as its wire form, a flat list of capability
    /// strings: `requires_client` first if set, then the read filters in
    /// order, then the send filters in order.
    pub fn serialize(&self) -> (r: Vec<String>)
        ensures
            r.deep_view() == serialized_permissions(self@),
    {
        let ghost base: Seq<Seq<char>> = if self.requires_client {
            seq![requires_client_name()]
        } else {
            Seq::<Seq<char>>::empty()
        };
        let ghost read_strings = self@.read.map_values(
            |f: EventFilterView| read_permission_string(f),
        );
        let ghost send_strings = self@.send.map_values(
            |f: EventFilterView| send_permission_string(f),
        );

        let mut out: Vec<String> = Vec::new();
        if self.requires_client {
            out.push(String::from_str("io.element.requires_client"));
        }
        proof {
            assert(out.deep_view() =~= base);
        }

        let mut i: usize = 0;
        while i < self.read.len()
            invariant
                i <= self.read.len(),
                read_strings == self@.read.map_values(
                    |f: EventFilterView| read_permission_string(f),
                ),
                out.deep_view() == base + read_strings.take(i as int),
            decreases self.read.len() - i,
        {
            let name = match &self.read[i] {
                EventFilter::MessageLike(_) => String::from_str(
                    "org.matrix.msc2762.m.receive.event",
                ),
                EventFilter::State(_) => String::from_str(
                    "org.matrix.msc2762.m.receive.state_event",
                ),
            };
            let s = permission_string_exec(name, &self.read[i]);
            let ghost pre = out.deep_view();
            let ghost pushed = s@;
            proof {
                assert(self@.read[i as int] == self.read@[i as int]@);
                assert(read_strings[i as int] == read_permission_string(self@.read[i as int]));
                assert(read_strings.take(i as int + 1) =~= read_strings.take(i as int).push(
                    read_strings[i as int],
                ));
            }
            out.push(s);
            proof {
                assert forall|k: int| 0 <= k < out.deep_view().len() implies out.deep_view()[k]
                    == pre.push(pushed)[k] by {
                    if k < pre.len() {
                        assert(pre[k] == out@[k]@);
                    }
                }
                assert(out.deep_view() =~= pre.push(pushed));
                assert(out.deep_view() =~= base + read_strings.take(i as int + 1));
            }
            i += 1;
        }
        proof {
            assert(read_strings.take(self.read@.len() as int) =~= read_strings);
        }

        let mut j: usize = 0;
        while j < self.send.len()
            invariant
                j <= self.send.len(),
                read_strings == self@.read.map_values(
                    |f: EventFilterView| read_permission_string(f),
                ),
                send_strings == self@.send.map_values(
                    |f: EventFilterView| send_permission_string(f),
                ),
                out.deep_view() == base + read_strings + send_strings.take(j as int),
            decreases self.send.len() - j,
        {
            let name = match &self.send[j] {
                EventFilter::MessageLike(_) => String::from_str("org.matrix.msc2762.m.send.event"),
                EventFilter::State(_) => String::from_str(
                    "org.matrix.msc2762.m.send.state_event",
                ),
            };
            let s = permission_string_exec(name, &self.send[j]);
            let ghost pre = out.deep_view();
            let ghost pushed = s@;
            proof {
                assert(self@.send[j as int] == self.send@[j as int]@);
                assert(send_strings[j as int] == send_permission_string(self@.send[j as int]));
                assert(send_strings.take(j as int + 1) =~= send_strings.take(j as int).push(
                    send_strings[j as int],
                ));
            }
            out.push(s);
            proof {
                assert forall|k: int| 0 <= k < out.deep_view().len() implies out.deep_view()[k]
                    == pre.push(pushed)[k] by {
                    if k < pre.len() {
                        assert(pre[k] == out@[k]@);
                    }
                }
                assert(out.deep_view() =~= pre.push(pushed));
                assert(out.deep_view() =~= base + read_strings + send_strings.take(j as int + 1));
            }
            j += 1;
        }
        proof {
            assert(send_strings.take(self.send@.len() as int) =~= send_strings);
            assert(out.deep_view() =~= serialized_permissions(self@));
        }
        out
    }
}

/// The meaning of one capability string, with its filter made concrete.
enum ParsedPermission {
    RequiresClient,
    ReadFilter(EventFilter),
    SendFilter(EventFilter),
    Unknown,
}

spec fn parsed_permission_view(p: &ParsedPermission) -> PermissionView {
    match p {
        ParsedPermission::RequiresClient => PermissionView::RequiresClient,
        ParsedPermission::ReadFilter(f) => PermissionView::ReadFilter(f@),
        ParsedPermission::SendFilter(f) => PermissionView::SendFilter(f@),
        ParsedPermission::Unknown => PermissionView::Unknown,
    }
}

/// The filter-string tail of a message-like capability.
fn parse_message_filter_exec(s: &str) -> (r: MessageLikeEventFilter)
    ensures
        r@ == parse_message_filter(s@),
{
    if str_starts_with(s, "m.room.message#") {
        let plen = "m.room.message#".unicode_len();
        let rest = s.substring_char(plen, s.unicode_len());
        MessageLikeEventFilter::RoomMessageWithMsgtype(rest.to_owned())
    } else {
        MessageLikeEventFilter::WithType(s.to_owned())
    }
}

/// The filter-string tail of a state capability.
fn parse_state_filter_exec(s: &str) -> (r: StateEventFilter)
    ensures
        r@ == parse_state_filter(s@),
{
    match find_char(s, '#') {
        Some(i) => {
            let len = s.unicode_len();
            let event_type = s.substring_char(0, i);
            let state_key = s.substring_char(i + 1, len);
            StateEventFilter::WithTypeAndStateKey(event_type.to_owned(), state_key.to_owned())
        },
        None => StateEventFilter::WithType(s.to_owned()),
    }
}

/// The meaning of one capability string.
fn parse_permission_exec(s: &str) -> (r: ParsedPermission)
    ensures
        parsed_permission_view(&r) == parse_permission(s@),
{
    if str_eq(s, "io.element.requires_client") {
        return ParsedPermission::RequiresClient;
    }
    match find_char(s, ':') {
        Some(i) => {
            let len = s.unicode_len();
            let head = s.substring_char(0, i);
            let tail = s.substring_char(i + 1, len);
            if str_eq(head, "org.matrix.msc2762.m.receive.event") {
                ParsedPermission::ReadFilter(
                    EventFilter::MessageLike(parse_message_filter_exec(tail)),
                )
            } else if str_eq(head, "org.matrix.msc2762.m.send.event") {
                ParsedPermission::SendFilter(
                    EventFilter::MessageLike(parse_message_filter_exec(tail)),
                )
            } else if str_eq(head, "org.matrix.msc2762.m.receive.state_event") {
                ParsedPermission::ReadFilter(EventFilter::State(parse_state_filter_exec(tail)))
            } else if str_eq(head, "org.matrix.msc2762.m.send.state_event") {
                ParsedPermission::SendFilter(EventFilter::State(parse_state_filter_exec(tail)))
            } else {
                ParsedPermission::Unknown
            }
        },
        None => ParsedPermission::Unknown,
    }
}

impl Permissions {
    /// Read a permission set back from its wire form. Capability strings
    /// that match no known action are dropped silently.
    pub fn deserialize(strings: &Vec<String>) -> (r: Permissions)
        ensures
            r@ == parsed_permissions(strings.deep_view()),
    {
        let ghost all = strings.deep_view();
        let mut permissions = Permissions {
            read: Vec::new(),
            send: Vec::new(),
            requires_client: false,
        };
        proof {
            assert(permissions@ =~~= parsed_permissions(all.take(0)));
        }
        let mut i: usize = 0;
        while i < strings.len()
            invariant
                i <= strings.len(),
                all == strings.deep_view(),
                permissions@ == parsed_permissions(all.take(i as int)),
            decreases strings.len() - i,
        {
            let parsed = parse_permission_exec(strings[i].as_str());
            proof {
                assert(all.take(i as int).push(all[i as int]) =~= all.take(i as int + 1));
                lemma_parsed_append_one(all.take(i as int), all[i as int]);
            }
            match parsed {
                ParsedPermission::RequiresClient => {
                    permissions.requires_client = true;
                },
                ParsedPermission::ReadFilter(f) => {
                    permissions.read.push(f);
                },
                ParsedPermission::SendFilter(f) => {
                    permissions.send.push(f);
                },
                ParsedPermission::Unknown => {},
            }
            proof {
                assert(permissions@ =~~= parsed_permissions(all.take(i as int + 1)));
            }
            i += 1;
        }
        proof {
            assert(all.take(strings@.len() as int) =~= all);
        }
        permissions
    }
}

} // verus!
