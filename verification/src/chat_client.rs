//! The chat client: rooms as topics, joined-room tracking, bounded per-room
//! history, and high-level chat events.
//!
//! The client computes state transitions and the bytes to broadcast; the
//! surrounding runtime owns the gossip subscriptions, performs each returned
//! broadcast, feeds received bytes into [`IrohChatClient::handle_gossip`], and
//! fans the returned events out to subscribers.

use vstd::prelude::*;
use vstd::string::StringExecFns;
use vstd::string::StrSliceExecFns;

use crate::chat::{
    bounded_append, enc_chat_message, ChatConfig, ChatEvent, ChatMessage, ChatMessageView,
    ChatRoom, ChatRoomView, ChatUser, CreateRoomRequest, JoinRoomRequest, LeaveRoomRequest,
    MessageType, SendMessageRequest,
};
use crate::transfer_error::{IrohTransferError, TransferResult};
use crate::wire::{str_eq, str_wf};

verus! {

// ---------------------------------------------------------------------------
// Room and history tables
// ---------------------------------------------------------------------------

/// The kept messages of one room.
pub struct RoomHistory {
    pub room_id: String,
    pub messages: Vec<ChatMessage>,
}

#[verifier::ext_equal]
pub ghost struct RoomHistoryView {
    pub room_id: Seq<char>,
    pub messages: Seq<ChatMessageView>,
}

impl View for RoomHistory {
    type V = RoomHistoryView;

    open spec fn view(&self) -> RoomHistoryView {
        RoomHistoryView { room_id: self.room_id@, messages: messages_view(self.messages@) }
    }
}

pub open spec fn messages_view(l: Seq<ChatMessage>) -> Seq<ChatMessageView> {
    l.map_values(|m: ChatMessage| m@)
}

pub open spec fn rooms_view(l: Seq<ChatRoom>) -> Seq<ChatRoomView> {
    l.map_values(|r: ChatRoom| r@)
}

pub open spec fn histories_view(l: Seq<RoomHistory>) -> Seq<RoomHistoryView> {
    l.map_values(|h: RoomHistory| h@)
}

/// The room registered under an identifier, front to back.
pub open spec fn lookup_room(l: Seq<ChatRoomView>, id: Seq<char>) -> Option<ChatRoomView>
    decreases l.len(),
{
    if l.len() == 0 {
        None
    } else if l[0].id == id {
        Some(l[0])
    } else {
        lookup_room(l.drop_first(), id)
    }
}

/// The history kept under a room identifier, front to back.
pub open spec fn lookup_history(l: Seq<RoomHistoryView>, id: Seq<char>) -> Option<
    Seq<ChatMessageView>,
>
    decreases l.len(),
{
    if l.len() == 0 {
        None
    } else if l[0].room_id == id {
        Some(l[0].messages)
    } else {
        lookup_history(l.drop_first(), id)
    }
}

pub open spec fn rooms_unique(l: Seq<ChatRoomView>) -> bool {
    forall|i: int, j: int| 0 <= i < j < l.len() ==> l[i].id != l[j].id
}

pub open spec fn histories_unique(l: Seq<RoomHistoryView>) -> bool {
    forall|i: int, j: int| 0 <= i < j < l.len() ==> l[i].room_id != l[j].room_id
}

proof fn lemma_lookup_room_update(l: Seq<ChatRoomView>, j: int, e: ChatRoomView, id: Seq<char>)
    requires
        0 <= j < l.len(),
        l[j].id == e.id,
        forall|i: int| 0 <= i < j ==> l[i].id != e.id,
    ensures
        lookup_room(l.update(j, e), id) == if id == e.id {
            Some(e)
        } else {
            lookup_room(l, id)
        },
    decreases j,
{
    let lu = l.update(j, e);
    if j == 0 {
        assert(lu[0] == e);
        assert(lu.drop_first() =~= l.drop_first());
    } else {
        assert(lu[0] == l[0]);
        assert(lu.drop_first() =~= l.drop_first().update(j - 1, e));
        lemma_lookup_room_update(l.drop_first(), j - 1, e, id);
    }
}

proof fn lemma_lookup_room_push(l: Seq<ChatRoomView>, e: ChatRoomView, id: Seq<char>)
    requires
        forall|i: int| 0 <= i < l.len() ==> (#[trigger] l[i]).id != e.id,
    ensures
        lookup_room(l.push(e), id) == if id == e.id {
            Some(e)
        } else {
            lookup_room(l, id)
        },
    decreases l.len(),
{
    let lp = l.push(e);
    if l.len() == 0 {
        assert(lp[0] == e);
        assert(lp.drop_first() =~= Seq::<ChatRoomView>::empty());
        assert(lookup_room(Seq::<ChatRoomView>::empty(), id) is None);
        assert(lookup_room(l, id) is None);
    } else {
        assert(lp[0] == l[0]);
        assert(lp.drop_first() =~= l.drop_first().push(e));
        lemma_lookup_room_push(l.drop_first(), e, id);
    }
}

proof fn lemma_lookup_room_remove(l: Seq<ChatRoomView>, j: int, id: Seq<char>)
    requires
        0 <= j < l.len(),
        forall|i: int| 0 <= i < j ==> l[i].id != l[j].id,
    ensures
        lookup_room(l.remove(j), id) == if id == l[j].id {
            lookup_room_after(l, j, id)
        } else {
            lookup_room(l, id)
        },
    decreases j,
{
    let lr = l.remove(j);
    if j == 0 {
        assert(lr =~= l.drop_first());
        assert(l.skip(1) =~= l.drop_first());
    } else {
        assert(lr[0] == l[0]);
        assert(lr.drop_first() =~= l.drop_first().remove(j - 1));
        lemma_lookup_room_remove(l.drop_first(), j - 1, id);
        assert(l.skip(j + 1) =~= l.drop_first().skip(j));
    }
}

/// What a lookup finds strictly after position `j`.
pub open spec fn lookup_room_after(l: Seq<ChatRoomView>, j: int, id: Seq<char>) -> Option<
    ChatRoomView,
>
    recommends
        0 <= j <= l.len(),
{
    lookup_room(l.skip(j + 1), id)
}

proof fn lemma_lookup_history_update(
    l: Seq<RoomHistoryView>,
    j: int,
    e: RoomHistoryView,
    id: Seq<char>,
)
    requires
        0 <= j < l.len(),
        l[j].room_id == e.room_id,
        forall|i: int| 0 <= i < j ==> l[i].room_id != e.room_id,
    ensures
        lookup_history(l.update(j, e), id) == if id == e.room_id {
            Some(e.messages)
        } else {
            lookup_history(l, id)
        },
    decreases j,
{
    let lu = l.update(j, e);
    if j == 0 {
        assert(lu[0] == e);
        assert(lu.drop_first() =~= l.drop_first());
    } else {
        assert(lu[0] == l[0]);
        assert(lu.drop_first() =~= l.drop_first().update(j - 1, e));
        lemma_lookup_history_update(l.drop_first(), j - 1, e, id);
    }
}

proof fn lemma_lookup_history_push(l: Seq<RoomHistoryView>, e: RoomHistoryView, id: Seq<char>)
    requires
        forall|i: int| 0 <= i < l.len() ==> (#[trigger] l[i]).room_id != e.room_id,
    ensures
        lookup_history(l.push(e), id) == if id == e.room_id {
            Some(e.messages)
        } else {
            lookup_history(l, id)
        },
    decreases l.len(),
{
    let lp = l.push(e);
    if l.len() == 0 {
        assert(lp[0] == e);
        assert(lp.drop_first() =~= Seq::<RoomHistoryView>::empty());
        assert(lookup_history(Seq::<RoomHistoryView>::empty(), id) is None);
        assert(lookup_history(l, id) is None);
    } else {
        assert(lp[0] == l[0]);
        assert(lp.drop_first() =~= l.drop_first().push(e));
        lemma_lookup_history_push(l.drop_first(), e, id);
    }
}

/// Copy a message list.
pub fn clone_messages(l: &Vec<ChatMessage>) -> (r: Vec<ChatMessage>)
    ensures
        messages_view(r@) == messages_view(l@),
{
    let mut out: Vec<ChatMessage> = Vec::new();
    let mut i: usize = 0;
    while i < l.len()
        invariant
            i <= l@.len(),
            messages_view(out@) == messages_view(l@).take(i as int),
        decreases l@.len() - i,
    {
        let ghost pre = out@;
        out.push(l[i].duplicate());
        proof {
            assert(messages_view(out@) =~= messages_view(pre).push(out@[i as int]@));
            assert(messages_view(l@).take(i as int + 1) =~= messages_view(l@).take(i as int).push(
                messages_view(l@)[i as int],
            ));
            assert(messages_view(out@) =~= messages_view(l@).take(i as int + 1));
        }
        i += 1;
    }
    assert(messages_view(l@).take(l@.len() as int) =~= messages_view(l@));
    out
}

// ---------------------------------------------------------------------------
// Outcomes handed to the runtime
// ---------------------------------------------------------------------------

/// What a send produced: the topic and bytes to broadcast, and the message
/// that was appended to local history.
pub struct SendOutcome {
    pub topic: Vec<u8>,
    pub bytes: Vec<u8>,
    pub message: ChatMessage,
}

/// What joining a room produced: the room, the join notice to broadcast, and
/// the events to fan out to subscribers.
pub struct JoinOutcome {
    pub room: ChatRoom,
    pub send: SendOutcome,
    pub events: Vec<ChatEvent>,
}

// ---------------------------------------------------------------------------
// The chat client
// ---------------------------------------------------------------------------

/// The chat client state: configuration, the current user, the joined rooms,
/// and the bounded per-room message history.
pub struct IrohChatClient {
    pub config: ChatConfig,
    pub current_user: ChatUser,
    pub joined_rooms: Vec<ChatRoom>,
    pub history: Vec<RoomHistory>,
}

impl IrohChatClient {
    pub open spec fn rooms(&self) -> Seq<ChatRoomView> {
        rooms_view(self.joined_rooms@)
    }

    pub open spec fn histories(&self) -> Seq<RoomHistoryView> {
        histories_view(self.history@)
    }

    /// The room joined under an identifier.
    pub open spec fn room_of(&self, id: Seq<char>) -> Option<ChatRoomView> {
        lookup_room(self.rooms(), id)
    }

    /// The kept history of a room.
    pub open spec fn history_of(&self, id: Seq<char>) -> Seq<ChatMessageView> {
        match lookup_history(self.histories(), id) {
            Some(h) => h,
            None => Seq::empty(),
        }
    }

    /// Room identifiers are unique, history entries are unique, and no
    /// history exceeds the configured bound.
    pub open spec fn wf(&self) -> bool {
        &&& rooms_unique(self.rooms())
        &&& histories_unique(self.histories())
        &&& forall|i: int|
            0 <= i < self.histories().len() ==> (#[trigger] self.histories()[i]).messages.len()
                <= self.config.max_message_history
    }

    /// A fresh client for a user.
    pub fn new(config: ChatConfig) -> (r: IrohChatClient)
        ensures
            r.wf(),
            r.current_user.name@ == config.user_name@,
            r.current_user.is_online,
            r.config == config,
            r.rooms().len() == 0,
            r.histories().len() == 0,
    {
        let current_user = ChatUser::new(config.user_name.clone());
        IrohChatClient { config, current_user, joined_rooms: Vec::new(), history: Vec::new() }
    }

    /// The index of a joined room.
    fn find_room(&self, id: &str) -> (r: Option<usize>)
        ensures
            match r {
                Some(i) => i < self.rooms().len() && self.rooms()[i as int].id == id@
                    && self.room_of(id@) == Some(self.rooms()[i as int]) && (forall|j: int|
                    0 <= j < i ==> (#[trigger] self.rooms()[j]).id != id@),
                None => self.room_of(id@) is None && forall|j: int|
                    0 <= j < self.rooms().len() ==> (#[trigger] self.rooms()[j]).id != id@,
            },
    {
        let ghost full = self.rooms();
        assert(full.skip(0) =~= full);
        let mut i: usize = 0;
        while i < self.joined_rooms.len()
            invariant
                i <= self.joined_rooms@.len(),
                full == rooms_view(self.joined_rooms@),
                lookup_room(full, id@) == lookup_room(full.skip(i as int), id@),
                forall|j: int| 0 <= j < i ==> (#[trigger] full[j]).id != id@,
            decreases self.joined_rooms@.len() - i,
        {
            proof {
                assert(full.skip(i as int)[0] == full[i as int]);
                assert(full.skip(i as int).drop_first() =~= full.skip(i as int + 1));
            }
            if str_eq(self.joined_rooms[i].id.as_str(), id) {
                return Some(i);
            }
            i += 1;
        }
        assert(full.skip(i as int) =~= Seq::<ChatRoomView>::empty());
        None
    }

    /// The index of a room's history entry.
    fn find_history(&self, id: &str) -> (r: Option<usize>)
        ensures
            match r {
                Some(i) => i < self.histories().len() && self.histories()[i as int].room_id == id@
                    && lookup_history(self.histories(), id@) == Some(
                    self.histories()[i as int].messages,
                ) && (forall|j: int| 0 <= j < i ==> (#[trigger] self.histories()[j]).room_id != id@),
                None => lookup_history(self.histories(), id@) is None && forall|j: int|
                    0 <= j < self.histories().len() ==> (#[trigger] self.histories()[j]).room_id
                        != id@,
            },
    {
        let ghost full = self.histories();
        assert(full.skip(0) =~= full);
        let mut i: usize = 0;
        while i < self.history.len()
            invariant
                i <= self.history@.len(),
                full == histories_view(self.history@),
                lookup_history(full, id@) == lookup_history(full.skip(i as int), id@),
                forall|j: int| 0 <= j < i ==> (#[trigger] full[j]).room_id != id@,
            decreases self.history@.len() - i,
        {
            proof {
                assert(full.skip(i as int)[0] == full[i as int]);
                assert(full.skip(i as int).drop_first() =~= full.skip(i as int + 1));
            }
            if str_eq(self.history[i].room_id.as_str(), id) {
                return Some(i);
            }
            i += 1;
        }
        assert(full.skip(i as int) =~= Seq::<RoomHistoryView>::empty());
        None
    }

    /// Append a message to a room's history, evicting the oldest entries
    /// beyond the configured bound. The history never exceeds the bound.
    fn append_history(&mut self, message: &ChatMessage)
        requires
            old(self).wf(),
        ensures
            final(self).wf(),
            final(self).history_of(message.room_id@) == bounded_append(
                old(self).history_of(message.room_id@),
                message@,
                old(self).config.max_message_history,
            ),
            forall|id2: Seq<char>|
                id2 != message.room_id@ ==> final(self).history_of(id2) == old(self).history_of(
                    id2,
                ),
            final(self).joined_rooms == old(self).joined_rooms,
            final(self).config == old(self).config,
            final(self).current_user == old(self).current_user,
    {
        let ghost full = self.histories();
        let max = self.config.max_message_history;
        match self.find_history(&message.room_id.as_str()) {
            Some(i) => {
                let ghost old_msgs = self.histories()[i as int].messages;
                let mut messages = clone_messages(&self.history[i].messages);
                messages.push(message.duplicate());
                proof {
                    assert(messages_view(messages@) =~= old_msgs.push(message@));
                }
                if messages.len() > max {
                    messages.remove(0);
                    proof {
                        assert(messages_view(messages@) =~= old_msgs.push(message@).drop_first());
                    }
                }
                let fresh = RoomHistory { room_id: message.room_id.clone(), messages };
                let ghost new_entry = fresh@;
                proof {
                    assert(new_entry.messages == bounded_append(old_msgs, message@, max));
                }
                self.history[i] = fresh;
                proof {
                    assert(self.histories() =~= full.update(i as int, new_entry));
                    assert forall|id2: Seq<char>| true implies lookup_history(
                        full.update(i as int, new_entry),
                        id2,
                    ) == if id2 == new_entry.room_id {
                        Some(new_entry.messages)
                    } else {
                        lookup_history(full, id2)
                    } by {
                        lemma_lookup_history_update(full, i as int, new_entry, id2);
                    }
                    assert forall|a: int, b: int|
                        0 <= a < b < self.histories().len() implies self.histories()[a].room_id
                        != self.histories()[b].room_id by {
                        assert(full[a].room_id != full[b].room_id);
                    }
                    crate::chat::lemma_bounded_append_len(old_msgs, message@, max);
                }
            },
            None => {
                let mut messages: Vec<ChatMessage> = Vec::new();
                messages.push(message.duplicate());
                let ghost fresh_msgs = messages_view(messages@);
                proof {
                    assert(fresh_msgs =~= Seq::<ChatMessageView>::empty().push(message@));
                }
                if messages.len() > max {
                    messages.remove(0);
                    proof {
                        assert(messages_view(messages@) =~= Seq::<ChatMessageView>::empty().push(
                            message@,
                        ).drop_first());
                    }
                }
                let entry = RoomHistory { room_id: message.room_id.clone(), messages };
                let ghost ev = entry@;
                proof {
                    assert(ev.messages == bounded_append(
                        Seq::<ChatMessageView>::empty(),
                        message@,
                        max,
                    ));
                }
                self.history.push(entry);
                proof {
                    assert(self.histories() =~= full.push(ev));
                    assert forall|id2: Seq<char>| true implies lookup_history(
                        full.push(ev),
                        id2,
                    ) == if id2 == ev.room_id {
                        Some(ev.messages)
                    } else {
                        lookup_history(full, id2)
                    } by {
                        lemma_lookup_history_push(full, ev, id2);
                    }
                    assert forall|a: int, b: int|
                        0 <= a < b < self.histories().len() implies self.histories()[a].room_id
                        != self.histories()[b].room_id by {
                        if b < full.len() {
                            assert(full[a].room_id != full[b].room_id);
                        }
                    }
                    crate::chat::lemma_bounded_append_len(
                        Seq::<ChatMessageView>::empty(),
                        message@,
                        max,
                    );
                }
            },
        }
    }

    /// Insert a room, replacing any previous room with the same identifier.
    fn insert_room(&mut self, room: ChatRoom)
        requires
            old(self).wf(),
        ensures
            final(self).wf(),
            final(self).room_of(room.id@) == Some(room@),
            forall|id2: Seq<char>|
                id2 != room.id@ ==> final(self).room_of(id2) == old(self).room_of(id2),
            final(self).history == old(self).history,
            final(self).config == old(self).config,
            final(self).current_user == old(self).current_user,
    {
        let ghost full = self.rooms();
        let ghost rv = room@;
        match self.find_room(room.id.as_str()) {
            Some(i) => {
                proof {
                    assert(full[i as int].id == rv.id);
                }
                self.joined_rooms[i] = room;
                proof {
                    assert(self.rooms() =~= full.update(i as int, rv));
                    assert forall|id2: Seq<char>| true implies lookup_room(
                        full.update(i as int, rv),
                        id2,
                    ) == if id2 == rv.id {
                        Some(rv)
                    } else {
                        lookup_room(full, id2)
                    } by {
                        lemma_lookup_room_update(full, i as int, rv, id2);
                    }
                    assert forall|a: int, b: int|
                        0 <= a < b < self.rooms().len() implies self.rooms()[a].id
                        != self.rooms()[b].id by {
                        assert(full[a].id != full[b].id);
                    }
                }
            },
            None => {
                self.joined_rooms.push(room);
                proof {
                    assert(self.rooms() =~= full.push(rv));
                    assert forall|id2: Seq<char>| true implies lookup_room(full.push(rv), id2)
                        == if id2 == rv.id {
                        Some(rv)
                    } else {
                        lookup_room(full, id2)
                    } by {
                        lemma_lookup_room_push(full, rv, id2);
                    }
                    assert forall|a: int, b: int|
                        0 <= a < b < self.rooms().len() implies self.rooms()[a].id
                        != self.rooms()[b].id by {
                        if b < full.len() {
                            assert(full[a].id != full[b].id);
                        }
                    }
                }
            },
        }
    }

    /// Serialize a message for its room's topic, append it to local history,
    /// and hand the bytes back for broadcast. Fails when the room was not
    /// joined or a field is too long for the wire format; then nothing
    /// changes.
    fn send_message_internal(&mut self, message: ChatMessage) -> (r: TransferResult<SendOutcome>)
        requires
            old(self).wf(),
        ensures
            final(self).wf(),
            match r {
                Ok(o) => {
                    &&& old(self).room_of(message.room_id@) is Some
                    &&& o.message@ == message@
                    &&& o.topic@ == old(self).room_of(message.room_id@)->0.topic_id
                    &&& o.bytes@ == enc_chat_message(message@)
                    &&& final(self).history_of(message.room_id@) == bounded_append(
                        old(self).history_of(message.room_id@),
                        message@,
                        old(self).config.max_message_history,
                    )
                    &&& forall|id2: Seq<char>|
                        id2 != message.room_id@ ==> final(self).history_of(id2) == old(
                            self,
                        ).history_of(id2)
                    &&& final(self).joined_rooms == old(self).joined_rooms
                    &&& final(self).config == old(self).config
                    &&& final(self).current_user == old(self).current_user
                },
                Err(e) => {
                    &&& *final(self) == *old(self)
                    &&& e is Other
                    &&& (old(self).room_of(message.room_id@) is None || !message.wf())
                },
            },
    {
        let i = match self.find_room(message.room_id.as_str()) {
            Some(i) => i,
            None => {
                return Err(IrohTransferError::other("the room was not joined"));
            },
        };
        let bytes = match message.to_bytes() {
            Ok(b) => b,
            Err(_) => {
                return Err(IrohTransferError::other("chat message field too long"));
            },
        };
        let topic = crate::registry::clone_bytes(&self.joined_rooms[i].topic_id);
        self.append_history(&message);
        Ok(SendOutcome { topic, bytes, message })
    }

    /// Join a room the client already has a full description of: record it,
    /// self-post a system "joined" notice, and report the user-joined event.
    fn join_room_internal(&mut self, room: ChatRoom) -> (r: TransferResult<JoinOutcome>)
        requires
            old(self).wf(),
        ensures
            final(self).wf(),
            match r {
                Ok(o) => {
                    &&& o.room@ == room@
                    &&& final(self).room_of(room.id@) == Some(room@)
                    &&& forall|id2: Seq<char>|
                        id2 != room.id@ ==> final(self).room_of(id2) == old(self).room_of(id2)
                    &&& o.send.message@.message_type is System
                    &&& o.send.message@.room_id == room.id@
                    &&& o.send.topic@ == room.topic_id@
                    &&& o.send.bytes@ == enc_chat_message(o.send.message@)
                    &&& final(self).history_of(room.id@) == bounded_append(
                        old(self).history_of(room.id@),
                        o.send.message@,
                        old(self).config.max_message_history,
                    )
                    &&& o.send.message@.content == old(self).current_user.name@
                        + " joined the room"@
                    &&& o.events@.len() == 2
                    &&& (o.events@[0] matches ChatEvent::UserJoined(u) && u@ == old(
                        self,
                    ).current_user@)
                    &&& (o.events@[1] matches ChatEvent::RoomCreated(rm) && rm@ == room@)
                    &&& final(self).config == old(self).config
                    &&& final(self).current_user == old(self).current_user
                },
                Err(e) => e is Other && !(str_wf(
                    old(self).current_user.name@ + " joined the room"@,
                ) && str_wf(room.id@)),
            },
    {
        let ghost old_history = self.history_of(room.id@);
        let room_copy = room.duplicate();
        let event_room = room.duplicate();
        self.insert_room(room);
        let mut content = self.current_user.name.clone();
        content.append(" joined the room");
        let join_message = ChatMessage::new_system(content, room_copy.id.clone());
        let send = match self.send_message_internal(join_message) {
            Ok(s) => s,
            Err(e) => {
                return Err(e);
            },
        };
        let mut events: Vec<ChatEvent> = Vec::new();
        events.push(ChatEvent::UserJoined(self.current_user.duplicate()));
        events.push(ChatEvent::RoomCreated(event_room));
        Ok(JoinOutcome { room: room_copy, send, events })
    }

    /// Create a room: allocate its identifier, derive its topic, join it, and
    /// self-post the "joined" notice.
    pub fn create_room(&mut self, request: CreateRoomRequest) -> (r: TransferResult<JoinOutcome>)
        requires
            old(self).wf(),
        ensures
            final(self).wf(),
            match r {
                Ok(o) => {
                    &&& o.room.name@ == request.name@
                    &&& o.room@.description == (match request.description {
                        Some(d) => Some(d@),
                        None => None,
                    })
                    &&& o.room.topic_id@ == crate::chat::topic_of_room(o.room.id@)
                    &&& final(self).room_of(o.room.id@) == Some(o.room@)
                    &&& o.send.message@.message_type is System
                    &&& o.send.topic@ == o.room.topic_id@
                    &&& o.send.bytes@ == enc_chat_message(o.send.message@)
                    &&& final(self).history_of(o.room.id@) == bounded_append(
                        old(self).history_of(o.room.id@),
                        o.send.message@,
                        old(self).config.max_message_history,
                    )
                    &&& o.events@.len() == 2
                    &&& (o.events@[0] matches ChatEvent::UserJoined(u) && u@ == old(
                        self,
                    ).current_user@)
                    &&& (o.events@[1] matches ChatEvent::RoomCreated(rm) && rm@ == o.room@)
                    &&& final(self).config == old(self).config
                    &&& final(self).current_user == old(self).current_user
                },
                Err(e) => e is Other && !str_wf(
                    old(self).current_user.name@ + " joined the room"@,
                ),
            },
    {
        let room = ChatRoom::new(request.name, request.description);
        self.join_room_internal(room)
    }

    /// Join a room by its identifier, deriving the room description and the
    /// topic deterministically from the identifier.
    pub fn join_room(&mut self, request: JoinRoomRequest) -> (r: TransferResult<JoinOutcome>)
        requires
            old(self).wf(),
        ensures
            final(self).wf(),
            match r {
                Ok(o) => {
                    &&& o.room.id@ == request.room_id@
                    &&& o.room@.description is None
                    &&& o.room.topic_id@ == crate::chat::topic_of_room(request.room_id@)
                    &&& final(self).room_of(request.room_id@) == Some(o.room@)
                    &&& o.send.topic@ == o.room.topic_id@
                    &&& o.send.bytes@ == enc_chat_message(o.send.message@)
                    &&& final(self).history_of(request.room_id@) == bounded_append(
                        old(self).history_of(request.room_id@),
                        o.send.message@,
                        old(self).config.max_message_history,
                    )
                    &&& o.events@.len() == 2
                    &&& (o.events@[0] matches ChatEvent::UserJoined(u) && u@ == old(
                        self,
                    ).current_user@)
                    &&& (o.events@[1] matches ChatEvent::RoomCreated(rm) && rm@ == o.room@)
                },
                Err(e) => e is Other && !(str_wf(
                    old(self).current_user.name@ + " joined the room"@,
                ) && str_wf(request.room_id@)),
            },
    {
        let id_len = request.room_id.as_str().unicode_len();
        let prefix_end: usize = if id_len < 8 {
            id_len
        } else {
            8
        };
        let mut name = String::from_str("room_");
        name.append(request.room_id.as_str().substring_char(0, prefix_end));
        let topic_id = crate::chat::derive_topic_id(request.room_id.as_str());
        let room = ChatRoom {
            id: request.room_id,
            name,
            description: None,
            created_at: crate::node::current_time(),
            online_users: 1,
            topic_id,
        };
        self.join_room_internal(room)
    }

    /// Send a message to a joined room: the message is signed with the
    /// current user's identity fields, appended to local history within the
    /// bound, and handed back as bytes to broadcast.
    pub fn send_message(&mut self, request: SendMessageRequest) -> (r: TransferResult<SendOutcome>)
        requires
            old(self).wf(),
        ensures
            final(self).wf(),
            match r {
                Ok(o) => {
                    &&& old(self).room_of(request.room_id@) is Some
                    &&& o.message@.content == request.content@
                    &&& o.message@.message_type == request.message_type@
                    &&& o.message@.room_id == request.room_id@
                    &&& o.message@.sender_id == old(self).current_user.id@
                    &&& o.message@.sender_name == old(self).current_user.name@
                    &&& o.topic@ == old(self).room_of(request.room_id@)->0.topic_id
                    &&& o.bytes@ == enc_chat_message(o.message@)
                    &&& final(self).history_of(request.room_id@) == bounded_append(
                        old(self).history_of(request.room_id@),
                        o.message@,
                        old(self).config.max_message_history,
                    )
                    &&& forall|id2: Seq<char>|
                        id2 != request.room_id@ ==> final(self).history_of(id2) == old(
                            self,
                        ).history_of(id2)
                    &&& final(self).joined_rooms == old(self).joined_rooms
                },
                Err(e) => {
                    &&& *final(self) == *old(self)
                    &&& e is Other
                    &&& (old(self).room_of(request.room_id@) is None || !(str_wf(
                        old(self).current_user.id@,
                    ) && str_wf(old(self).current_user.name@) && str_wf(request.content@)
                        && crate::chat::chat_kind_wf(request.message_type@) && str_wf(
                        request.room_id@,
                    )))
                },
            },
    {
        let message = ChatMessage {
            id: crate::identity::uuid_v4_string(),
            sender_id: self.current_user.id.clone(),
            sender_name: self.current_user.name.clone(),
            content: request.content,
            message_type: request.message_type,
            timestamp: crate::node::current_time(),
            room_id: request.room_id,
        };
        self.send_message_internal(message)
    }

    /// Leave a room: self-post a "left" notice while still joined, then
    /// remove the room from the joined set. Always succeeds; the notice is
    /// skipped when the room was not joined.
    pub fn leave_room(&mut self, request: LeaveRoomRequest) -> (r: TransferResult<LeaveOutcome>)
        requires
            old(self).wf(),
        ensures
            final(self).wf(),
            match r {
                Ok(o) => {
                    &&& final(self).room_of(request.room_id@) is None
                    &&& forall|id2: Seq<char>|
                        id2 != request.room_id@ ==> final(self).room_of(id2) == old(self).room_of(
                            id2,
                        )
                    &&& (old(self).room_of(request.room_id@) is None ==> o.send is None)
                    &&& o.events@.len() == 1
                    &&& (o.events@[0] matches ChatEvent::UserLeft { user_id, user_name } && user_id@
                        == old(self).current_user.id@ && user_name@ == old(self).current_user.name@)
                    &&& final(self).config == old(self).config
                    &&& final(self).current_user == old(self).current_user
                },
                Err(_) => false,
            },
    {
        let mut content = self.current_user.name.clone();
        content.append(" left the room");
        let leave_message = ChatMessage::new_system(content, request.room_id.clone());
        let send = match self.send_message_internal(leave_message) {
            Ok(s) => Some(s),
            Err(_) => None,
        };
        let ghost full = self.rooms();
        match self.find_room(request.room_id.as_str()) {
            Some(i) => {
                self.joined_rooms.remove(i);
                proof {
                    assert(self.rooms() =~= full.remove(i as int));
                    assert forall|id2: Seq<char>| true implies lookup_room(
                        full.remove(i as int),
                        id2,
                    ) == if id2 == full[i as int].id {
                        lookup_room_after(full, i as int, id2)
                    } else {
                        lookup_room(full, id2)
                    } by {
                        lemma_lookup_room_remove(full, i as int, id2);
                    }
                    assert forall|k: int|
                        0 <= k < full.skip(i as int + 1).len() implies (#[trigger] full.skip(
                        i as int + 1,
                    )[k]).id != full[i as int].id by {
                        assert(full.skip(i as int + 1)[k] == full[k + i + 1]);
                    }
                    lemma_lookup_room_absent(full.skip(i as int + 1), full[i as int].id);
                    assert forall|a: int, b: int|
                        0 <= a < b < self.rooms().len() implies self.rooms()[a].id
                        != self.rooms()[b].id by {
                        let a2 = if a < i as int {
                            a
                        } else {
                            a + 1
                        };
                        let b2 = if b < i as int {
                            b
                        } else {
                            b + 1
                        };
                        assert(self.rooms()[a] == full[a2] && self.rooms()[b] == full[b2]);
                    }
                }
            },
            None => {},
        }
        let mut events: Vec<ChatEvent> = Vec::new();
        events.push(
            ChatEvent::UserLeft {
                user_id: self.current_user.id.clone(),
                user_name: self.current_user.name.clone(),
            },
        );
        Ok(LeaveOutcome { send, events })
    }

    /// Share a file into a room as a file-share message. Fails when file
    /// sharing is disabled for this client, and otherwise behaves as a send.
    pub fn share_file(&mut self, room_id: String, file_name: String, doc_ticket: String) -> (r:
        TransferResult<SendOutcome>)
        requires
            old(self).wf(),
        ensures
            final(self).wf(),
            !old(self).config.enable_file_sharing ==> (r is Err && *final(self) == *old(self)),
            match r {
                Ok(o) => {
                    &&& old(self).config.enable_file_sharing
                    &&& old(self).room_of(room_id@) is Some
                    &&& o.message@.message_type == (crate::chat::ChatKindView::FileShare {
                        file_name: file_name@,
                        doc_ticket: doc_ticket@,
                    })
                    &&& o.message@.room_id == room_id@
                    &&& o.bytes@ == enc_chat_message(o.message@)
                    &&& final(self).history_of(room_id@) == bounded_append(
                        old(self).history_of(room_id@),
                        o.message@,
                        old(self).config.max_message_history,
                    )
                },
                Err(e) => {
                    &&& *final(self) == *old(self)
                    &&& e is Other
                    &&& (!old(self).config.enable_file_sharing || old(self).room_of(
                        room_id@,
                    ) is None || !(str_wf(old(self).current_user.id@) && str_wf(
                        old(self).current_user.name@,
                    ) && str_wf("shared a file: "@ + file_name@) && str_wf(file_name@) && str_wf(
                        doc_ticket@,
                    ) && str_wf(room_id@)))
                },
            },
    {
        if !self.config.enable_file_sharing {
            return Err(IrohTransferError::other("file sharing is disabled"));
        }
        let message = ChatMessage::new_file_share(
            self.current_user.id.clone(),
            self.current_user.name.clone(),
            file_name,
            doc_ticket,
            room_id,
        );
        self.send_message_internal(message)
    }

    /// Decode one inbound gossip payload and record it: a chat message is
    /// appended to its room's bounded history and returned for the runtime to
    /// report; anything else is dropped and `None` comes back.
    pub fn handle_gossip(&mut self, bytes: &Vec<u8>) -> (r: Option<ChatMessage>)
        requires
            old(self).wf(),
        ensures
            final(self).wf(),
            match crate::chat::chat_message_from_bytes_spec(bytes@) {
                Some(mv) => {
                    &&& r matches Some(m) && m@ == mv
                    &&& final(self).history_of(mv.room_id) == bounded_append(
                        old(self).history_of(mv.room_id),
                        mv,
                        old(self).config.max_message_history,
                    )
                    &&& forall|id2: Seq<char>|
                        id2 != mv.room_id ==> final(self).history_of(id2) == old(self).history_of(
                            id2,
                        )
                    &&& final(self).joined_rooms == old(self).joined_rooms
                },
                None => r is None && *final(self) == *old(self),
            },
    {
        match ChatMessage::from_bytes(bytes) {
            Ok(m) => {
                self.append_history(&m);
                Some(m)
            },
            Err(_) => None,
        }
    }

    /// The rooms this client has joined.
    pub fn get_joined_rooms(&self) -> (r: Vec<ChatRoom>)
        ensures
            rooms_view(r@) == self.rooms(),
    {
        let mut out: Vec<ChatRoom> = Vec::new();
        let mut i: usize = 0;
        while i < self.joined_rooms.len()
            invariant
                i <= self.joined_rooms@.len(),
                rooms_view(out@) == self.rooms().take(i as int),
            decreases self.joined_rooms@.len() - i,
        {
            let ghost pre = out@;
            out.push(self.joined_rooms[i].duplicate());
            proof {
                assert(rooms_view(out@) =~= rooms_view(pre).push(out@[i as int]@));
                assert(self.rooms().take(i as int + 1) =~= self.rooms().take(i as int).push(
                    self.rooms()[i as int],
                ));
                assert(rooms_view(out@) =~= self.rooms().take(i as int + 1));
            }
            i += 1;
        }
        assert(self.rooms().take(self.joined_rooms@.len() as int) =~= self.rooms());
        out
    }

    /// A room's kept message history, oldest first; empty when the room has
    /// no recorded messages.
    pub fn get_message_history(&self, room_id: &str) -> (r: Vec<ChatMessage>)
        ensures
            messages_view(r@) == self.history_of(room_id@),
    {
        match self.find_history(room_id) {
            Some(i) => clone_messages(&self.history[i].messages),
            None => Vec::new(),
        }
    }

    /// The current user.
    pub fn get_current_user(&self) -> (r: &ChatUser)
        ensures
            *r == self.current_user,
    {
        &self.current_user
    }

    /// Update the user's display name, in both the user record and the
    /// configuration.
    pub fn update_user_name(&mut self, new_name: String)
        ensures
            final(self).current_user.name@ == new_name@,
            final(self).config.user_name@ == new_name@,
            final(self).current_user.id == old(self).current_user.id,
            final(self).joined_rooms == old(self).joined_rooms,
            final(self).history == old(self).history,
            final(self).config.max_message_history == old(self).config.max_message_history,
            final(self).config.enable_file_sharing == old(self).config.enable_file_sharing,
    {
        self.current_user.name = new_name.clone();
        self.config.user_name = new_name;
    }
}

/// What leaving a room produced.
pub struct LeaveOutcome {
    /// The "left" notice to broadcast, when the room was still joined.
    pub send: Option<SendOutcome>,
    pub events: Vec<ChatEvent>,
}

/// A lookup over entries none of which carry the identifier finds nothing.
proof fn lemma_lookup_room_absent(l: Seq<ChatRoomView>, id: Seq<char>)
    requires
        forall|i: int| 0 <= i < l.len() ==> (#[trigger] l[i]).id != id,
    ensures
        lookup_room(l, id) is None,
    decreases l.len(),
{
    if l.len() > 0 {
        lemma_lookup_room_absent(l.drop_first(), id);
    }
}

} // verus!
