//! Chat data model: rooms, users, messages, events, and the chat message
//! wire format used on a room's gossip topic.

use vstd::prelude::*;
use vstd::string::{StringExecFns, StrSliceExecFns};
use vstd::utf8::encode_utf8;

use crate::error::NodeError;
use crate::wire::{
    enc_str, le64, lemma_take_str, lemma_take_u64, lemma_take_u8, read_str, read_u64, read_u8,
    str_len_fits, str_wf, take_str, take_u64, take_u8,
};

verus! {

/// The kind of a chat message.
pub enum MessageType {
    /// A plain text line.
    Text,
    /// A system notice.
    System,
    /// A user joined the room.
    UserJoined,
    /// A user left the room.
    UserLeft,
    /// A file shared through the content-addressed store.
    FileShare { file_name: String, doc_ticket: String },
}

#[verifier::ext_equal]
pub ghost enum ChatKindView {
    Text,
    System,
    UserJoined,
    UserLeft,
    FileShare { file_name: Seq<char>, doc_ticket: Seq<char> },
}

impl View for MessageType {
    type V = ChatKindView;

    open spec fn view(&self) -> ChatKindView {
        match *self {
            MessageType::Text => ChatKindView::Text,
            MessageType::System => ChatKindView::System,
            MessageType::UserJoined => ChatKindView::UserJoined,
            MessageType::UserLeft => ChatKindView::UserLeft,
            MessageType::FileShare { ref file_name, ref doc_ticket } => ChatKindView::FileShare {
                file_name: file_name@,
                doc_ticket: doc_ticket@,
            },
        }
    }
}

impl MessageType {
    /// Copy the kind.
    pub fn duplicate(&self) -> (r: MessageType)
        ensures
            r@ == self@,
    {
        match self {
            MessageType::Text => MessageType::Text,
            MessageType::System => MessageType::System,
            MessageType::UserJoined => MessageType::UserJoined,
            MessageType::UserLeft => MessageType::UserLeft,
            MessageType::FileShare { file_name, doc_ticket } => MessageType::FileShare {
                file_name: file_name.clone(),
                doc_ticket: doc_ticket.clone(),
            },
        }
    }
}

/// One chat message, as kept in room history and sent on the room's topic.
pub struct ChatMessage {
    pub id: String,
    pub sender_id: String,
    pub sender_name: String,
    pub content: String,
    pub message_type: MessageType,
    /// Milliseconds since the epoch.
    pub timestamp: u64,
    pub room_id: String,
}

#[verifier::ext_equal]
pub ghost struct ChatMessageView {
    pub id: Seq<char>,
    pub sender_id: Seq<char>,
    pub sender_name: Seq<char>,
    pub content: Seq<char>,
    pub message_type: ChatKindView,
    pub timestamp: u64,
    pub room_id: Seq<char>,
}

impl View for ChatMessage {
    type V = ChatMessageView;

    open spec fn view(&self) -> ChatMessageView {
        ChatMessageView {
            id: self.id@,
            sender_id: self.sender_id@,
            sender_name: self.sender_name@,
            content: self.content@,
            message_type: self.message_type@,
            timestamp: self.timestamp,
            room_id: self.room_id@,
        }
    }
}

/// A chat room; one room maps to exactly one gossip topic.
pub struct ChatRoom {
    pub id: String,
    pub name: String,
    pub description: Option<String>,
    /// Milliseconds since the epoch.
    pub created_at: u64,
    pub online_users: u32,
    pub topic_id: Vec<u8>,
}

#[verifier::ext_equal]
pub ghost struct ChatRoomView {
    pub id: Seq<char>,
    pub name: Seq<char>,
    pub description: Option<Seq<char>>,
    pub created_at: u64,
    pub online_users: u32,
    pub topic_id: Seq<u8>,
}

impl View for ChatRoom {
    type V = ChatRoomView;

    open spec fn view(&self) -> ChatRoomView {
        ChatRoomView {
            id: self.id@,
            name: self.name@,
            description: match self.description {
                Some(ref d) => Some(d@),
                None => None,
            },
            created_at: self.created_at,
            online_users: self.online_users,
            topic_id: self.topic_id@,
        }
    }
}

/// An ephemeral room participant, derived from presence messages.
pub struct ChatUser {
    pub id: String,
    pub name: String,
    /// Milliseconds since the epoch.
    pub joined_at: u64,
    pub is_online: bool,
}

#[verifier::ext_equal]
pub ghost struct ChatUserView {
    pub id: Seq<char>,
    pub name: Seq<char>,
    pub joined_at: u64,
    pub is_online: bool,
}

impl View for ChatUser {
    type V = ChatUserView;

    open spec fn view(&self) -> ChatUserView {
        ChatUserView {
            id: self.id@,
            name: self.name@,
            joined_at: self.joined_at,
            is_online: self.is_online,
        }
    }
}

impl ChatUser {
    /// Copy the user.
    pub fn duplicate(&self) -> (r: ChatUser)
        ensures
            r@ == self@,
    {
        let r = ChatUser {
            id: self.id.clone(),
            name: self.name.clone(),
            joined_at: self.joined_at,
            is_online: self.is_online,
        };
        assert(r@ =~= self@);
        r
    }
}

/// High-level chat events handed to subscribers.
pub enum ChatEvent {
    MessageReceived(ChatMessage),
    UserJoined(ChatUser),
    UserLeft { user_id: String, user_name: String },
    RoomCreated(ChatRoom),
    RoomUpdated(ChatRoom),
    ConnectionChanged { connected: bool },
    Error { message: String },
}

/// Request to send a message to a room.
pub struct SendMessageRequest {
    pub room_id: String,
    pub content: String,
    pub message_type: MessageType,
}

/// Request to join a room by its identifier.
pub struct JoinRoomRequest {
    pub room_id: String,
    pub user_name: String,
}

/// Request to create a room.
pub struct CreateRoomRequest {
    pub name: String,
    pub description: Option<String>,
}

/// Request to leave a room.
pub struct LeaveRoomRequest {
    pub room_id: String,
}

/// Chat client configuration.
pub struct ChatConfig {
    /// The user's display name.
    pub user_name: String,
    /// The bound on each room's kept history; oldest messages are evicted
    /// first.
    pub max_message_history: usize,
    /// Whether file sharing is enabled for this client.
    pub enable_file_sharing: bool,
}

impl ChatConfig {
    /// Copy the configuration.
    pub fn duplicate(&self) -> (r: ChatConfig)
        ensures
            r@ == self@,
    {
        ChatConfig {
            user_name: self.user_name.clone(),
            max_message_history: self.max_message_history,
            enable_file_sharing: self.enable_file_sharing,
        }
    }
}

#[verifier::ext_equal]
pub ghost struct ChatConfigView {
    pub user_name: Seq<char>,
    pub max_message_history: usize,
    pub enable_file_sharing: bool,
}

impl View for ChatConfig {
    type V = ChatConfigView;

    open spec fn view(&self) -> ChatConfigView {
        ChatConfigView {
            user_name: self.user_name@,
            max_message_history: self.max_message_history,
            enable_file_sharing: self.enable_file_sharing,
        }
    }
}

impl Default for ChatConfig {
    /// An anonymous user name, a thousand kept messages, file sharing on.
    fn default() -> (r: ChatConfig)
        ensures
            r.max_message_history == 1000,
            r.enable_file_sharing,
            r.user_name@.len() == 13,
    {
        proof {
            reveal_strlit("user_");
        }
        let tag = crate::identity::uuid_v4_string();
        let prefix = tag.as_str().substring_char(0, 8);
        let mut user_name = String::from_str("user_");
        user_name.append(prefix);
        ChatConfig { user_name, max_message_history: 1000, enable_file_sharing: true }
    }
}

// ---------------------------------------------------------------------------
// Topic derivation
// ---------------------------------------------------------------------------

/// The gossip topic of a room: the first 32 UTF-8 bytes of its identifier,
/// zero-padded.
pub open spec fn topic_of_room(id: Seq<char>) -> Seq<u8> {
    Seq::new(
        crate::ID_LEN as nat,
        |i: int|
            if i < encode_utf8(id).len() {
                encode_utf8(id)[i]
            } else {
                0u8
            },
    )
}

/// Derive a room's topic identifier.
pub fn derive_topic_id(id: &str) -> (r: Vec<u8>)
    ensures
        r@ == topic_of_room(id@),
        r@.len() == crate::ID_LEN,
{
    let bytes = id.as_bytes();
    let mut out: Vec<u8> = Vec::new();
    let mut i: usize = 0;
    while i < 32
        invariant
            i <= 32,
            bytes@ == encode_utf8(id@),
            out@.len() == i,
            forall|j: int|
                0 <= j < i ==> out@[j] == (if j < bytes@.len() {
                    bytes@[j]
                } else {
                    0u8
                }),
        decreases 32 - i,
    {
        if i < bytes.len() {
            out.push(bytes[i]);
        } else {
            out.push(0);
        }
        i += 1;
    }
    assert(out@ =~= topic_of_room(id@));
    out
}

// ---------------------------------------------------------------------------
// Constructors
// ---------------------------------------------------------------------------

impl ChatMessage {
    /// A new text message with a fresh identifier and the current time.
    pub fn new_text(sender_id: String, sender_name: String, content: String, room_id: String) -> (r:
        ChatMessage)
        ensures
            r.sender_id@ == sender_id@,
            r.sender_name@ == sender_name@,
            r.content@ == content@,
            r.room_id@ == room_id@,
            r.message_type@ is Text,
            r.id@.len() == 36,
            str_wf(r.id@),
    {
        ChatMessage {
            id: crate::identity::uuid_v4_string(),
            sender_id,
            sender_name,
            content,
            message_type: MessageType::Text,
            timestamp: crate::node::current_time(),
            room_id,
        }
    }

    /// A new system notice.
    pub fn new_system(content: String, room_id: String) -> (r: ChatMessage)
        ensures
            r.sender_id@ == "system"@,
            r.sender_name@ == "system"@,
            r.content@ == content@,
            r.room_id@ == room_id@,
            r.message_type@ is System,
            r.id@.len() == 36,
            r.wf() <==> str_wf(content@) && str_wf(room_id@),
    {
        proof {
            reveal_strlit("system");
            assert(vstd::utf8::is_ascii_chars("system"@));
            crate::wire::lemma_ascii_str_wf("system"@);
        }
        ChatMessage {
            id: crate::identity::uuid_v4_string(),
            sender_id: String::from_str("system"),
            sender_name: String::from_str("system"),
            content,
            message_type: MessageType::System,
            timestamp: crate::node::current_time(),
            room_id,
        }
    }

    /// A new file-share message.
    pub fn new_file_share(
        sender_id: String,
        sender_name: String,
        file_name: String,
        doc_ticket: String,
        room_id: String,
    ) -> (r: ChatMessage)
        ensures
            r.sender_id@ == sender_id@,
            r.sender_name@ == sender_name@,
            r.content@ == "shared a file: "@ + file_name@,
            r.room_id@ == room_id@,
            r.message_type@ == (ChatKindView::FileShare {
                file_name: file_name@,
                doc_ticket: doc_ticket@,
            }),
            r.id@.len() == 36,
            r.wf() <==> str_wf(sender_id@) && str_wf(sender_name@) && str_wf(
                "shared a file: "@ + file_name@,
            ) && str_wf(file_name@) && str_wf(doc_ticket@) && str_wf(room_id@),
    {
        let mut content = String::from_str("shared a file: ");
        content.append(file_name.as_str());
        ChatMessage {
            id: crate::identity::uuid_v4_string(),
            sender_id,
            sender_name,
            content,
            message_type: MessageType::FileShare { file_name, doc_ticket },
            timestamp: crate::node::current_time(),
            room_id,
        }
    }

    /// Copy the message.
    pub fn duplicate(&self) -> (r: ChatMessage)
        ensures
            r@ == self@,
    {
        let r = ChatMessage {
            id: self.id.clone(),
            sender_id: self.sender_id.clone(),
            sender_name: self.sender_name.clone(),
            content: self.content.clone(),
            message_type: self.message_type.duplicate(),
            timestamp: self.timestamp,
            room_id: self.room_id.clone(),
        };
        assert(r@ =~= self@);
        r
    }
}

impl ChatRoom {
    /// A new room with a fresh identifier and a topic derived from it.
    pub fn new(name: String, description: Option<String>) -> (r: ChatRoom)
        ensures
            r.name@ == name@,
            r@.description == (match description {
                Some(d) => Some(d@),
                None => None,
            }),
            r.topic_id@ == topic_of_room(r.id@),
            r.id@.len() == 36,
            str_wf(r.id@),
            r.online_users == 0,
    {
        let id = crate::identity::uuid_v4_string();
        let topic_id = derive_topic_id(id.as_str());
        ChatRoom {
            id,
            name,
            description,
            created_at: crate::node::current_time(),
            online_users: 0,
            topic_id,
        }
    }

    /// Copy the room.
    pub fn duplicate(&self) -> (r: ChatRoom)
        ensures
            r@ == self@,
    {
        let r = ChatRoom {
            id: self.id.clone(),
            name: self.name.clone(),
            description: match &self.description {
                Some(d) => Some(d.clone()),
                None => None,
            },
            created_at: self.created_at,
            online_users: self.online_users,
            topic_id: crate::registry::clone_bytes(&self.topic_id),
        };
        assert(r@ =~= self@);
        r
    }
}

impl ChatUser {
    /// A new online user with a fresh identifier.
    pub fn new(name: String) -> (r: ChatUser)
        ensures
            r.name@ == name@,
            r.is_online,
            r.id@.len() == 36,
    {
        ChatUser {
            id: crate::identity::uuid_v4_string(),
            name,
            joined_at: crate::node::current_time(),
            is_online: true,
        }
    }
}

// ---------------------------------------------------------------------------
// Bounded history
// ---------------------------------------------------------------------------

/// Append to a bounded history: push the message, then evict from the front
/// while over the bound.
pub open spec fn bounded_append(h: Seq<ChatMessageView>, m: ChatMessageView, max: usize) -> Seq<
    ChatMessageView,
> {
    let h2 = h.push(m);
    if h2.len() > max {
        h2.drop_first()
    } else {
        h2
    }
}

/// Law: a bounded history never exceeds its bound; the newest message is
/// present, and once the bound is reached the oldest message is the one
/// evicted.
pub proof fn lemma_bounded_append_len(h: Seq<ChatMessageView>, m: ChatMessageView, max: usize)
    requires
        h.len() <= max,
    ensures
        bounded_append(h, m, max).len() <= max,
        max >= 1 ==> bounded_append(h, m, max).last() == m,
        h.len() == max && max >= 1 ==> bounded_append(h, m, max) == h.drop_first().push(m),
        h.len() < max ==> bounded_append(h, m, max) == h.push(m),
{
    let h2 = h.push(m);
    if h2.len() > max {
        assert(h2.drop_first().len() == h.len());
        if max >= 1 {
            assert(h2.drop_first().last() == m);
            assert(h2.drop_first() =~= h.drop_first().push(m));
        }
    }
}

// ---------------------------------------------------------------------------
// Wire format
// ---------------------------------------------------------------------------

pub open spec fn enc_chat_kind(k: ChatKindView) -> Seq<u8> {
    match k {
        ChatKindView::Text => seq![0u8],
        ChatKindView::System => seq![1u8],
        ChatKindView::UserJoined => seq![2u8],
        ChatKindView::UserLeft => seq![3u8],
        ChatKindView::FileShare { file_name, doc_ticket } => seq![4u8] + enc_str(file_name)
            + enc_str(doc_ticket),
    }
}

pub open spec fn chat_kind_wf(k: ChatKindView) -> bool {
    match k {
        ChatKindView::FileShare { file_name, doc_ticket } => str_wf(file_name) && str_wf(
            doc_ticket,
        ),
        _ => true,
    }
}

pub open spec fn take_chat_kind(b: Seq<u8>) -> Option<(ChatKindView, Seq<u8>)> {
    match take_u8(b) {
        Some((tag, r0)) => {
            if tag == 0 {
                Some((ChatKindView::Text, r0))
            } else if tag == 1 {
                Some((ChatKindView::System, r0))
            } else if tag == 2 {
                Some((ChatKindView::UserJoined, r0))
            } else if tag == 3 {
                Some((ChatKindView::UserLeft, r0))
            } else if tag == 4 {
                match take_str(r0) {
                    Some((file_name, r1)) => match take_str(r1) {
                        Some((doc_ticket, r2)) => Some(
                            (ChatKindView::FileShare { file_name, doc_ticket }, r2),
                        ),
                        None => None,
                    },
                    None => None,
                }
            } else {
                None
            }
        },
        None => None,
    }
}

/// The chat message layout: the four text fields, the kind, the timestamp,
/// and the room.
pub open spec fn enc_chat_message(m: ChatMessageView) -> Seq<u8> {
    enc_str(m.id) + enc_str(m.sender_id) + enc_str(m.sender_name) + enc_str(m.content)
        + enc_chat_kind(m.message_type) + le64(m.timestamp) + enc_str(m.room_id)
}

pub open spec fn chat_message_wf(m: ChatMessageView) -> bool {
    &&& str_wf(m.id)
    &&& str_wf(m.sender_id)
    &&& str_wf(m.sender_name)
    &&& str_wf(m.content)
    &&& chat_kind_wf(m.message_type)
    &&& str_wf(m.room_id)
}

pub open spec fn take_chat_message(b: Seq<u8>) -> Option<(ChatMessageView, Seq<u8>)> {
    match take_str(b) {
        Some((id, r1)) => match take_str(r1) {
            Some((sender_id, r2)) => match take_str(r2) {
                Some((sender_name, r3)) => match take_str(r3) {
                    Some((content, r4)) => match take_chat_kind(r4) {
                        Some((message_type, r5)) => match take_u64(r5) {
                            Some((timestamp, r6)) => match take_str(r6) {
                                Some((room_id, r7)) => Some(
                                    (
                                        ChatMessageView {
                                            id,
                                            sender_id,
                                            sender_name,
                                            content,
                                            message_type,
                                            timestamp,
                                            room_id,
                                        },
                                        r7,
                                    ),
                                ),
                                None => None,
                            },
                            None => None,
                        },
                        None => None,
                    },
                    None => None,
                },
                None => None,
            },
            None => None,
        },
        None => None,
    }
}

/// Parse a complete chat message; trailing bytes are rejected.
pub open spec fn chat_message_from_bytes_spec(b: Seq<u8>) -> Option<ChatMessageView> {
    match take_chat_message(b) {
        Some((m, rest)) => if rest.len() == 0 {
            Some(m)
        } else {
            None
        },
        None => None,
    }
}

proof fn lemma_take_chat_kind(k: ChatKindView, rest: Seq<u8>)
    requires
        chat_kind_wf(k),
    ensures
        take_chat_kind(enc_chat_kind(k) + rest) == Some((k, rest)),
{
    match k {
        ChatKindView::Text => {
            lemma_take_u8(0u8, rest);
        },
        ChatKindView::System => {
            lemma_take_u8(1u8, rest);
        },
        ChatKindView::UserJoined => {
            lemma_take_u8(2u8, rest);
        },
        ChatKindView::UserLeft => {
            lemma_take_u8(3u8, rest);
        },
        ChatKindView::FileShare { file_name, doc_ticket } => {
            assert(enc_chat_kind(k) + rest =~= seq![4u8] + (enc_str(file_name) + (enc_str(
                doc_ticket,
            ) + rest)));
            lemma_take_u8(4u8, enc_str(file_name) + (enc_str(doc_ticket) + rest));
            lemma_take_str(file_name, enc_str(doc_ticket) + rest);
            lemma_take_str(doc_ticket, rest);
        },
    }
}

/// A well-formed chat message's binary form parses back to the message.
pub proof fn lemma_chat_message_round_trip(m: ChatMessageView)
    requires
        chat_message_wf(m),
    ensures
        chat_message_from_bytes_spec(enc_chat_message(m)) == Some(m),
{
    let e: Seq<u8> = Seq::empty();
    let t6 = enc_str(m.room_id) + e;
    let t5 = le64(m.timestamp) + t6;
    let t4 = enc_chat_kind(m.message_type) + t5;
    let t3 = enc_str(m.content) + t4;
    let t2 = enc_str(m.sender_name) + t3;
    let t1 = enc_str(m.sender_id) + t2;
    assert(enc_chat_message(m) + e =~= enc_str(m.id) + t1);
    lemma_take_str(m.id, t1);
    lemma_take_str(m.sender_id, t2);
    lemma_take_str(m.sender_name, t3);
    lemma_take_str(m.content, t4);
    lemma_take_chat_kind(m.message_type, t5);
    lemma_take_u64(m.timestamp, t6);
    lemma_take_str(m.room_id, e);
    assert(enc_chat_message(m) =~= enc_chat_message(m) + e);
}

impl ChatMessage {
    pub open spec fn wf(&self) -> bool {
        chat_message_wf(self@)
    }

    /// Check that every text field fits behind a 32-bit length prefix.
    pub fn check_wf(&self) -> (b: bool)
        ensures
            b == self.wf(),
    {
        str_len_fits(self.id.as_str()) && str_len_fits(self.sender_id.as_str()) && str_len_fits(
            self.sender_name.as_str(),
        ) && str_len_fits(self.content.as_str()) && (match &self.message_type {
            MessageType::FileShare { file_name, doc_ticket } => str_len_fits(file_name.as_str())
                && str_len_fits(doc_ticket.as_str()),
            _ => true,
        }) && str_len_fits(self.room_id.as_str())
    }

    /// Serialize for the room's topic. Fails exactly when some text field is
    /// too long for the wire format.
    pub fn to_bytes(&self) -> (r: Result<Vec<u8>, NodeError>)
        ensures
            match r {
                Ok(v) => self.wf() && v@ == enc_chat_message(self@),
                Err(e) => !self.wf() && e is EncodeError,
            },
    {
        if !self.check_wf() {
            return Err(NodeError::EncodeError(String::from_str("chat message field too long")));
        }
        let mut out: Vec<u8> = Vec::new();
        crate::wire::write_str(&mut out, self.id.as_str());
        crate::wire::write_str(&mut out, self.sender_id.as_str());
        crate::wire::write_str(&mut out, self.sender_name.as_str());
        crate::wire::write_str(&mut out, self.content.as_str());
        match &self.message_type {
            MessageType::Text => crate::wire::write_u8(&mut out, 0),
            MessageType::System => crate::wire::write_u8(&mut out, 1),
            MessageType::UserJoined => crate::wire::write_u8(&mut out, 2),
            MessageType::UserLeft => crate::wire::write_u8(&mut out, 3),
            MessageType::FileShare { file_name, doc_ticket } => {
                crate::wire::write_u8(&mut out, 4);
                crate::wire::write_str(&mut out, file_name.as_str());
                crate::wire::write_str(&mut out, doc_ticket.as_str());
            },
        }
        crate::wire::write_u64(&mut out, self.timestamp);
        crate::wire::write_str(&mut out, self.room_id.as_str());
        assert(out@ =~= enc_chat_message(self@));
        Ok(out)
    }

    /// Deserialize from a room's topic; trailing bytes are an error.
    pub fn from_bytes(bytes: &Vec<u8>) -> (r: Result<ChatMessage, NodeError>)
        ensures
            match r {
                Ok(m) => chat_message_from_bytes_spec(bytes@) == Some(m@) && m.wf(),
                Err(e) => chat_message_from_bytes_spec(bytes@) is None && e is DecodeError,
            },
    {
        proof {
            assert(bytes@.skip(0) =~= bytes@);
        }
        let err_msg = "malformed chat message";
        match read_chat_message(bytes, 0) {
            None => Err(NodeError::DecodeError(String::from_str(err_msg))),
            Some((m, p)) => {
                if p != bytes.len() {
                    assert(bytes@.skip(p as int).len() != 0);
                    return Err(NodeError::DecodeError(String::from_str(err_msg)));
                }
                assert(bytes@.skip(p as int).len() == 0);
                proof {
                    lemma_parsed_chat_message_wf(bytes@);
                }
                Ok(m)
            },
        }
    }
}

/// Anything the parser accepts is well formed.
proof fn lemma_parsed_chat_message_wf(b: Seq<u8>)
    ensures
        take_chat_message(b) matches Some(p) ==> chat_message_wf(p.0),
{
    if take_chat_message(b) is Some {
        crate::ticket::lemma_take_str_gives_wf(b);
        let (id, r1) = take_str(b)->0;
        crate::ticket::lemma_take_str_gives_wf(r1);
        let (sender_id, r2) = take_str(r1)->0;
        crate::ticket::lemma_take_str_gives_wf(r2);
        let (sender_name, r3) = take_str(r2)->0;
        crate::ticket::lemma_take_str_gives_wf(r3);
        let (content, r4) = take_str(r3)->0;
        let (kind, r5) = take_chat_kind(r4)->0;
        if kind is FileShare {
            let (tag, r4b) = take_u8(r4)->0;
            crate::ticket::lemma_take_str_gives_wf(r4b);
            let (fname, r4c) = take_str(r4b)->0;
            crate::ticket::lemma_take_str_gives_wf(r4c);
        }
        let (ts, r6) = take_u64(r5)->0;
        crate::ticket::lemma_take_str_gives_wf(r6);
    }
}

fn read_chat_kind(input: &Vec<u8>, pos: usize) -> (r: Option<(MessageType, usize)>)
    requires
        pos <= input.len(),
    ensures
        match r {
            Some(p) => take_chat_kind(input@.skip(pos as int)) == Some(
                (p.0@, input@.skip(p.1 as int)),
            ) && pos <= p.1 <= input.len(),
            None => take_chat_kind(input@.skip(pos as int)) is None,
        },
{
    match read_u8(input, pos) {
        None => None,
        Some((tag, p0)) => {
            if tag == 0 {
                Some((MessageType::Text, p0))
            } else if tag == 1 {
                Some((MessageType::System, p0))
            } else if tag == 2 {
                Some((MessageType::UserJoined, p0))
            } else if tag == 3 {
                Some((MessageType::UserLeft, p0))
            } else if tag == 4 {
                match read_str(input, p0) {
                    None => None,
                    Some((file_name, p1)) => match read_str(input, p1) {
                        None => None,
                        Some((doc_ticket, p2)) => Some(
                            (MessageType::FileShare { file_name, doc_ticket }, p2),
                        ),
                    },
                }
            } else {
                None
            }
        },
    }
}

fn read_chat_message(input: &Vec<u8>, pos: usize) -> (r: Option<(ChatMessage, usize)>)
    requires
        pos <= input.len(),
    ensures
        match r {
            Some(p) => take_chat_message(input@.skip(pos as int)) == Some(
                (p.0@, input@.skip(p.1 as int)),
            ) && pos <= p.1 <= input.len(),
            None => take_chat_message(input@.skip(pos as int)) is None,
        },
{
    let (id, p1) = match read_str(input, pos) {
        Some(v) => v,
        None => {
            return None;
        },
    };
    let (sender_id, p2) = match read_str(input, p1) {
        Some(v) => v,
        None => {
            return None;
        },
    };
    let (sender_name, p3) = match read_str(input, p2) {
        Some(v) => v,
        None => {
            return None;
        },
    };
    let (content, p4) = match read_str(input, p3) {
        Some(v) => v,
        None => {
            return None;
        },
    };
    let (message_type, p5) = match read_chat_kind(input, p4) {
        Some(v) => v,
        None => {
            return None;
        },
    };
    let (timestamp, p6) = match read_u64(input, p5) {
        Some(v) => v,
        None => {
            return None;
        },
    };
    let (room_id, p7) = match read_str(input, p6) {
        Some(v) => v,
        None => {
            return None;
        },
    };
    Some((ChatMessage { id, sender_id, sender_name, content, message_type, timestamp, room_id }, p7))
}

} // verus!
