//! Tests of the chat layer: rooms, bounded history, events, and the chat
//! message wire format.

use iroh_node::chat::{
    ChatConfig, ChatMessage, CreateRoomRequest, JoinRoomRequest, LeaveRoomRequest, MessageType,
    SendMessageRequest,
};
use iroh_node::chat_client::IrohChatClient;

fn config(name: &str, max: usize) -> ChatConfig {
    ChatConfig {
        user_name: name.to_string(),
        max_message_history: max,
        enable_file_sharing: true,
    }
}

#[test]
fn create_room_registers_it() {
    let mut client = IrohChatClient::new(config("alice", 100));
    let outcome =
        client.create_room(CreateRoomRequest { name: "Demo".to_string(), description: None })
            .expect("create");
    assert_eq!(outcome.room.name, "Demo");
    let rooms = client.get_joined_rooms();
    assert_eq!(rooms.len(), 1);
    assert_eq!(rooms[0].id, outcome.room.id);
    assert_eq!(rooms[0].name, "Demo");
}

#[test]
fn sent_message_appears_once_in_history() {
    let mut client = IrohChatClient::new(config("alice", 100));
    let outcome =
        client.create_room(CreateRoomRequest { name: "Demo".to_string(), description: None })
            .expect("create");
    let room_id = outcome.room.id.clone();
    let sender_id = client.get_current_user().id.clone();
    client
        .send_message(SendMessageRequest {
            room_id: room_id.clone(),
            content: "hi".to_string(),
            message_type: MessageType::Text,
        })
        .expect("send");
    let history = client.get_message_history(&room_id);
    let hits: Vec<&ChatMessage> = history.iter().filter(|m| m.content == "hi").collect();
    assert_eq!(hits.len(), 1);
    assert_eq!(hits[0].sender_id, sender_id);
}

#[test]
fn history_is_bounded_oldest_evicted_first() {
    let mut client = IrohChatClient::new(config("alice", 3));
    let outcome =
        client.create_room(CreateRoomRequest { name: "Demo".to_string(), description: None })
            .expect("create");
    let room_id = outcome.room.id.clone();
    for i in 0..5 {
        client
            .send_message(SendMessageRequest {
                room_id: room_id.clone(),
                content: format!("msg{}", i),
                message_type: MessageType::Text,
            })
            .expect("send");
    }
    let history = client.get_message_history(&room_id);
    assert_eq!(history.len(), 3);
    // The join notice and the first two messages were evicted.
    assert!(history.iter().all(|m| m.content != "msg0" && m.content != "msg1"));
    assert_eq!(history.last().unwrap().content, "msg4");
}

#[test]
fn send_to_unjoined_room_is_rejected() {
    let mut client = IrohChatClient::new(config("alice", 10));
    let result = client.send_message(SendMessageRequest {
        room_id: "nowhere".to_string(),
        content: "hi".to_string(),
        message_type: MessageType::Text,
    });
    assert!(matches!(result, Err(iroh_node::transfer_error::IrohTransferError::Other(_))));

    // On a joined room the same send is owed success.
    let outcome =
        client.create_room(CreateRoomRequest { name: "Demo".to_string(), description: None })
            .expect("create");
    client
        .send_message(SendMessageRequest {
            room_id: outcome.room.id.clone(),
            content: "hi".to_string(),
            message_type: MessageType::Text,
        })
        .expect("a send to a joined room succeeds");
}

#[test]
fn second_client_receives_what_the_first_broadcasts() {
    let mut alice = IrohChatClient::new(config("alice", 50));
    let created =
        alice.create_room(CreateRoomRequest { name: "Demo".to_string(), description: None })
            .expect("create");
    let room_id = created.room.id.clone();

    let mut bob = IrohChatClient::new(config("bob", 50));
    let joined = bob
        .join_room(JoinRoomRequest { room_id: room_id.clone(), user_name: "bob".to_string() })
        .expect("join");
    assert_eq!(joined.room.topic_id, created.room.topic_id);
    // Joining reports a user-joined event before any later chat message.
    assert!(matches!(
        joined.events.first(),
        Some(iroh_node::chat::ChatEvent::UserJoined(u)) if u.name == "bob"
    ));

    // Bob's join notice travels to Alice as bytes and lands in her history.
    let sent = alice
        .send_message(SendMessageRequest {
            room_id: room_id.clone(),
            content: "welcome".to_string(),
            message_type: MessageType::Text,
        })
        .expect("send");
    let received = bob.handle_gossip(&sent.bytes).expect("decodes");
    assert_eq!(received.content, "welcome");
    let history = bob.get_message_history(&room_id);
    assert!(history.iter().any(|m| m.content == "welcome" && m.sender_name == "alice"));
}

#[test]
fn gossip_garbage_is_dropped() {
    let mut client = IrohChatClient::new(config("alice", 10));
    assert!(client.handle_gossip(&vec![5u8, 6, 7]).is_none());
}

#[test]
fn leave_room_removes_it_and_reports_the_user() {
    let mut client = IrohChatClient::new(config("alice", 10));
    let outcome =
        client.create_room(CreateRoomRequest { name: "Demo".to_string(), description: None })
            .expect("create");
    let room_id = outcome.room.id.clone();
    let left = client.leave_room(LeaveRoomRequest { room_id: room_id.clone() }).expect("leave");
    assert!(left.send.is_some());
    assert!(matches!(
        left.events.first(),
        Some(iroh_node::chat::ChatEvent::UserLeft { user_name, .. }) if user_name == "alice"
    ));
    assert!(client.get_joined_rooms().is_empty());
}

#[test]
fn share_file_requires_the_feature() {
    let mut disabled = IrohChatClient::new(ChatConfig {
        user_name: "alice".to_string(),
        max_message_history: 10,
        enable_file_sharing: false,
    });
    let outcome =
        disabled.create_room(CreateRoomRequest { name: "Demo".to_string(), description: None })
            .expect("create");
    let result = disabled.share_file(
        outcome.room.id.clone(),
        "notes.txt".to_string(),
        "ticket".to_string(),
    );
    assert!(result.is_err());

    let mut enabled = IrohChatClient::new(config("alice", 10));
    let outcome =
        enabled.create_room(CreateRoomRequest { name: "Demo".to_string(), description: None })
            .expect("create");
    let sent = enabled
        .share_file(outcome.room.id.clone(), "notes.txt".to_string(), "ticket".to_string())
        .expect("share");
    assert!(matches!(
        sent.message.message_type,
        MessageType::FileShare { ref file_name, ref doc_ticket }
            if file_name == "notes.txt" && doc_ticket == "ticket"
    ));
}

#[test]
fn chat_message_wire_round_trip() {
    let message = ChatMessage {
        id: "id-1".to_string(),
        sender_id: "u-1".to_string(),
        sender_name: "alice".to_string(),
        content: "hello".to_string(),
        message_type: MessageType::FileShare {
            file_name: "a.txt".to_string(),
            doc_ticket: "t".to_string(),
        },
        timestamp: 123456789,
        room_id: "r-1".to_string(),
    };
    let bytes = message.to_bytes().expect("encodable");
    let back = ChatMessage::from_bytes(&bytes).expect("decodable");
    assert_eq!(back.id, "id-1");
    assert_eq!(back.sender_name, "alice");
    assert_eq!(back.timestamp, 123456789);
    assert_eq!(back.room_id, "r-1");
    assert!(matches!(
        back.message_type,
        MessageType::FileShare { ref file_name, .. } if file_name == "a.txt"
    ));
}

#[test]
fn update_user_name_changes_user_and_config() {
    let mut client = IrohChatClient::new(config("alice", 10));
    client.update_user_name("alicia".to_string());
    assert_eq!(client.get_current_user().name, "alicia");
    assert_eq!(client.config.user_name, "alicia");
}

#[test]
fn default_chat_config_is_anonymous_and_bounded() {
    let config = ChatConfig::default();
    assert_eq!(config.max_message_history, 1000);
    assert!(config.enable_file_sharing);
    assert!(config.user_name.starts_with("user_"));
    assert_eq!(config.user_name.chars().count(), 13);
}

#[test]
fn derived_topic_is_deterministic() {
    let a = iroh_node::chat::derive_topic_id("room-123");
    let b = iroh_node::chat::derive_topic_id("room-123");
    let c = iroh_node::chat::derive_topic_id("room-124");
    assert_eq!(a, b);
    assert_ne!(a, c);
    assert_eq!(a.len(), 32);
}
