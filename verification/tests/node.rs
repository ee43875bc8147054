//! Tests of the node state machine: configuration, topic lifecycle, message
//! dispatch, and status.

use iroh_node::envelope::SignedMessage;
use iroh_node::error::NodeError;
use iroh_node::identity::NodeIdentity;
use iroh_node::message::MessageType;
use iroh_node::node::{Dispatch, NodeConfig, P2PNode};
use iroh_node::ticket::{PeerAddr, Ticket};

fn local_addr() -> PeerAddr {
    PeerAddr {
        node_id: vec![0u8; 32],
        relay_url: None,
        direct_addresses: vec!["127.0.0.1:4433".to_string()],
    }
}

fn started_node() -> P2PNode {
    let mut node = P2PNode::new(NodeConfig::new()).expect("default config is valid");
    node.start(local_addr()).expect("start succeeds");
    node
}

#[test]
fn new_rejects_conflicting_relay_settings() {
    let config = NodeConfig::new()
        .with_no_relay(true)
        .with_relay(Some("https://relay.example".to_string()));
    assert!(matches!(P2PNode::new(config), Err(NodeError::ConfigError(_))));
}

#[test]
fn new_rejects_short_secret_key() {
    let config = NodeConfig::new().with_secret_key(Some(vec![1u8, 2, 3]));
    assert!(matches!(P2PNode::new(config), Err(NodeError::ConfigError(_))));
}

#[test]
fn new_node_is_stopped_and_empty() {
    let node = P2PNode::new(NodeConfig::new()).expect("valid");
    assert!(!node.is_running());
    assert_eq!(node.get_status().active_topics, 0);
    assert_eq!(node.node_id().len(), 64);
}

#[test]
fn join_requires_running_node() {
    let mut node = P2PNode::new(NodeConfig::new()).expect("valid");
    assert!(node.join_topic(Some(vec![1u8; 32]), None).is_err());
}

#[test]
fn join_topic_is_idempotent() {
    // Joining an already-active topic returns the same ticket and does not
    // add a second topic entry or dispatch channel.
    let mut node = started_node();
    let first = node.join_topic(Some(vec![1u8; 32]), None).expect("join");
    assert!(first.newly_joined);
    let again = node.join_topic(Some(vec![1u8; 32]), None).expect("join again");
    assert!(!again.newly_joined);
    assert_eq!(first.ticket, again.ticket);
    assert_eq!(node.get_active_topics().len(), 1);
    assert_eq!(node.get_status().active_topics, 1);
}

#[test]
fn join_by_ticket_carries_peers() {
    let mut node = started_node();
    let ticket = Ticket {
        topic: vec![9u8; 32],
        peers: vec![PeerAddr {
            node_id: vec![8u8; 32],
            relay_url: None,
            direct_addresses: vec!["10.1.1.1:1".to_string()],
        }],
    };
    let text = ticket.encode();
    let outcome = node.join_topic(None, Some(&text)).expect("join by ticket");
    assert_eq!(outcome.topic, vec![9u8; 32]);
    assert!(outcome.newly_joined);
    assert_eq!(outcome.peers_to_dial.len(), 1);
    assert_eq!(outcome.peers_to_dial[0].node_id, vec![8u8; 32]);
}

#[test]
fn join_generated_ticket_decodes_to_own_address() {
    let mut node = started_node();
    let outcome = node.join_topic(Some(vec![3u8; 32]), None).expect("join");
    let ticket = Ticket::decode(&outcome.ticket).expect("own ticket decodes");
    assert_eq!(ticket.topic, vec![3u8; 32]);
    assert_eq!(ticket.peers.len(), 1);
    assert_eq!(ticket.peers[0].node_id, vec![0u8; 32]);
}

#[test]
fn send_message_requires_joined_topic() {
    let mut node = started_node();
    let message = MessageType::Chat { text: "hi".to_string() };
    assert!(matches!(
        node.send_message(&vec![2u8; 32], &message),
        Err(NodeError::TopicError(_))
    ));
}

#[test]
fn sent_message_verifies_and_decodes() {
    let mut node = started_node();
    node.join_topic(Some(vec![1u8; 32]), None).expect("join");
    let message = MessageType::Chat { text: "over gossip".to_string() };
    let bytes = node.send_message(&vec![1u8; 32], &message).expect("send");
    let (from, decoded) = SignedMessage::verify_and_decode(&bytes).expect("verifies");
    assert_eq!(from.len(), 32);
    assert!(matches!(decoded, MessageType::Chat { text } if text == "over gossip"));
}

#[test]
fn dispatch_records_names_and_resolves_chat_senders() {
    let mut node = started_node();
    let peer = NodeIdentity::from_seed(vec![7u8; 32]);

    // A name announcement updates the registry.
    let info = MessageType::NodeInfo { name: Some("bob".to_string()) };
    let info_bytes = SignedMessage::sign_and_encode(&peer, &info).expect("encodable");
    match node.handle_incoming(&info_bytes) {
        Dispatch::NameUpdated { key, name } => {
            assert_eq!(&key, peer.public_key());
            assert_eq!(name, "bob");
        },
        _ => panic!("expected a name update"),
    }

    // A chat line is attributed to the registered name.
    let chat = MessageType::Chat { text: "hello".to_string() };
    let chat_bytes = SignedMessage::sign_and_encode(&peer, &chat).expect("encodable");
    match node.handle_incoming(&chat_bytes) {
        Dispatch::ChatLine { sender_name, text } => {
            assert_eq!(sender_name, "bob");
            assert_eq!(text, "hello");
        },
        _ => panic!("expected a chat line"),
    }
}

#[test]
fn dispatch_falls_back_to_short_key() {
    let mut node = started_node();
    let peer = NodeIdentity::from_seed(vec![11u8; 32]);
    let chat = MessageType::Chat { text: "anon".to_string() };
    let bytes = SignedMessage::sign_and_encode(&peer, &chat).expect("encodable");
    match node.handle_incoming(&bytes) {
        Dispatch::ChatLine { sender_name, .. } => {
            let expected: String =
                peer.public_key()[..4].iter().map(|b| format!("{:02x}", b)).collect();
            assert_eq!(sender_name, expected);
        },
        _ => panic!("expected a chat line"),
    }
}

#[test]
fn dispatch_drops_garbage() {
    let mut node = started_node();
    let garbage = vec![1u8, 2, 3, 4];
    assert!(matches!(node.handle_incoming(&garbage), Dispatch::Dropped { .. }));
}

#[test]
fn dispatch_hands_agent_requests_to_a_separate_task() {
    let mut node = started_node();
    let peer = NodeIdentity::from_seed(vec![13u8; 32]);
    let request =
        MessageType::AgentRequest { prompt: "2+2?".to_string(), agent_id: "calc".to_string() };
    let bytes = SignedMessage::sign_and_encode(&peer, &request).expect("encodable");
    match node.handle_incoming(&bytes) {
        Dispatch::AgentCall { prompt, agent_id } => {
            assert_eq!(prompt, "2+2?");
            assert_eq!(agent_id, "calc");
        },
        _ => panic!("expected an agent call"),
    }

    // The runtime performs the call and asks the node for the reply bytes.
    let reply = node.make_agent_reply("calc", Ok("4".to_string())).expect("encodable");
    let (_, decoded) = SignedMessage::verify_and_decode(&reply).expect("verifies");
    assert!(matches!(
        decoded,
        MessageType::AgentResponse { content, agent_id } if content == "4" && agent_id == "calc"
    ));

    // A failed agent call becomes an error message, not a node failure.
    let failure = node.make_agent_reply("calc", Err("timeout".to_string())).expect("encodable");
    let (_, decoded) = SignedMessage::verify_and_decode(&failure).expect("verifies");
    assert!(matches!(decoded, MessageType::Error { message } if message.contains("timeout")));
}

#[test]
fn leave_topic_removes_only_that_topic() {
    let mut node = started_node();
    node.join_topic(Some(vec![1u8; 32]), None).expect("join");
    node.join_topic(Some(vec![2u8; 32]), None).expect("join");
    node.leave_topic(&vec![1u8; 32]).expect("leave");
    let topics = node.get_active_topics();
    assert_eq!(topics.len(), 1);
    assert_eq!(topics[0], vec![2u8; 32]);
    assert!(matches!(node.leave_topic(&vec![1u8; 32]), Err(NodeError::TopicError(_))));
}

#[test]
fn stop_leaves_all_topics() {
    let mut node = started_node();
    node.join_topic(Some(vec![1u8; 32]), None).expect("join");
    node.stop().expect("stop");
    assert!(!node.is_running());
    assert_eq!(node.get_active_topics().len(), 0);
}

#[test]
fn fixed_seed_gives_fixed_identity() {
    let config = NodeConfig::new().with_secret_key(Some(vec![21u8; 32]));
    let a = P2PNode::new(config).expect("valid");
    let config = NodeConfig::new().with_secret_key(Some(vec![21u8; 32]));
    let b = P2PNode::new(config).expect("valid");
    assert_eq!(a.node_id(), b.node_id());
}

#[test]
fn send_agent_request_round_trips() {
    let mut node = started_node();
    node.join_topic(Some(vec![1u8; 32]), None).expect("join");
    let bytes = node.send_agent_request(&vec![1u8; 32], "a1", "hello agent").expect("send");
    let (_, decoded) = SignedMessage::verify_and_decode(&bytes).expect("verifies");
    assert!(matches!(
        decoded,
        MessageType::AgentRequest { prompt, agent_id } if prompt == "hello agent" && agent_id == "a1"
    ));
}

#[test]
fn anonymous_node_info_is_ignored() {
    let mut node = started_node();
    let peer = NodeIdentity::from_seed(vec![17u8; 32]);
    let info = MessageType::NodeInfo { name: None };
    let bytes = SignedMessage::sign_and_encode(&peer, &info).expect("encodable");
    assert!(matches!(node.handle_incoming(&bytes), Dispatch::Ignored));
}
