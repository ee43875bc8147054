//! Tests of the ticket codec and the signed message envelope.

use iroh_node::envelope::SignedMessage;
use iroh_node::error::NodeError;
use iroh_node::identity::NodeIdentity;
use iroh_node::message::MessageType;
use iroh_node::ticket::{PeerAddr, Ticket};

fn sample_ticket() -> Ticket {
    Ticket {
        topic: vec![7u8; 32],
        peers: vec![
            PeerAddr {
                node_id: vec![1u8; 32],
                relay_url: Some("https://relay.example".to_string()),
                direct_addresses: vec!["192.168.1.10:4433".to_string(), "10.0.0.2:9".to_string()],
            },
            PeerAddr { node_id: vec![2u8; 32], relay_url: None, direct_addresses: vec![] },
        ],
    }
}

#[test]
fn ticket_round_trip() {
    let ticket = sample_ticket();
    let text = ticket.encode();
    let back = Ticket::decode(&text).expect("a freshly encoded ticket must decode");
    assert_eq!(back.topic, ticket.topic);
    assert_eq!(back.peers.len(), 2);
    assert_eq!(back.peers[0].node_id, ticket.peers[0].node_id);
    assert_eq!(back.peers[0].relay_url, ticket.peers[0].relay_url);
    assert_eq!(back.peers[0].direct_addresses, ticket.peers[0].direct_addresses);
    assert_eq!(back.peers[1].node_id, ticket.peers[1].node_id);
    assert_eq!(back.peers[1].relay_url, None);
}

#[test]
fn ticket_round_trip_is_case_insensitive() {
    let ticket = sample_ticket();
    let text = ticket.encode();
    let upper = text.to_uppercase();
    let back = Ticket::decode(&upper).expect("upper-cased ticket text must decode");
    assert_eq!(back.topic, ticket.topic);
}

#[test]
fn ticket_text_is_lowercase_base32_of_layout() {
    // Cross-check the trusted base-32 boundary against the outside crate.
    let ticket = sample_ticket();
    let bytes = ticket.to_bytes();
    let expected = data_encoding::BASE32_NOPAD.encode(&bytes).to_lowercase();
    assert_eq!(ticket.encode(), expected);
    assert_ne!(expected.as_bytes(), &bytes[..]);
}

#[test]
fn ticket_decode_rejects_garbage() {
    assert!(matches!(Ticket::decode("not!base32!"), Err(NodeError::DecodeError(_))));
    // Valid base32 of a truncated payload.
    let text = data_encoding::BASE32_NOPAD.encode(&[1u8, 2, 3]).to_lowercase();
    assert!(matches!(Ticket::decode(&text), Err(NodeError::DecodeError(_))));
}

#[test]
fn envelope_round_trip() {
    let identity = NodeIdentity::from_seed(vec![9u8; 32]);
    let message = MessageType::Chat { text: "hello gossip".to_string() };
    let bytes = SignedMessage::sign_and_encode(&identity, &message).expect("encodable");
    let (from, decoded) = SignedMessage::verify_and_decode(&bytes).expect("must verify");
    assert_eq!(&from, identity.public_key());
    match decoded {
        MessageType::Chat { text } => assert_eq!(text, "hello gossip"),
        other => panic!("wrong variant decoded: {:?}", matches!(other, MessageType::Chat { .. })),
    }
}

#[test]
fn envelope_public_key_matches_outside_crate() {
    // Cross-check the trusted key derivation against the outside crate.
    let seed = [9u8; 32];
    let identity = NodeIdentity::from_seed(seed.to_vec());
    let expected = ed25519_dalek::SigningKey::from_bytes(&seed).verifying_key().to_bytes();
    assert_eq!(identity.public_key().as_slice(), &expected[..]);
}

#[test]
fn envelope_rejects_tampering() {
    let identity = NodeIdentity::from_seed(vec![42u8; 32]);
    let message = MessageType::System { content: "attested".to_string() };
    let bytes = SignedMessage::sign_and_encode(&identity, &message).expect("encodable");
    // Flip one byte anywhere in the payload or signature region: verification
    // or decoding must fail and the message must not come back.
    for pos in [40usize, bytes.len() - 1, bytes.len() / 2] {
        let mut broken = bytes.clone();
        broken[pos] ^= 0x01;
        assert!(SignedMessage::verify_and_decode(&broken).is_err());
    }
}

#[test]
fn envelope_rejects_wrong_signer_claim() {
    // An envelope re-stamped with another public key must not verify.
    let signer = NodeIdentity::from_seed(vec![3u8; 32]);
    let other = NodeIdentity::from_seed(vec![4u8; 32]);
    let message = MessageType::Chat { text: "mine".to_string() };
    let mut bytes = SignedMessage::sign_and_encode(&signer, &message).expect("encodable");
    bytes[..32].copy_from_slice(other.public_key());
    assert!(SignedMessage::verify_and_decode(&bytes).is_err());
}

#[test]
fn message_payload_round_trips_every_variant() {
    let variants = vec![
        MessageType::Chat { text: "a line".to_string() },
        MessageType::NodeInfo { name: Some("alice".to_string()) },
        MessageType::NodeInfo { name: None },
        MessageType::AgentRequest { prompt: "why".to_string(), agent_id: "a1".to_string() },
        MessageType::AgentResponse { content: "because".to_string(), agent_id: "a1".to_string() },
        MessageType::Error { message: "boom".to_string() },
        MessageType::System { content: "notice".to_string() },
    ];
    for m in variants {
        let bytes = m.to_bytes().expect("encodable");
        let back = MessageType::from_bytes(&bytes).expect("decodable");
        let again = back.to_bytes().expect("encodable");
        assert_eq!(bytes, again);
    }
}

#[test]
fn message_payload_rejects_trailing_bytes() {
    let m = MessageType::Chat { text: "x".to_string() };
    let mut bytes = m.to_bytes().expect("encodable");
    bytes.push(0);
    assert!(MessageType::from_bytes(&bytes).is_err());
}

#[test]
fn message_payload_rejects_invalid_utf8() {
    // tag 0 (chat), length 1, one byte that is no valid UTF-8 start.
    let bytes = vec![0u8, 1, 0, 0, 0, 0xff];
    assert!(MessageType::from_bytes(&bytes).is_err());
}

#[test]
fn node_id_text_is_hex_of_public_key() {
    let identity = NodeIdentity::from_seed(vec![5u8; 32]);
    let text = identity.node_id_text();
    let expected: String = identity.public_key().iter().map(|b| format!("{:02x}", b)).collect();
    assert_eq!(text, expected);
}

#[test]
fn ticket_with_no_peers_round_trips() {
    let ticket = Ticket { topic: vec![0u8; 32], peers: vec![] };
    let text = ticket.encode();
    let back = Ticket::decode(&text).expect("decodes");
    assert_eq!(back.topic, vec![0u8; 32]);
    assert!(back.peers.is_empty());
}
