use ripple_core::crypto::base58_string;
use ripple_core::models::{AddressInfo, Folder, MessageModel, MessageStatus, MsgEncoding};
use ripple_core::worker::{
    peer_id_of_address, AddressComponent,
    label_new_identity, messages_awaiting_pubkey, messages_query, object_expires_at,
    pow_ready_update, sent_status_update, supports_kademlia, unencrypted_msg_for,
    with_object_hash, EventAction, MessageQuery, NodeEvent, RecipientLookup, SendPlan,
    WorkerState, KADEMLIA_PROTO_NAME,
};

fn message(hash: &str, status: &str) -> MessageModel {
    MessageModel {
        hash: hash.to_string(),
        sender: "BM-from".to_string(),
        recipient: "BM-to".to_string(),
        created_at: 1_700_000_000,
        status: status.to_string(),
        signature: Vec::new(),
        data: b"Subject: hi\r\n\r\nbody".to_vec(),
    }
}

fn address(repr: &str, tag: &[u8], enc: Option<Vec<u8>>, sig: Option<Vec<u8>>) -> AddressInfo {
    AddressInfo {
        label: String::new(),
        string_repr: repr.to_string(),
        tag: tag.to_vec(),
        public_encryption_key: enc,
        public_signing_key: sig,
    }
}

#[test]
fn status_texts() {
    assert_eq!(MessageStatus::Unknown.to_string(), "Unknown");
    assert_eq!(MessageStatus::WaitingForPubkey.to_string(), "WaitingForPubkey");
    assert_eq!(MessageStatus::WaitingForPOW.to_string(), "WaitingForPOW");
    assert_eq!(MessageStatus::Sent.to_string(), "Sent");
}

#[test]
fn folder_queries() {
    match messages_query(Folder::Inbox, "BM-a".to_string()) {
        MessageQuery::ByRecipient(a) => assert_eq!(a, "BM-a"),
        _ => panic!("inbox lists received messages"),
    }
    match messages_query(Folder::Sent, "BM-a".to_string()) {
        MessageQuery::BySender(a) => assert_eq!(a, "BM-a"),
        _ => panic!("sent folder lists sent messages"),
    }
}

#[test]
fn kademlia_support_is_detected() {
    assert_eq!(KADEMLIA_PROTO_NAME, "/bitmessage/kad/1.0.0");
    assert!(supports_kademlia(&vec!["/ipfs/id/1.0.0".to_string(), "/bitmessage/kad/1.0.0".to_string()]));
    assert!(!supports_kademlia(&vec!["/ipfs/kad/1.0.0".to_string()]));
    assert!(!supports_kademlia(&vec![]));
}

#[test]
fn listener_request_waits_until_the_node_listens() {
    let mut w = WorkerState::new();
    assert!(w.on_get_listener_address(1, true));
    assert!(!w.on_get_listener_address(2, false));
    match w.on_event(NodeEvent::NewListenAddr) {
        EventAction::AnswerListenerRequests(v) => assert_eq!(v, vec![2]),
        _ => panic!("pending request should be answered"),
    }
    match w.on_event(NodeEvent::NewListenAddr) {
        EventAction::AnswerListenerRequests(v) => assert!(v.is_empty()),
        _ => panic!("nothing pending"),
    }
}

#[test]
fn events_map_to_actions() {
    let mut w = WorkerState::new();
    assert!(matches!(w.on_event(NodeEvent::ConnectionClosed { num_established: 0 }), EventAction::ForgetPeer));
    assert!(matches!(w.on_event(NodeEvent::ConnectionClosed { num_established: 2 }), EventAction::Ignore));
    assert!(matches!(w.on_event(NodeEvent::InboundRequest), EventAction::AnswerRequest));
    assert!(matches!(w.on_event(NodeEvent::InboundResponse), EventAction::HandleResponse));
    assert!(matches!(
        w.on_event(NodeEvent::IdentifyReceived { protocols: vec!["/bitmessage/kad/1.0.0".to_string()] }),
        EventAction::AddPeerToDht
    ));
    assert!(matches!(
        w.on_event(NodeEvent::IdentifyReceived { protocols: vec!["/other".to_string()] }),
        EventAction::Ignore
    ));
    assert!(matches!(w.on_event(NodeEvent::IdentifyOther), EventAction::Ignore));
    assert!(matches!(w.on_event(NodeEvent::MdnsDiscovered), EventAction::AddDiscoveredPeers));
    assert!(matches!(w.on_event(NodeEvent::GossipMessage { on_common_topic: true }), EventAction::HandleGossip));
    assert!(matches!(w.on_event(NodeEvent::GossipMessage { on_common_topic: false }), EventAction::Ignore));
    assert!(matches!(w.on_event(NodeEvent::Other), EventAction::Ignore));
}

#[test]
fn pubkey_tracking_is_a_set() {
    let mut w = WorkerState::new();
    let t = "tag1".to_string();
    assert!(!w.is_tracked(&t));
    w.track_pubkey(t.clone());
    w.track_pubkey(t.clone());
    assert!(w.is_tracked(&t));
    assert!(w.on_pubkey_notification(&t));
    assert!(!w.is_tracked(&t));
    assert!(!w.on_pubkey_notification(&t));
}

#[test]
fn send_to_known_recipient_waits_for_pow() {
    let mut w = WorkerState::new();
    let rec = address("BM-to", b"t", Some(vec![4; 65]), None);
    match w.plan_send_message(message("", "Unknown"), RecipientLookup::Known(rec), "PLACEHOLDER".to_string()) {
        SendPlan::BuildObject { message, recipient } => {
            assert_eq!(message.status, "WaitingForPOW");
            assert_eq!(message.hash, "");
            assert_eq!(recipient.string_repr, "BM-to");
        }
        _ => panic!("expected object building"),
    }
}

#[test]
fn send_to_new_recipient_requests_pubkey() {
    let mut w = WorkerState::new();
    let rec = address("BM-to", &[1, 2, 3], None, None);
    match w.plan_send_message(message("", "Unknown"), RecipientLookup::Unknown(Ok(rec)), "PLACEHOLDER00000".to_string()) {
        SendPlan::RequestPubkey { message, recipient } => {
            assert_eq!(message.status, "WaitingForPubkey");
            assert_eq!(message.hash, "PLACEHOLDER00000");
            assert_eq!(recipient.tag, vec![1, 2, 3]);
        }
        _ => panic!("expected a pubkey request"),
    }
    assert!(w.is_tracked(&base58_string(&[1, 2, 3])));
}

#[test]
fn send_to_invalid_address_fails() {
    let mut w = WorkerState::new();
    match w.plan_send_message(message("", "Unknown"), RecipientLookup::Unknown(Err("bad checksum".to_string())), "P".to_string()) {
        SendPlan::Reject { error } => assert_eq!(error, "Recipient address is invalid: bad checksum"),
        _ => panic!("expected a rejection"),
    }
}

#[test]
fn startup_resumes_or_tracks() {
    let mut w = WorkerState::new();
    assert!(w.resume_waiting_message(&address("BM-a", b"a", Some(vec![4; 65]), None)));
    assert!(!w.is_tracked(&base58_string(b"a")));
    assert!(!w.resume_waiting_message(&address("BM-b", b"b", None, None)));
    assert!(w.is_tracked(&base58_string(b"b")));
}

#[test]
fn nonce_calculated_marks_message_sent() {
    match sent_status_update(true, &[1, 2]) {
        Some((h, s)) => {
            assert_eq!(h, base58_string(&[1, 2]));
            assert_eq!(s, MessageStatus::Sent);
        }
        None => panic!("message objects update their message"),
    }
    assert!(sent_status_update(false, &[1, 2]).is_none());
}

#[test]
fn object_hash_becomes_message_hash() {
    let m = with_object_hash(message("x", "WaitingForPOW"), &[9, 9]);
    assert_eq!(m.hash, base58_string(&[9, 9]));
    assert_eq!(m.status, "WaitingForPOW");
    let u = pow_ready_update(&message("old", "WaitingForPubkey"), &[5]);
    assert_eq!(u.old_hash, "old");
    assert_eq!(u.new_hash, base58_string(&[5]));
    assert_eq!(u.status, MessageStatus::WaitingForPOW);
}

#[test]
fn only_messages_awaiting_pubkey_are_resumed() {
    let msgs = vec![
        message("a", "WaitingForPubkey"),
        message("b", "Sent"),
        message("c", "WaitingForPubkey"),
        message("d", "WaitingForPOW"),
    ];
    let r = messages_awaiting_pubkey(&msgs);
    let hashes: Vec<String> = r.iter().map(|m| m.hash.clone()).collect();
    assert_eq!(hashes, vec!["a".to_string(), "c".to_string()]);
}

#[test]
fn message_plaintext_carries_keys_and_data() {
    let id = address("BM-from", b"i", None, Some(vec![2; 65]));
    let rec = address("BM-to", b"r", Some(vec![3; 65]), None);
    let m = message("h", "WaitingForPOW");
    let u = unencrypted_msg_for(&id, &rec, &m);
    assert_eq!(u.behavior_bitfield, 0);
    assert_eq!(u.sender_ripe, "BM-from");
    assert_eq!(u.destination_ripe, "BM-to");
    assert_eq!(u.encoding, MsgEncoding::Simple);
    assert_eq!(u.message, m.data);
    assert_eq!(u.public_encryption_key, vec![3; 65]);
    assert_eq!(u.public_signing_key, vec![2; 65]);
}

#[test]
fn objects_live_seven_days() {
    assert_eq!(object_expires_at(1_000), 1_000 + 7 * 24 * 3600);
}

#[test]
fn new_identity_takes_label() {
    let a = label_new_identity(address("BM-x", b"x", None, None), "work".to_string());
    assert_eq!(a.label, "work");
    assert_eq!(a.string_repr, "BM-x");
}

#[test]
fn message_payload_opens_for_recipient() {
    let sk = [5u8; 32];
    let pk = libsecp256k1::PublicKey::from_secret_key(&libsecp256k1::SecretKey::parse(&sk).unwrap());
    let rec = address("BM-to", b"r", Some(pk.serialize().to_vec()), None);
    let c = ripple_core::worker::encrypt_msg_payload(&rec, b"record bytes").ok().unwrap();
    assert_eq!(ecies::decrypt(&sk, &c).unwrap(), b"record bytes".to_vec());
}

#[test]
fn peer_id_is_read_from_last_component() {
    let with = vec![AddressComponent::Other, AddressComponent::P2p(vec![1, 2, 3])];
    assert_eq!(peer_id_of_address(&with).ok().unwrap(), vec![1, 2, 3]);
    let last_other = vec![AddressComponent::P2p(vec![1]), AddressComponent::Other];
    assert!(peer_id_of_address(&last_other).is_err());
    assert!(peer_id_of_address(&vec![]).is_err());
}

#[test]
fn all_pending_listener_requests_are_answered() {
    let mut w = WorkerState::new();
    assert!(!w.on_get_listener_address(7, false));
    assert!(!w.on_get_listener_address(8, false));
    assert!(!w.on_get_listener_address(9, false));
    match w.on_event(NodeEvent::NewListenAddr) {
        EventAction::AnswerListenerRequests(v) => assert_eq!(v, vec![7, 8, 9]),
        _ => panic!("pending requests should be answered"),
    }
}
