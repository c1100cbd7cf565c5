use ripple_core::client::compose_outgoing_message;

#[test]
fn outgoing_message_record() {
    let m = compose_outgoing_message(
        &"BM-from".to_string(),
        "BM-to".to_string(),
        &"Greetings".to_string(),
        &"Hello there".to_string(),
        1_700_000_000,
    );
    assert_eq!(m.hash, "");
    assert_eq!(m.sender, "BM-from");
    assert_eq!(m.recipient, "BM-to");
    assert_eq!(m.created_at, 1_700_000_000);
    assert_eq!(m.status, "Unknown");
    assert!(m.signature.is_empty());
    let text = String::from_utf8(m.data.clone()).unwrap();
    assert!(text.contains("Subject: Greetings\r\n"));
    assert!(text.contains("Content-Transfer-Encoding: quoted-printable"));
    assert!(text.contains("Hello there"));
    assert_ne!(m.data, b"Hello there".to_vec());
}
