use ripple_core::crypto::{
    base58_string, encrypt_payload_for_public_key, encrypt_payload_for_secret_key,
    placeholder_message_hash, EncryptError,
};

fn keypair() -> ([u8; 32], [u8; 65]) {
    let sk = [7u8; 32];
    let secret = libsecp256k1::SecretKey::parse(&sk).unwrap();
    let public = libsecp256k1::PublicKey::from_secret_key(&secret);
    (sk, public.serialize())
}

#[test]
fn base58_of_known_bytes() {
    assert_eq!(base58_string(b"hello world"), "StV1DL6CwTryKyV");
    assert_eq!(base58_string(&[0, 0, 1]), "112");
}

#[test]
fn placeholder_hash_is_sixteen_alphanumerics() {
    let h = placeholder_message_hash();
    assert_eq!(h.chars().count(), 16);
    assert!(h.chars().all(|c| c.is_ascii_alphanumeric()));
}

#[test]
fn payload_encrypted_to_public_key_decrypts() {
    let (sk, pk) = keypair();
    let msg = b"a payload".to_vec();
    let c = encrypt_payload_for_public_key(&pk, &msg).ok().unwrap();
    assert_eq!(c.len(), 65 + 32 + msg.len());
    assert_ne!(&c[c.len() - msg.len()..], msg.as_slice());
    assert_eq!(ecies::decrypt(&sk, &c).unwrap(), msg);
}

#[test]
fn payload_encrypted_for_secret_key_owner_decrypts() {
    let (sk, _) = keypair();
    let msg = b"for myself".to_vec();
    let c = encrypt_payload_for_secret_key(&sk, &msg).ok().unwrap();
    assert_eq!(c.len(), 65 + 32 + msg.len());
    assert_eq!(ecies::decrypt(&sk, &c).unwrap(), msg);
}

#[test]
fn zero_secret_key_is_refused() {
    match encrypt_payload_for_secret_key(&[0u8; 32], b"x") {
        Err(EncryptError::InvalidSecretKey) => {}
        _ => panic!("expected an invalid secret key"),
    }
}

#[test]
fn invalid_public_key_fails() {
    match encrypt_payload_for_public_key(&[0u8; 33], b"x") {
        Err(EncryptError::EncryptionFailed) => {}
        _ => panic!("expected a refused key"),
    }
}

#[test]
fn base58_of_zeros_and_empty() {
    assert_eq!(base58_string(&[]), "");
    assert_eq!(base58_string(&[0, 0]), "11");
    assert_eq!(base58_string(&[57]), "z");
    assert_eq!(base58_string(&[58]), "21");
}

#[test]
fn payload_for_public_key_does_not_open_under_another_key() {
    let (_, pk) = keypair();
    let other = [9u8; 32];
    let c = encrypt_payload_for_public_key(&pk, b"secret").ok().unwrap();
    assert!(ecies::decrypt(&other, &c).is_err());
}
