//! The cryptographic and encoding primitives that the node relies on, taken
//! from their crates, and the small pieces of logic around them.
use vstd::prelude::*;

use rand::distributions::DistString;
use sha2::Digest;

use crate::pow::be_value;

verus! {

/// The SHA-512 digest of a byte string (from the `sha2` crate).
pub uninterp spec fn sha512(data: Seq<u8>) -> Seq<u8>;

/// The Bitcoin Base58 alphabet: digit `d` is written as the `d`-th character.
pub open spec fn base58_alphabet() -> Seq<char> {
    seq![
        '1', '2', '3', '4', '5', '6', '7', '8', '9', 'A', 'B', 'C', 'D', 'E', 'F', 'G', 'H',
        'J', 'K', 'L', 'M', 'N', 'P', 'Q', 'R', 'S', 'T', 'U', 'V', 'W', 'X', 'Y', 'Z', 'a',
        'b', 'c', 'd', 'e', 'f', 'g', 'h', 'i', 'j', 'k', 'm', 'n', 'o', 'p', 'q', 'r', 's',
        't', 'u', 'v', 'w', 'x', 'y', 'z',
    ]
}

/// The number of zero bytes that a byte string starts with.
pub open spec fn leading_zero_bytes(s: Seq<u8>) -> nat
    decreases s.len(),
{
    if s.len() > 0 && s[0] == 0 {
        1 + leading_zero_bytes(s.drop_first())
    } else {
        0
    }
}

/// The base-58 digits of `n`, most significant first, written in the
/// alphabet; zero has no digits.
pub open spec fn base58_digits(n: nat) -> Seq<char>
    decreases n,
{
    if n == 0 {
        Seq::empty()
    } else {
        base58_digits(n / 58).push(base58_alphabet()[(n % 58) as int])
    }
}

/// The Base58 text of a byte string: one `'1'` per leading zero byte, then the
/// base-58 digits of the number that the bytes denote big-endian.
pub open spec fn base58(data: Seq<u8>) -> Seq<char> {
    Seq::new(leading_zero_bytes(data), |i: int| '1') + base58_digits(be_value(data))
}

/// Whether `ciphertext` is an ECIES encryption (by the `ecies` crate) of
/// `plaintext` to the holder of `receiver_public_key`: an ephemeral public key,
/// then the AES-256-GCM encryption of the plaintext under the key that the
/// ephemeral secret shares with the receiver's key. Many ciphertexts are
/// encryptions of the same plaintext, as the ephemeral key and nonce are random.
pub uninterp spec fn ecies_encryption_of(
    receiver_public_key: Seq<u8>,
    plaintext: Seq<u8>,
    ciphertext: Seq<u8>,
) -> bool;

/// The longest plaintext that the AES-256-GCM step of ECIES takes: 2^36 bytes.
pub open spec fn ecies_max_plaintext() -> nat {
    0x10_0000_0000
}

/// A public key is the key of some valid 32-byte secret key.
pub open spec fn is_derived_public_key(public_key: Seq<u8>) -> bool {
    exists|sk: Seq<u8>| sk.len() == 32 && #[trigger] secp256k1_public_key(sk) == Some(public_key)
}

/// The 65-byte uncompressed secp256k1 public key of a 32-byte secret key, or
/// `None` where the bytes are not a valid secret key (from `libsecp256k1`).
pub uninterp spec fn secp256k1_public_key(secret: Seq<u8>) -> Option<Seq<u8>>;

/// Calls `sha2::Sha512::digest`. Trusted: the result is the SHA-512 digest of
/// `data`, given a name above, and it is 64 bytes long (its type is an array of
/// 64 bytes).
#[verifier::external_body]
pub(crate) fn sha512_digest(data: &[u8]) -> (r: Vec<u8>)
    ensures
        r@ == sha512(data@),
        r@.len() == 64,
{
    sha2::Sha512::digest(data).to_vec()
}

/// Calls `bs58::encode(..).into_string()` (Bitcoin alphabet, no checksum).
/// Trusted: the result is the Base58 text of `data` as defined above.
#[verifier::external_body]
fn base58_encode(data: &[u8]) -> (r: String)
    ensures
        r@ == base58(data@),
{
    bs58::encode(data).into_string()
}

/// Calls `libsecp256k1::SecretKey::parse`, `PublicKey::from_secret_key` and
/// `PublicKey::serialize`. Trusted: the result is the named public key of
/// `secret`, which is `None` exactly where `parse` refuses the bytes, and a
/// serialized public key is 65 bytes long (its type is an array of 65 bytes).
#[verifier::external_body]
fn secp256k1_derive_public_key(secret: &[u8; 32]) -> (r: Option<Vec<u8>>)
    ensures
        r matches Some(p) ==> p@.len() == 65,
        match r {
            Some(p) => secp256k1_public_key(secret@) == Some(p@),
            None => secp256k1_public_key(secret@) is None,
        },
{
    match libsecp256k1::SecretKey::parse(secret) {
        Ok(sk) => Some(libsecp256k1::PublicKey::from_secret_key(&sk).serialize().to_vec()),
        Err(_) => None,
    }
}

/// Calls `ecies::encrypt`. Trusted, of every outcome and whatever the crate's
/// global configuration: a ciphertext is an ephemeral public key (65 bytes, or
/// 33 when the crate is configured for compressed keys), a 16-byte nonce, a
/// 16-byte tag and as many bytes as the plaintext; and encryption succeeds
/// whenever the receiver's key is the public key of a valid secret key (so it
/// parses) and the plaintext is within the AES-GCM limit. Left unsaid: what a
/// decryption of the result gives. `ecies::decrypt` reads the crate's global,
/// writable configuration (key compression), which any code of the process
/// can change, so its result is not a function of its arguments. The
/// ephemeral key and the nonce are random, so the ciphertext is not named as
/// a function of the arguments; it is stated to be an ECIES encryption of the
/// plaintext to the receiver's key, which holds of every outcome. Which other
/// keys the crate accepts is left unsaid.
#[verifier::external_body]
fn ecies_encrypt(receiver_public_key: &[u8], plaintext: &[u8]) -> (r: Option<Vec<u8>>)
    ensures
        r matches Some(c) ==> ecies_encryption_of(receiver_public_key@, plaintext@, c@),
        r matches Some(c) ==> (c@.len() == 65 + 32 + plaintext@.len() || c@.len() == 33 + 32
            + plaintext@.len()),
        is_derived_public_key(receiver_public_key@) && plaintext@.len() <= ecies_max_plaintext()
            ==> r is Some,
{
    ecies::encrypt(receiver_public_key, plaintext).ok()
}

/// Calls `rand::distributions::Alphanumeric.sample_string` on the thread's
/// random generator. Trusted, of every outcome: `len` characters, each an
/// ASCII letter or digit.
#[verifier::external_body]
fn random_alphanumeric(len: usize) -> (r: String)
    ensures
        r@.len() == len,
        forall|i: int| 0 <= i < r@.len() ==> is_alphanumeric(#[trigger] r@[i]),
{
    rand::distributions::Alphanumeric.sample_string(&mut rand::thread_rng(), len)
}

/// An ASCII letter or digit.
pub open spec fn is_alphanumeric(c: char) -> bool {
    ('a' <= c && c <= 'z') || ('A' <= c && c <= 'Z') || ('0' <= c && c <= '9')
}

/// The Base58 text under which the node keys a hash or a tag.
pub fn base58_string(data: &[u8]) -> (r: String)
    ensures
        r@ == base58(data@),
{
    base58_encode(data)
}

/// A fresh random identifier of 16 ASCII letters and digits, which stands in
/// for the hash of a message whose object cannot be built yet.
pub fn placeholder_message_hash() -> (r: String)
    ensures
        r@.len() == 16,
        forall|i: int| 0 <= i < r@.len() ==> is_alphanumeric(#[trigger] r@[i]),
{
    random_alphanumeric(16)
}

/// Why a payload could not be encrypted.
pub enum EncryptError {
    /// The bytes given as a secret key are not one.
    InvalidSecretKey,
    /// The encryption library refused the recipient key or the plaintext.
    EncryptionFailed,
}

/// Encrypts an already serialized payload for the holder of `public_key`
/// (a serialized secp256k1 public key), with ECIES. It succeeds whenever the
/// key is the public key of a valid secret key and the payload is within the
/// AES-GCM limit.
pub fn encrypt_payload_for_public_key(public_key: &[u8], plaintext: &[u8]) -> (r: Result<
    Vec<u8>,
    EncryptError,
>)
    ensures
        r matches Ok(c) ==> (c@.len() == 65 + 32 + plaintext@.len() || c@.len() == 33 + 32
            + plaintext@.len()),
        r matches Ok(c) ==> ecies_encryption_of(public_key@, plaintext@, c@),
        is_derived_public_key(public_key@) && plaintext@.len() <= ecies_max_plaintext() ==> r is Ok,
        r matches Err(e) ==> e is EncryptionFailed,
{
    match ecies_encrypt(public_key, plaintext) {
        Some(c) => Ok(c),
        None => Err(EncryptError::EncryptionFailed),
    }
}

/// Encrypts an already serialized payload for the owner of `secret_key`: the
/// public key is derived from the secret key, and the payload encrypted to it
/// with ECIES.
/// It fails exactly when the bytes are not a valid secret key, or when the
/// payload is beyond the AES-GCM limit.
pub fn encrypt_payload_for_secret_key(secret_key: &[u8; 32], plaintext: &[u8]) -> (r: Result<
    Vec<u8>,
    EncryptError,
>)
    ensures
        secp256k1_public_key(secret_key@) is None <==> r matches Err(EncryptError::InvalidSecretKey),
        secp256k1_public_key(secret_key@) is Some && plaintext@.len() <= ecies_max_plaintext()
            ==> r is Ok,
        r matches Ok(c) ==> c@.len() == 65 + 32 + plaintext@.len() || c@.len() == 33 + 32
            + plaintext@.len(),
        r matches Err(EncryptError::EncryptionFailed) ==> plaintext@.len() > ecies_max_plaintext(),
        r matches Ok(c) ==> ecies_encryption_of(
            secp256k1_public_key(secret_key@).unwrap(),
            plaintext@,
            c@,
        ),
{
    match secp256k1_derive_public_key(secret_key) {
        Some(pk) => {
            assert(secret_key@.len() == 32);
            assert(is_derived_public_key(pk@));
            assert(secp256k1_public_key(secret_key@) == Some(pk@));
            encrypt_payload_for_public_key(pk.as_slice(), plaintext)
        },
        None => Err(EncryptError::InvalidSecretKey),
    }
}

} // verus!
