//! The records that the node stores and exchanges, as plain values.
use vstd::prelude::*;

verus! {

/// The folder of a mailbox that a message listing reads from.
#[derive(PartialEq, Eq, Structural, Clone, Copy, Debug)]
pub enum Folder {
    Inbox,
    Sent,
}

/// Where an outgoing message stands.
#[derive(PartialEq, Eq, Structural, Clone, Copy, Debug)]
pub enum MessageStatus {
    /// Just composed, not yet handed to the node.
    Unknown,
    /// The recipient's public key is not known yet.
    WaitingForPubkey,
    /// The message object waits for its proof of work.
    WaitingForPOW,
    /// The proof of work is done and the object was announced.
    Sent,
}

/// The text under which a status is stored.
pub open spec fn status_text(s: MessageStatus) -> Seq<char> {
    match s {
        MessageStatus::Unknown => "Unknown"@,
        MessageStatus::WaitingForPubkey => "WaitingForPubkey"@,
        MessageStatus::WaitingForPOW => "WaitingForPOW"@,
        MessageStatus::Sent => "Sent"@,
    }
}

impl MessageStatus {
    /// The text under which this status is stored.
    pub fn to_string(&self) -> (r: String)
        ensures
            r@ == status_text(*self),
    {
        match self {
            MessageStatus::Unknown => String::from_str("Unknown"),
            MessageStatus::WaitingForPubkey => String::from_str("WaitingForPubkey"),
            MessageStatus::WaitingForPOW => String::from_str("WaitingForPOW"),
            MessageStatus::Sent => String::from_str("Sent"),
        }
    }
}

/// Distinct statuses are stored under distinct texts.
pub proof fn lemma_status_text_injective(a: MessageStatus, b: MessageStatus)
    ensures
        status_text(a) == status_text(b) ==> a == b,
{
    reveal_strlit("Unknown");
    reveal_strlit("WaitingForPubkey");
    reveal_strlit("WaitingForPOW");
    reveal_strlit("Sent");
    if status_text(a) == status_text(b) && a != b {
        let x = status_text(a);
        let y = status_text(b);
        if x.len() == y.len() {
            assert(x[0] != y[0] || x[7] != y[7] || x[13] != y[13]);
        }
    }
}

/// A stored message.
pub struct MessageModel {
    /// Base58 of the message object's hash, or a placeholder until the object exists.
    pub hash: String,
    /// Address of the sending identity.
    pub sender: String,
    /// Address of the recipient.
    pub recipient: String,
    /// Creation time, in seconds since the Unix epoch.
    pub created_at: i64,
    /// The stored text of a [`MessageStatus`].
    pub status: String,
    pub signature: Vec<u8>,
    /// The message itself, as MIME text.
    pub data: Vec<u8>,
}

/// The mathematical value of a [`MessageModel`].
pub struct MessageView {
    pub hash: Seq<char>,
    pub sender: Seq<char>,
    pub recipient: Seq<char>,
    pub created_at: i64,
    pub status: Seq<char>,
    pub signature: Seq<u8>,
    pub data: Seq<u8>,
}

impl View for MessageModel {
    type V = MessageView;

    open spec fn view(&self) -> MessageView {
        MessageView {
            hash: self.hash@,
            sender: self.sender@,
            recipient: self.recipient@,
            created_at: self.created_at,
            status: self.status@,
            signature: self.signature@,
            data: self.data@,
        }
    }
}

impl MessageModel {
    /// A copy of the message.
    pub fn duplicate(&self) -> (r: MessageModel)
        ensures
            r@ == self@,
    {
        MessageModel {
            hash: self.hash.clone(),
            sender: self.sender.clone(),
            recipient: self.recipient.clone(),
            created_at: self.created_at,
            status: self.status.clone(),
            signature: self.signature.clone(),
            data: self.data.clone(),
        }
    }
}

/// What the node reads of an address: its own identities and the peers it
/// writes to.
pub struct AddressInfo {
    pub label: String,
    /// The printable address.
    pub string_repr: String,
    /// The tag under which the address's public key is announced.
    pub tag: Vec<u8>,
    /// Serialized public encryption key, once known.
    pub public_encryption_key: Option<Vec<u8>>,
    /// Serialized public signing key, once known.
    pub public_signing_key: Option<Vec<u8>>,
}

/// The mathematical value of an [`AddressInfo`].
pub struct AddressView {
    pub label: Seq<char>,
    pub string_repr: Seq<char>,
    pub tag: Seq<u8>,
    pub public_encryption_key: Option<Seq<u8>>,
    pub public_signing_key: Option<Seq<u8>>,
}

/// The view of an optional byte vector.
pub open spec fn opt_bytes(o: Option<Vec<u8>>) -> Option<Seq<u8>> {
    match o {
        Some(v) => Some(v@),
        None => None,
    }
}

impl View for AddressInfo {
    type V = AddressView;

    open spec fn view(&self) -> AddressView {
        AddressView {
            label: self.label@,
            string_repr: self.string_repr@,
            tag: self.tag@,
            public_encryption_key: opt_bytes(self.public_encryption_key),
            public_signing_key: opt_bytes(self.public_signing_key),
        }
    }
}

/// How the text of a message is encoded.
#[derive(PartialEq, Eq, Structural, Clone, Copy, Debug)]
pub enum MsgEncoding {
    Simple,
}

/// The plaintext of a message object, before it is serialized and encrypted.
pub struct UnencryptedMsg {
    pub behavior_bitfield: u32,
    pub sender_ripe: String,
    pub destination_ripe: String,
    pub encoding: MsgEncoding,
    pub message: Vec<u8>,
    pub public_encryption_key: Vec<u8>,
    pub public_signing_key: Vec<u8>,
}

/// The mathematical value of an [`UnencryptedMsg`].
pub struct UnencryptedMsgView {
    pub behavior_bitfield: u32,
    pub sender_ripe: Seq<char>,
    pub destination_ripe: Seq<char>,
    pub encoding: MsgEncoding,
    pub message: Seq<u8>,
    pub public_encryption_key: Seq<u8>,
    pub public_signing_key: Seq<u8>,
}

impl View for UnencryptedMsg {
    type V = UnencryptedMsgView;

    open spec fn view(&self) -> UnencryptedMsgView {
        UnencryptedMsgView {
            behavior_bitfield: self.behavior_bitfield,
            sender_ripe: self.sender_ripe@,
            destination_ripe: self.destination_ripe@,
            encoding: self.encoding,
            message: self.message@,
            public_encryption_key: self.public_encryption_key@,
            public_signing_key: self.public_signing_key@,
        }
    }
}

} // verus!
