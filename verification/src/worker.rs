//! The decisions of the node worker: what it does with each network event and
//! each command, given what its stores and its swarm answered. The worker's
//! loop performs the actions; the state it keeps between them lives here.
use vstd::prelude::*;

use crate::crypto::{
    base58, base58_string, ecies_max_plaintext, encrypt_payload_for_public_key,
    ecies_encryption_of, is_derived_public_key, EncryptError,
};
use crate::models::{
    status_text, AddressInfo, AddressView, Folder, MessageModel, MessageStatus, MessageView,
    MsgEncoding, UnencryptedMsg, UnencryptedMsgView,
};

verus! {

/// The protocol name under which the node speaks Kademlia.
pub const KADEMLIA_PROTO_NAME: &'static str = "/bitmessage/kad/1.0.0";

/// The protocol name the node announces through identify.
pub const IDENTIFY_PROTO_NAME: &'static str = "/bitmessage/id/1.0.0";

/// The gossip topic that all nodes share.
pub const COMMON_PUBSUB_TOPIC: &'static str = "common";

/// How long a message object stays valid: seven days, in seconds.
pub const OBJECT_LIFETIME_SECS: i64 = 604800i64;

/// The state that the worker keeps between events.
pub struct WorkerState {
    /// Listener-address requests that came before the node listened anywhere,
    /// by request number, oldest first.
    pending_listener_requests: Vec<u64>,
    /// Base58 tags of the recipients whose public keys are awaited.
    tracked_pubkeys: Vec<String>,
}

/// The mathematical value of a [`WorkerState`].
pub struct WorkerView {
    pub pending_listener_requests: Seq<u64>,
    pub tracked_pubkeys: Set<Seq<char>>,
}

/// The views of a sequence of strings.
pub open spec fn string_views(v: Seq<String>) -> Seq<Seq<char>> {
    v.map_values(|s: String| s@)
}

impl View for WorkerState {
    type V = WorkerView;

    closed spec fn view(&self) -> WorkerView {
        WorkerView {
            pending_listener_requests: self.pending_listener_requests@,
            tracked_pubkeys: string_views(self.tracked_pubkeys@).to_set(),
        }
    }
}

/// A network event, reduced to what the worker decides on.
pub enum NodeEvent {
    /// The swarm listens on a new address.
    NewListenAddr,
    /// A connection closed; `num_established` connections to that peer remain.
    ConnectionClosed { num_established: u32 },
    /// A peer sent a request.
    InboundRequest,
    /// A peer answered a request.
    InboundResponse,
    /// A peer identified itself, supporting these protocols.
    IdentifyReceived { protocols: Vec<String> },
    /// Another identify event.
    IdentifyOther,
    /// Local discovery found peers.
    MdnsDiscovered,
    /// A gossip message arrived; `on_common_topic` tells whether its topic is
    /// the common one.
    GossipMessage { on_common_topic: bool },
    /// Any other event.
    Other,
}

/// What the worker does about an event.
pub enum EventAction {
    /// Send the new listen address to these pending requests.
    AnswerListenerRequests(Vec<u64>),
    /// Drop the peer from gossip and from the DHT.
    ForgetPeer,
    /// Handle the request and send the reply back.
    AnswerRequest,
    /// Handle the response and, if that gives another request, send it.
    HandleResponse,
    /// Add the peer's listen addresses to the DHT and make it an explicit gossip peer.
    AddPeerToDht,
    /// Add each discovered peer to the DHT and to gossip, and ask it for its inventory.
    AddDiscoveredPeers,
    /// Decode and handle the gossip message, and send the request it gives, if any.
    HandleGossip,
    /// Nothing to do.
    Ignore,
}

/// The store query that lists a folder of an address.
pub enum MessageQuery {
    /// Messages whose recipient is the address.
    ByRecipient(String),
    /// Messages whose sender is the address.
    BySender(String),
}

/// What the store knows of the recipient of a message being sent.
pub enum RecipientLookup {
    /// The store holds the recipient.
    Known(AddressInfo),
    /// The store does not hold it; this is what parsing its address gave.
    Unknown(Result<AddressInfo, String>),
}

/// What the worker does with a message being sent.
pub enum SendPlan {
    /// The recipient is known: build the message object (its hash becomes the
    /// message's hash), save the message and queue the object for proof of work.
    BuildObject { message: MessageModel, recipient: AddressInfo },
    /// The recipient is new: store its address, save the message under a
    /// placeholder hash, and ask the network for its public key.
    RequestPubkey { message: MessageModel, recipient: AddressInfo },
    /// The recipient's address is invalid; the request fails with this text.
    Reject { error: String },
}

/// A change to a stored message: rename its hash and set its status.
pub struct MessageUpdate {
    pub old_hash: String,
    pub new_hash: String,
    pub status: MessageStatus,
}

/// The error text for a recipient address that does not parse.
pub open spec fn invalid_recipient_text(reason: Seq<char>) -> Seq<char> {
    "Recipient address is invalid: "@ + reason
}

/// Whether a peer's protocols include the node's Kademlia protocol.
pub open spec fn speaks_kademlia(protocols: Seq<Seq<char>>) -> bool {
    exists|i: int| 0 <= i < protocols.len() && protocols[i] == KADEMLIA_PROTO_NAME@
}

/// A peer speaks the node's Kademlia protocol exactly when some entry of its
/// protocol list, at any position, is `/bitmessage/kad/1.0.0`.
pub proof fn lemma_speaks_kademlia_any_position(protocols: Seq<Seq<char>>, i: int)
    ensures
        0 <= i < protocols.len() && protocols[i] == "/bitmessage/kad/1.0.0"@ ==> speaks_kademlia(
            protocols,
        ),
        speaks_kademlia(protocols) <==> exists|j: int|
            0 <= j < protocols.len() && #[trigger] protocols[j] == "/bitmessage/kad/1.0.0"@,
{
}

/// The messages of `msgs` whose status is `WaitingForPubkey`, in order.
pub open spec fn awaiting_pubkey(msgs: Seq<MessageView>) -> Seq<MessageView> {
    msgs.filter(|m: MessageView| m.status == status_text(MessageStatus::WaitingForPubkey))
}

/// Whether a peer's protocols include the node's Kademlia protocol.
pub fn supports_kademlia(protocols: &Vec<String>) -> (r: bool)
    ensures
        r == speaks_kademlia(string_views(protocols@)),
        r <==> exists|i: int| 0 <= i < protocols@.len() && #[trigger] protocols@[i]@ == "/bitmessage/kad/1.0.0"@,
{
    let name = String::from_str(KADEMLIA_PROTO_NAME);
    let mut i: usize = 0;
    while i < protocols.len()
        invariant
            0 <= i <= protocols@.len(),
            name@ == KADEMLIA_PROTO_NAME@,
            forall|j: int| 0 <= j < i ==> protocols@[j]@ != KADEMLIA_PROTO_NAME@,
        decreases protocols@.len() - i,
    {
        if protocols[i] == name {
            assert(string_views(protocols@)[i as int] == KADEMLIA_PROTO_NAME@);
            return true;
        }
        i = i + 1;
    }
    assert forall|j: int| 0 <= j < protocols@.len() implies string_views(protocols@)[j]
        != KADEMLIA_PROTO_NAME@ by {
        assert(string_views(protocols@)[j] == protocols@[j]@);
    }
    false
}

/// The query that lists `folder` of `address`: the inbox holds what the address
/// received, the sent folder what it sent.
pub fn messages_query(folder: Folder, address: String) -> (r: MessageQuery)
    ensures
        folder is Inbox ==> (r matches MessageQuery::ByRecipient(a) && a@ == address@),
        folder is Sent ==> (r matches MessageQuery::BySender(a) && a@ == address@),
{
    match folder {
        Folder::Inbox => MessageQuery::ByRecipient(address),
        Folder::Sent => MessageQuery::BySender(address),
    }
}

/// A freshly generated identity, under the label the user gave.
pub fn label_new_identity(address: AddressInfo, label: String) -> (r: AddressInfo)
    ensures
        r@ == (AddressView { label: label@, ..address@ }),
{
    AddressInfo { label, ..address }
}

/// The status change after the proof of work of an object is done: a message
/// object's message (stored under the Base58 of the object's hash) becomes
/// `Sent`; other objects change no message.
pub fn sent_status_update(is_message_object: bool, object_hash: &[u8]) -> (r: Option<
    (String, MessageStatus),
>)
    ensures
        is_message_object ==> (r matches Some((h, s)) && h@ == base58(object_hash@) && s
            == MessageStatus::Sent),
        !is_message_object ==> r is None,
{
    if is_message_object {
        Some((base58_string(object_hash), MessageStatus::Sent))
    } else {
        None
    }
}

/// The message, now stored under the Base58 of its object's hash.
pub fn with_object_hash(message: MessageModel, object_hash: &[u8]) -> (r: MessageModel)
    ensures
        r@ == (MessageView { hash: base58(object_hash@), ..message@ }),
{
    MessageModel { hash: base58_string(object_hash), ..message }
}

/// The update for a message whose recipient's key has arrived and whose
/// object was rebuilt: it moves to the Base58 of the object's hash and waits
/// for proof of work.
pub fn pow_ready_update(message: &MessageModel, object_hash: &[u8]) -> (r: MessageUpdate)
    ensures
        r.old_hash@ == message.hash@,
        r.new_hash@ == base58(object_hash@),
        r.status == MessageStatus::WaitingForPOW,
{
    MessageUpdate {
        old_hash: message.hash.clone(),
        new_hash: base58_string(object_hash),
        status: MessageStatus::WaitingForPOW,
    }
}

/// The messages awaiting a public key are picked by their status alone, in
/// input order: none of an empty list, and appending a message to the input
/// appends it to the result exactly when its status text is
/// `"WaitingForPubkey"`, whatever its hash, sender, recipient, data or time.
pub proof fn lemma_awaiting_pubkey_by_status(msgs: Seq<MessageView>, m: MessageView)
    ensures
        awaiting_pubkey(Seq::<MessageView>::empty()) == Seq::<MessageView>::empty(),
        m.status == "WaitingForPubkey"@ ==> awaiting_pubkey(msgs.push(m)) == awaiting_pubkey(
            msgs,
        ).push(m),
        m.status != "WaitingForPubkey"@ ==> awaiting_pubkey(msgs.push(m)) == awaiting_pubkey(
            msgs,
        ),
{
    reveal(Seq::filter);
    assert(msgs.push(m).drop_last() =~= msgs);
    assert(awaiting_pubkey(Seq::<MessageView>::empty()) =~= Seq::<MessageView>::empty());
}

/// The views of a sequence of messages.
pub open spec fn message_views(v: Seq<MessageModel>) -> Seq<MessageView> {
    v.map_values(|m: MessageModel| m@)
}

/// The messages of `msgs` that wait for their recipient's public key.
pub fn messages_awaiting_pubkey(msgs: &Vec<MessageModel>) -> (r: Vec<MessageModel>)
    ensures
        message_views(r@) == awaiting_pubkey(message_views(msgs@)),
        forall|i: int| 0 <= i < r@.len() ==> #[trigger] r@[i].status@ == "WaitingForPubkey"@,
        forall|i: int|
            0 <= i < msgs@.len() && #[trigger] msgs@[i].status@ == "WaitingForPubkey"@
                ==> message_views(r@).contains(msgs@[i]@),
{
    let waiting = MessageStatus::WaitingForPubkey.to_string();
    let mut out: Vec<MessageModel> = Vec::new();
    let ghost all = message_views(msgs@);
    let mut i: usize = 0;
    assert(all.take(0) =~= Seq::<MessageView>::empty());
    assert(message_views(out@) =~= awaiting_pubkey(all.take(0))) by {
        reveal(Seq::filter);
    }
    while i < msgs.len()
        invariant
            0 <= i <= msgs@.len(),
            all == message_views(msgs@),
            waiting@ == status_text(MessageStatus::WaitingForPubkey),
            message_views(out@) == awaiting_pubkey(all.take(i as int)),
        decreases msgs@.len() - i,
    {
        let ghost before = message_views(out@);
        assert(all.take(i as int + 1).drop_last() =~= all.take(i as int));
        assert(all.take(i as int + 1).last() == msgs@[i as int]@);
        proof {
            reveal(Seq::filter);
        }
        if msgs[i].status == waiting {
            let m = msgs[i].duplicate();
            out.push(m);
            assert(message_views(out@) =~= before.push(m@));
        } else {
            assert(message_views(out@) =~= before);
        }
        i = i + 1;
    }
    assert(all.take(msgs@.len() as int) =~= all);
    proof {
        broadcast use vstd::seq_lib::group_filter_ensures;

        assert forall|i: int| 0 <= i < out@.len() implies #[trigger] out@[i].status@
            == "WaitingForPubkey"@ by {
            assert(message_views(out@)[i] == out@[i]@);
        }
        assert forall|i: int|
            0 <= i < msgs@.len() && #[trigger] msgs@[i].status@ == "WaitingForPubkey"@ implies message_views(
            out@,
        ).contains(msgs@[i]@) by {
            assert(all[i] == msgs@[i]@);
        }
    }
    out
}

/// The plaintext of the object that carries `msg` from `identity` to
/// `recipient`: no behavior flags, the sender and recipient addresses, the
/// message data in simple encoding, the recipient's encryption key and the
/// sender's signing key.
pub fn unencrypted_msg_for(identity: &AddressInfo, recipient: &AddressInfo, msg: &MessageModel) -> (r:
    UnencryptedMsg)
    requires
        recipient.public_encryption_key is Some,
        identity.public_signing_key is Some,
    ensures
        r@ == (UnencryptedMsgView {
            behavior_bitfield: 0,
            sender_ripe: msg.sender@,
            destination_ripe: msg.recipient@,
            encoding: MsgEncoding::Simple,
            message: msg.data@,
            public_encryption_key: recipient@.public_encryption_key.unwrap(),
            public_signing_key: identity@.public_signing_key.unwrap(),
        }),
{
    let enc = match &recipient.public_encryption_key {
        Some(k) => k.clone(),
        None => Vec::new(),
    };
    let sig = match &identity.public_signing_key {
        Some(k) => k.clone(),
        None => Vec::new(),
    };
    UnencryptedMsg {
        behavior_bitfield: 0,
        sender_ripe: msg.sender.clone(),
        destination_ripe: msg.recipient.clone(),
        encoding: MsgEncoding::Simple,
        message: msg.data.clone(),
        public_encryption_key: enc,
        public_signing_key: sig,
    }
}

/// The encrypted payload of a message object: the serialized plaintext
/// record encrypted, with ECIES, to the recipient's encryption key. It succeeds
/// whenever that key is the public key of a valid secret key and the record is
/// within the AES-GCM limit.
pub fn encrypt_msg_payload(recipient: &AddressInfo, serialized_plaintext: &[u8]) -> (r: Result<
    Vec<u8>,
    EncryptError,
>)
    requires
        recipient.public_encryption_key is Some,
    ensures
        r matches Ok(c) ==> (c@.len() == 65 + 32 + serialized_plaintext@.len() || c@.len() == 33
            + 32 + serialized_plaintext@.len()),
        r matches Ok(c) ==> ecies_encryption_of(
            recipient@.public_encryption_key.unwrap(),
            serialized_plaintext@,
            c@,
        ),
        is_derived_public_key(recipient@.public_encryption_key.unwrap())
            && serialized_plaintext@.len() <= ecies_max_plaintext() ==> r is Ok,
        r matches Err(e) ==> e is EncryptionFailed,
{
    match &recipient.public_encryption_key {
        Some(k) => encrypt_payload_for_public_key(k.as_slice(), serialized_plaintext),
        None => Err(EncryptError::EncryptionFailed),
    }
}

/// A component of a network address, as far as the worker reads it.
pub enum AddressComponent {
    /// A `/p2p/` component, holding the bytes of a peer id.
    P2p(Vec<u8>),
    /// Any other component.
    Other,
}

/// Why no peer id could be read from an address.
pub enum PeerIdError {
    /// The address does not end with a `/p2p/` component.
    NoPeerId,
}

/// The peer id of an address: that of its last component, which must be a
/// `/p2p/` one.
pub fn peer_id_of_address(components: &Vec<AddressComponent>) -> (r: Result<Vec<u8>, PeerIdError>)
    ensures
        components@.len() > 0 && components@.last() is P2p ==> (r matches Ok(p)
            && components@.last() matches AddressComponent::P2p(q) && p@ == q@),
        !(components@.len() > 0 && components@.last() is P2p) ==> r is Err,
{
    let n = components.len();
    if n == 0 {
        return Err(PeerIdError::NoPeerId);
    }
    match &components[n - 1] {
        AddressComponent::P2p(p) => Ok(p.clone()),
        AddressComponent::Other => Err(PeerIdError::NoPeerId),
    }
}

/// When an object created at `now` (seconds since the epoch) expires: seven
/// days later.
pub fn object_expires_at(now: i64) -> (r: i64)
    requires
        now + OBJECT_LIFETIME_SECS <= i64::MAX,
    ensures
        r == now + 7 * 24 * 60 * 60,
{
    now + OBJECT_LIFETIME_SECS
}

/// Where the rules of the worker never let two strings of `v` be equal.
pub open spec fn no_duplicates(v: Seq<Seq<char>>) -> bool {
    forall|i: int, j: int| 0 <= i < v.len() && 0 <= j < v.len() && i != j ==> v[i] != v[j]
}

/// A key that the worker starts awaiting is acted on exactly once. Take a
/// worker `w0`; `w1` is it after it starts awaiting `tag` (as `track_pubkey`,
/// `plan_send_message` for a new recipient or `resume_waiting_message` leave
/// it), `w2` after the first notification for `tag` and `w3` after a second
/// one (as `on_pubkey_notification` leaves it). The first notification finds
/// the key awaited, the second finds nothing and changes nothing, and every
/// other awaited tag is still awaited.
pub proof fn lemma_pubkey_awaited_once(
    w0: WorkerState,
    w1: WorkerState,
    w2: WorkerState,
    w3: WorkerState,
    tag: Seq<char>,
    other: Seq<char>,
)
    requires
        w1@.tracked_pubkeys == w0@.tracked_pubkeys.insert(tag),
        w2@.tracked_pubkeys == w1@.tracked_pubkeys.remove(tag),
        w3@.tracked_pubkeys == w2@.tracked_pubkeys.remove(tag),
        other != tag,
    ensures
        w1@.tracked_pubkeys.contains(tag),
        !w2@.tracked_pubkeys.contains(tag),
        w3@.tracked_pubkeys == w2@.tracked_pubkeys,
        w0@.tracked_pubkeys.contains(other) ==> w2@.tracked_pubkeys.contains(other),
{
    assert(w2@.tracked_pubkeys.remove(tag) =~= w2@.tracked_pubkeys);
}

impl WorkerState {
    /// The state's own invariant: no tag is tracked twice.
    pub closed spec fn wf(&self) -> bool {
        no_duplicates(string_views(self.tracked_pubkeys@))
    }

    /// A worker that has seen nothing yet.
    pub fn new() -> (r: WorkerState)
        ensures
            r.wf(),
            r@.pending_listener_requests == Seq::<u64>::empty(),
            r@.tracked_pubkeys == Set::<Seq<char>>::empty(),
    {
        let r = WorkerState { pending_listener_requests: Vec::new(), tracked_pubkeys: Vec::new() };
        assert(string_views(r.tracked_pubkeys@).to_set() =~= Set::<Seq<char>>::empty());
        r
    }

    fn find_tracked(&self, tag: &String) -> (r: Option<usize>)
        ensures
            match r {
                Some(i) => i < self.tracked_pubkeys@.len() && self.tracked_pubkeys@[i as int]@
                    == tag@,
                None => !string_views(self.tracked_pubkeys@).contains(tag@),
            },
    {
        let mut i: usize = 0;
        while i < self.tracked_pubkeys.len()
            invariant
                0 <= i <= self.tracked_pubkeys@.len(),
                forall|j: int| 0 <= j < i ==> self.tracked_pubkeys@[j]@ != tag@,
            decreases self.tracked_pubkeys@.len() - i,
        {
            if self.tracked_pubkeys[i] == *tag {
                return Some(i);
            }
            i = i + 1;
        }
        proof {
            if string_views(self.tracked_pubkeys@).contains(tag@) {
                let k = choose|k: int|
                    0 <= k < string_views(self.tracked_pubkeys@).len()
                        && string_views(self.tracked_pubkeys@)[k] == tag@;
                assert(self.tracked_pubkeys@[k]@ == tag@);
            }
        }
        None
    }

    /// Whether the worker awaits the public key announced under `tag`.
    pub fn is_tracked(&self, tag: &String) -> (r: bool)
        ensures
            r == self@.tracked_pubkeys.contains(tag@),
    {
        match self.find_tracked(tag) {
            Some(i) => {
                assert(string_views(self.tracked_pubkeys@)[i as int] == tag@);
                true
            },
            None => false,
        }
    }

    /// Start awaiting the public key announced under `tag`.
    pub fn track_pubkey(&mut self, tag: String)
        requires
            old(self).wf(),
        ensures
            final(self).wf(),
            final(self)@.tracked_pubkeys == old(self)@.tracked_pubkeys.insert(tag@),
            final(self)@.pending_listener_requests == old(self)@.pending_listener_requests,
    {
        match self.find_tracked(&tag) {
            Some(i) => {
                proof {
                    assert(string_views(self.tracked_pubkeys@)[i as int] == tag@);
                    assert(old(self)@.tracked_pubkeys.contains(tag@));
                    assert(old(self)@.tracked_pubkeys.insert(tag@) =~= old(self)@.tracked_pubkeys);
                }
            },
            None => {
                let ghost before = string_views(self.tracked_pubkeys@);
                self.tracked_pubkeys.push(tag);
                proof {
                    let after = string_views(self.tracked_pubkeys@);
                    assert(after =~= before.push(tag@));
                    assert(after.to_set() =~= before.to_set().insert(tag@)) by {
                        assert forall|x: Seq<char>| after.to_set().contains(x) <==> before.to_set().insert(tag@).contains(x) by {
                            if before.contains(x) {
                                let k = choose|k: int| 0 <= k < before.len() && before[k] == x;
                                assert(after[k] == x);
                            }
                            if after.contains(x) && x != tag@ {
                                let k = choose|k: int| 0 <= k < after.len() && after[k] == x;
                                assert(k < before.len());
                                assert(before[k] == x);
                            }
                            if x == tag@ {
                                assert(after[before.len() as int] == x);
                            }
                        }
                    }
                }
            },
        }
    }

    /// Stop awaiting the key under `tag`. Tells whether it was awaited, which is
    /// when the worker acts on the key's arrival.
    pub fn on_pubkey_notification(&mut self, tag: &String) -> (r: bool)
        requires
            old(self).wf(),
        ensures
            final(self).wf(),
            r == old(self)@.tracked_pubkeys.contains(tag@),
            final(self)@.tracked_pubkeys == old(self)@.tracked_pubkeys.remove(tag@),
            final(self)@.pending_listener_requests == old(self)@.pending_listener_requests,
    {
        match self.find_tracked(tag) {
            Some(i) => {
                let ghost before = string_views(self.tracked_pubkeys@);
                assert(before[i as int] == tag@);
                self.tracked_pubkeys.remove(i);
                proof {
                    let after = string_views(self.tracked_pubkeys@);
                    assert(after =~= before.remove(i as int));
                    assert forall|x: Seq<char>| after.to_set().contains(x) <==> before.to_set().remove(tag@).contains(x) by {
                        if before.contains(x) && x != tag@ {
                            let k = choose|k: int| 0 <= k < before.len() && before[k] == x;
                            assert(k != i);
                            if k < i {
                                assert(after[k] == x);
                            } else {
                                assert(after[k - 1] == x);
                            }
                        }
                        if after.contains(x) {
                            let k = choose|k: int| 0 <= k < after.len() && after[k] == x;
                            if k < i {
                                assert(before[k] == x);
                                assert(k != i);
                            } else {
                                assert(before[k + 1] == x);
                                assert(k + 1 != i);
                            }
                        }
                    }
                    assert(after.to_set() =~= before.to_set().remove(tag@));
                }
                true
            },
            None => {
                assert(old(self)@.tracked_pubkeys.remove(tag@) =~= old(self)@.tracked_pubkeys);
                false
            },
        }
    }

    /// A listener-address request: answered at once when the node already
    /// listens somewhere (`true`), otherwise kept until it does (`false`).
    pub fn on_get_listener_address(&mut self, request: u64, listening: bool) -> (r: bool)
        requires
            old(self).wf(),
        ensures
            final(self).wf(),
            r == listening,
            listening ==> final(self)@ == old(self)@,
            !listening ==> final(self)@.pending_listener_requests
                == old(self)@.pending_listener_requests.push(request),
            final(self)@.tracked_pubkeys == old(self)@.tracked_pubkeys,
    {
        if !listening {
            self.pending_listener_requests.push(request);
        }
        listening
    }

    /// The node listens on a new address: every pending listener request is
    /// answered, oldest first, and the list is emptied.
    pub fn on_new_listen_addr(&mut self) -> (r: Vec<u64>)
        requires
            old(self).wf(),
        ensures
            final(self).wf(),
            r@ == old(self)@.pending_listener_requests,
            final(self)@.pending_listener_requests == Seq::<u64>::empty(),
            final(self)@.tracked_pubkeys == old(self)@.tracked_pubkeys,
    {
        let mut answered: Vec<u64> = Vec::new();
        std::mem::swap(&mut answered, &mut self.pending_listener_requests);
        answered
    }

    /// What the worker does about a network event.
    pub fn on_event(&mut self, event: NodeEvent) -> (r: EventAction)
        requires
            old(self).wf(),
        ensures
            final(self).wf(),
            final(self)@.tracked_pubkeys == old(self)@.tracked_pubkeys,
            !(event is NewListenAddr) ==> final(self)@ == old(self)@,
            match event {
                NodeEvent::NewListenAddr => {
                    &&& r matches EventAction::AnswerListenerRequests(v)
                    &&& v@ == old(self)@.pending_listener_requests
                    &&& final(self)@.pending_listener_requests == Seq::<u64>::empty()
                },
                NodeEvent::ConnectionClosed { num_established } => if num_established == 0 {
                    r is ForgetPeer
                } else {
                    r is Ignore
                },
                NodeEvent::InboundRequest => r is AnswerRequest,
                NodeEvent::InboundResponse => r is HandleResponse,
                NodeEvent::IdentifyReceived { protocols } => if speaks_kademlia(
                    string_views(protocols@),
                ) {
                    r is AddPeerToDht
                } else {
                    r is Ignore
                },
                NodeEvent::IdentifyOther => r is Ignore,
                NodeEvent::MdnsDiscovered => r is AddDiscoveredPeers,
                NodeEvent::GossipMessage { on_common_topic } => if on_common_topic {
                    r is HandleGossip
                } else {
                    r is Ignore
                },
                NodeEvent::Other => r is Ignore,
            },
    {
        match event {
            NodeEvent::NewListenAddr => EventAction::AnswerListenerRequests(self.on_new_listen_addr()),
            NodeEvent::ConnectionClosed { num_established } => {
                if num_established == 0 {
                    EventAction::ForgetPeer
                } else {
                    EventAction::Ignore
                }
            },
            NodeEvent::InboundRequest => EventAction::AnswerRequest,
            NodeEvent::InboundResponse => EventAction::HandleResponse,
            NodeEvent::IdentifyReceived { protocols } => {
                if supports_kademlia(&protocols) {
                    EventAction::AddPeerToDht
                } else {
                    EventAction::Ignore
                }
            },
            NodeEvent::IdentifyOther => EventAction::Ignore,
            NodeEvent::MdnsDiscovered => EventAction::AddDiscoveredPeers,
            NodeEvent::GossipMessage { on_common_topic } => {
                if on_common_topic {
                    EventAction::HandleGossip
                } else {
                    EventAction::Ignore
                }
            },
            NodeEvent::Other => EventAction::Ignore,
        }
    }

    /// What the worker does with a message being sent, given what the store
    /// knows of its recipient and a fresh placeholder hash. A known recipient,
    /// whose encryption key the object is then built with and so must be
    /// known, puts the message in `WaitingForPOW`; a new one with a valid address puts
    /// it in `WaitingForPubkey` under the placeholder and starts awaiting the
    /// key under the Base58 of the recipient's tag; an invalid address fails
    /// the request and changes nothing.
    pub fn plan_send_message(
        &mut self,
        message: MessageModel,
        recipient: RecipientLookup,
        placeholder_hash: String,
    ) -> (r: SendPlan)
        requires
            old(self).wf(),
            recipient matches RecipientLookup::Known(v) ==> v.public_encryption_key is Some,
        ensures
            final(self).wf(),
            final(self)@.pending_listener_requests == old(self)@.pending_listener_requests,
            match recipient {
                RecipientLookup::Known(v) => {
                    &&& final(self)@ == old(self)@
                    &&& r matches SendPlan::BuildObject { message: m, recipient: w }
                    &&& m@ == (MessageView {
                        status: status_text(MessageStatus::WaitingForPOW),
                        ..message@
                    })
                    &&& w@ == v@
                },
                RecipientLookup::Unknown(Ok(a)) => {
                    &&& final(self)@.tracked_pubkeys == old(self)@.tracked_pubkeys.insert(
                        base58(a@.tag),
                    )
                    &&& r matches SendPlan::RequestPubkey { message: m, recipient: w }
                    &&& m@ == (MessageView {
                        status: status_text(MessageStatus::WaitingForPubkey),
                        hash: placeholder_hash@,
                        ..message@
                    })
                    &&& w@ == a@
                },
                RecipientLookup::Unknown(Err(reason)) => {
                    &&& final(self)@ == old(self)@
                    &&& r matches SendPlan::Reject { error }
                    &&& error@ == invalid_recipient_text(reason@)
                },
            },
    {
        match recipient {
            RecipientLookup::Known(v) => {
                let m = MessageModel { status: MessageStatus::WaitingForPOW.to_string(), ..message };
                SendPlan::BuildObject { message: m, recipient: v }
            },
            RecipientLookup::Unknown(Ok(a)) => {
                let m = MessageModel {
                    status: MessageStatus::WaitingForPubkey.to_string(),
                    hash: placeholder_hash,
                    ..message
                };
                let tag = base58_string(a.tag.as_slice());
                self.track_pubkey(tag);
                SendPlan::RequestPubkey { message: m, recipient: a }
            },
            RecipientLookup::Unknown(Err(reason)) => {
                let mut error = String::from_str("Recipient address is invalid: ");
                error.append(reason.as_str());
                SendPlan::Reject { error }
            },
        }
    }

    /// At start-up, for a stored message that waits for its recipient's key:
    /// when the recipient's key is known by now, the message moves on to proof
    /// of work (`true`); otherwise the worker awaits the key under the Base58
    /// of the recipient's tag (`false`).
    pub fn resume_waiting_message(&mut self, recipient: &AddressInfo) -> (r: bool)
        requires
            old(self).wf(),
        ensures
            final(self).wf(),
            r == (recipient.public_encryption_key is Some),
            r ==> final(self)@ == old(self)@,
            !r ==> final(self)@.tracked_pubkeys == old(self)@.tracked_pubkeys.insert(
                base58(recipient.tag@),
            ),
            final(self)@.pending_listener_requests == old(self)@.pending_listener_requests,
    {
        if recipient.public_encryption_key.is_some() {
            true
        } else {
            let tag = base58_string(recipient.tag.as_slice());
            self.track_pubkey(tag);
            false
        }
    }
}

} // verus!
