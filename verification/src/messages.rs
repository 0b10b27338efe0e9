//! Topics and messages of the network.
//!
//! The network only accepts messages whose topic is one of [Topic]. Each topic is named by a
//! string; gossipsub identifies a topic by the hash of that name, and for the identity hasher
//! that the network uses the hash is the name itself.

use hotstuff_rs::messages::Message as HotStuffMessage;
use pchain_types::blockchain::Transaction;
use pchain_types::cryptography::PublicAddress;
use vstd::prelude::*;

verus! {

// ---------------------------------------------------------------------------------------------
// base64url (RFC 4648, URL-safe alphabet, no padding)
// ---------------------------------------------------------------------------------------------

/// The character of the URL-safe base64 alphabet for a sextet `v` in `0..64`.
pub open spec fn base64url_char(v: int) -> char {
    if v < 26 {
        (65 + v) as char
    } else if v < 52 {
        (97 + (v - 26)) as char
    } else if v < 62 {
        (48 + (v - 52)) as char
    } else if v == 62 {
        '-'
    } else {
        '_'
    }
}

/// URL-safe base64 encoding without padding: every three bytes become four characters, a final
/// group of one or two bytes becomes two or three characters.
pub open spec fn base64url_encoding(bytes: Seq<u8>) -> Seq<char>
    decreases bytes.len(),
{
    if bytes.len() == 0 {
        seq![]
    } else if bytes.len() == 1 {
        let b0 = bytes[0] as int;
        seq![base64url_char(b0 / 4), base64url_char((b0 % 4) * 16)]
    } else if bytes.len() == 2 {
        let b0 = bytes[0] as int;
        let b1 = bytes[1] as int;
        seq![
            base64url_char(b0 / 4),
            base64url_char((b0 % 4) * 16 + b1 / 16),
            base64url_char((b1 % 16) * 4),
        ]
    } else {
        let b0 = bytes[0] as int;
        let b1 = bytes[1] as int;
        let b2 = bytes[2] as int;
        seq![
            base64url_char(b0 / 4),
            base64url_char((b0 % 4) * 16 + b1 / 16),
            base64url_char((b1 % 16) * 4 + b2 / 64),
            base64url_char(b2 % 64),
        ] + base64url_encoding(bytes.skip(3))
    }
}

/// `base64url::encode` on a public address.
///
/// The crate documents its output as the URL-safe base64 encoding of RFC 4648 without padding;
/// the contract states exactly that encoding.
#[verifier::external_body]
fn base64url_encode(bytes: &[u8; 32]) -> (res: String)
    ensures
        res@ == base64url_encoding(bytes@),
{
    base64url::encode(bytes)
}

proof fn lemma_base64url_char_injective(v: int, w: int)
    requires
        0 <= v < 64,
        0 <= w < 64,
        base64url_char(v) == base64url_char(w),
    ensures
        v == w,
{
}

/// Distinct byte sequences of one length have distinct encodings.
pub proof fn lemma_base64url_injective(a: Seq<u8>, b: Seq<u8>)
    requires
        a.len() == b.len(),
        base64url_encoding(a) == base64url_encoding(b),
    ensures
        a == b,
    decreases a.len(),
{
    let ea = base64url_encoding(a);
    let eb = base64url_encoding(b);
    if a.len() == 0 {
        assert(a =~= b);
    } else {
        let a0 = a[0] as int;
        let b0 = b[0] as int;
        if a.len() == 1 {
            assert(ea[0] == eb[0] && ea[1] == eb[1]);
            lemma_base64url_char_injective(a0 / 4, b0 / 4);
            lemma_base64url_char_injective((a0 % 4) * 16, (b0 % 4) * 16);
            assert(a =~= b);
        } else {
            let a1 = a[1] as int;
            let b1 = b[1] as int;
            if a.len() == 2 {
                assert(ea[0] == eb[0] && ea[1] == eb[1] && ea[2] == eb[2]);
                lemma_base64url_char_injective(a0 / 4, b0 / 4);
                lemma_base64url_char_injective((a0 % 4) * 16 + a1 / 16, (b0 % 4) * 16 + b1 / 16);
                lemma_base64url_char_injective((a1 % 16) * 4, (b1 % 16) * 4);
                assert(a =~= b);
            } else {
                let a2 = a[2] as int;
                let b2 = b[2] as int;
                assert(ea[0] == eb[0] && ea[1] == eb[1] && ea[2] == eb[2] && ea[3] == eb[3]);
                lemma_base64url_char_injective(a0 / 4, b0 / 4);
                lemma_base64url_char_injective((a0 % 4) * 16 + a1 / 16, (b0 % 4) * 16 + b1 / 16);
                lemma_base64url_char_injective((a1 % 16) * 4 + a2 / 64, (b1 % 16) * 4 + b2 / 64);
                lemma_base64url_char_injective(a2 % 64, b2 % 64);
                assert(ea.skip(4) =~= base64url_encoding(a.skip(3)));
                assert(eb.skip(4) =~= base64url_encoding(b.skip(3)));
                lemma_base64url_injective(a.skip(3), b.skip(3));
                assert forall|i: int| 0 <= i < a.len() implies a[i] == b[i] by {
                    if i >= 3 {
                        assert(a.skip(3)[i - 3] == b.skip(3)[i - 3]);
                    }
                }
                assert(a =~= b);
            }
        }
    }
}

// ---------------------------------------------------------------------------------------------
// Topics
// ---------------------------------------------------------------------------------------------

/// [Topic] defines the topics of the messages in the network.
#[derive(Clone, Copy, PartialEq, Eq, Debug)]
pub enum Topic {
    /// Consensus messages for every replica.
    HotStuffRsBroadcast,
    /// Consensus messages for the one replica with this public address.
    HotStuffRsSend(PublicAddress),
    /// Transactions for the mempool.
    Mempool,
}

/// The name of a topic.
pub open spec fn topic_name(topic: Topic) -> Seq<char> {
    match topic {
        Topic::HotStuffRsBroadcast => "hotstuff_rs"@,
        Topic::HotStuffRsSend(addr) => "hotstuff_rs/"@ + base64url_encoding(addr@),
        Topic::Mempool => "mempool"@,
    }
}

/// The hash of a topic, which gossipsub uses to identify it.
pub struct MessageTopicHash {
    hash: String,
}

impl View for MessageTopicHash {
    type V = Seq<char>;

    closed spec fn view(&self) -> Seq<char> {
        self.hash@
    }
}

impl MessageTopicHash {
    /// A topic hash from its raw string.
    pub fn from_raw(hash: String) -> (res: MessageTopicHash)
        ensures
            res@ == hash@,
    {
        MessageTopicHash { hash }
    }

    /// The raw string of the hash.
    pub fn as_str(&self) -> (res: &str)
        ensures
            res@ == self@,
    {
        self.hash.as_str()
    }

    /// Whether the hash is this string.
    pub fn is_named(&self, name: &String) -> (res: bool)
        ensures
            res == (self@ == name@),
    {
        self.hash == *name
    }

    /// Whether two hashes are the same.
    pub fn same_as(&self, other: &MessageTopicHash) -> (res: bool)
        ensures
            res == (self@ == other@),
    {
        self.hash == other.hash
    }
}

impl Clone for MessageTopicHash {
    fn clone(&self) -> (res: MessageTopicHash)
        ensures
            res@ == self@,
    {
        MessageTopicHash { hash: self.hash.clone() }
    }
}

/// The hash of the gossipsub identity topic with this name (`IdentTopic::new(name).hash()`).
///
/// The identity hasher of gossipsub makes the hash the name itself (`IdentityHash::hash` returns
/// `TopicHash { hash: topic_string }`); the contract states that.
#[verifier::external_body]
fn ident_topic_hash(name: String) -> (res: String)
    ensures
        res@ == name@,
{
    libp2p::gossipsub::IdentTopic::new(name).hash().into_string()
}

impl Topic {
    /// The name of the topic.
    pub fn name(self) -> (res: String)
        ensures
            res@ == topic_name(self),
    {
        match self {
            Topic::HotStuffRsBroadcast => String::from_str("hotstuff_rs"),
            Topic::HotStuffRsSend(addr) => {
                let mut name = String::from_str("hotstuff_rs/");
                let encoded = base64url_encode(&addr);
                name.append(encoded.as_str());
                name
            },
            Topic::Mempool => String::from_str("mempool"),
        }
    }

    /// The hash of the topic: the hash of its gossipsub identity topic.
    pub fn hash(self) -> (res: MessageTopicHash)
        ensures
            res@ == topic_name(self),
    {
        MessageTopicHash::from_raw(ident_topic_hash(self.name()))
    }
}

/// The three kinds of topic have distinct names, and two mailbox topics have the same name only
/// when they are the mailbox of the same address.
pub proof fn law_topic_names_distinct(t1: Topic, t2: Topic)
    ensures
        topic_name(t1) == topic_name(t2) <==> t1 == t2,
{
    reveal_strlit("hotstuff_rs");
    reveal_strlit("hotstuff_rs/");
    reveal_strlit("mempool");
    match (t1, t2) {
        (Topic::HotStuffRsSend(a), Topic::HotStuffRsSend(b)) => {
            if topic_name(t1) == topic_name(t2) {
                let p = "hotstuff_rs/"@;
                assert(topic_name(t1).skip(p.len() as int) =~= base64url_encoding(a@));
                assert(topic_name(t2).skip(p.len() as int) =~= base64url_encoding(b@));
                lemma_base64url_injective(a@, b@);
                assert(a@ == b@);
                assert(a == b);
            }
        },
        (Topic::HotStuffRsSend(a), _) => {
            assert(topic_name(t1).len() >= 12);
            assert(topic_name(t1)[0] == 'h');
        },
        (_, Topic::HotStuffRsSend(b)) => {
            assert(topic_name(t2).len() >= 12);
            assert(topic_name(t2)[0] == 'h');
        },
        _ => {
            assert("hotstuff_rs"@.len() == 11);
            assert("mempool"@.len() == 7);
        },
    }
}

// ---------------------------------------------------------------------------------------------
// Messages
// ---------------------------------------------------------------------------------------------

#[verifier::external_type_specification]
#[verifier::external_body]
pub struct ExHotStuffMessage(HotStuffMessage);

#[verifier::external_type_specification]
#[verifier::external_body]
pub struct ExTransaction(Transaction);

#[verifier::external_type_specification]
#[verifier::external_body]
pub struct ExIoError(std::io::Error);

/// `Clone` of a consensus message, which `derive(Clone)` writes field by field: the copy equals
/// the original.
pub assume_specification[ <HotStuffMessage as Clone>::clone ](
    m: &HotStuffMessage,
) -> (res: HotStuffMessage)
    ensures
        res == *m,
;

/// `Clone` of a transaction, which `derive(Clone)` writes field by field: the copy equals the
/// original.
pub assume_specification[ <Transaction as Clone>::clone ](t: &Transaction) -> (res: Transaction)
    ensures
        res == *t,
;

/// [Message] are structured messages that are sent between peers.
pub enum Message {
    /// A consensus message.
    HotStuffRs(HotStuffMessage),
    /// A transaction for the mempool.
    Mempool(Transaction),
}

impl Clone for Message {
    fn clone(&self) -> (res: Message)
        ensures
            res == *self,
    {
        match self {
            Message::HotStuffRs(m) => Message::HotStuffRs(m.clone()),
            Message::Mempool(t) => Message::Mempool(t.clone()),
        }
    }
}

/// Whether the bytes begin with the borsh encoding of a consensus message.
pub uninterp spec fn hotstuff_message_decodes(data: Seq<u8>) -> bool;

/// Whether the bytes begin with the borsh encoding of a transaction.
pub uninterp spec fn transaction_decodes(data: Seq<u8>) -> bool;

/// The borsh encoding of a consensus message.
pub uninterp spec fn hotstuff_message_encoding(m: HotStuffMessage) -> Seq<u8>;

/// The borsh encoding of a transaction.
pub uninterp spec fn transaction_encoding(t: Transaction) -> Seq<u8>;

/// The consensus message that borsh decodes from the front of the bytes, where it decodes one.
pub uninterp spec fn hotstuff_message_decoded(data: Seq<u8>) -> HotStuffMessage;

/// The transaction that borsh decodes from the front of the bytes, where it decodes one.
pub uninterp spec fn transaction_decoded(data: Seq<u8>) -> Transaction;

/// The borsh encoding of a consensus message (`BorshSerialize::try_to_vec`). Borsh decoding gives
/// back the value it encoded (the round trip of its README; the message types derive both traits
/// and hold no unordered collection), so the bytes decode as a consensus message, and encoding
/// that message again gives the same bytes.
#[verifier::external_body]
fn hotstuff_message_bytes(m: &HotStuffMessage) -> (res: Vec<u8>)
    ensures
        res@ == hotstuff_message_encoding(*m),
        hotstuff_message_decodes(res@),
        hotstuff_message_encoding(hotstuff_message_decoded(res@)) == res@,
{
    borsh::BorshSerialize::try_to_vec(m).unwrap()
}

/// The borsh encoding of a transaction (`BorshSerialize::serialize` into a vector). Borsh
/// decoding gives back the value it encoded (the transaction type derives both traits), so the
/// bytes decode as a transaction, and encoding that transaction again gives the same bytes.
#[verifier::external_body]
fn transaction_bytes(t: &Transaction) -> (res: Vec<u8>)
    ensures
        res@ == transaction_encoding(*t),
        transaction_decodes(res@),
        transaction_encoding(transaction_decoded(res@)) == res@,
{
    let mut data: Vec<u8> = Vec::new();
    borsh::BorshSerialize::serialize(t, &mut data).unwrap();
    data
}

/// `BorshDeserialize::deserialize` of a consensus message from the front of the bytes: it
/// succeeds exactly on the bytes named [hotstuff_message_decodes], with the message named
/// [hotstuff_message_decoded].
#[verifier::external_body]
pub(crate) fn hotstuff_message_from_bytes(data: &[u8]) -> (res: Result<
    HotStuffMessage,
    std::io::Error,
>)
    ensures
        res is Ok <==> hotstuff_message_decodes(data@),
        res matches Ok(m) ==> m == hotstuff_message_decoded(data@),
{
    let mut data = data;
    <HotStuffMessage as borsh::BorshDeserialize>::deserialize(&mut data)
}

/// `BorshDeserialize::deserialize` of a transaction from the front of the bytes: it succeeds
/// exactly on the bytes named [transaction_decodes], with the transaction named
/// [transaction_decoded].
#[verifier::external_body]
pub(crate) fn transaction_from_bytes(data: &[u8]) -> (res: Result<Transaction, std::io::Error>)
    ensures
        res is Ok <==> transaction_decodes(data@),
        res matches Ok(t) ==> t == transaction_decoded(data@),
{
    let mut data = data;
    <Transaction as borsh::BorshDeserialize>::deserialize(&mut data)
}

/// The bytes of a message on the network: the borsh encoding of its content.
pub open spec fn message_encoding(msg: Message) -> Seq<u8> {
    match msg {
        Message::HotStuffRs(m) => hotstuff_message_encoding(m),
        Message::Mempool(t) => transaction_encoding(t),
    }
}

/// Whether the bytes decode as a message of the same kind as `msg`.
pub open spec fn decodes_as_kind_of(msg: Message, bytes: Seq<u8>) -> bool {
    match msg {
        Message::HotStuffRs(_) => hotstuff_message_decodes(bytes),
        Message::Mempool(_) => transaction_decodes(bytes),
    }
}

/// The message of the same kind as `msg` that decodes from the bytes.
pub open spec fn decoded_as_kind_of(msg: Message, bytes: Seq<u8>) -> Message {
    match msg {
        Message::HotStuffRs(_) => Message::HotStuffRs(hotstuff_message_decoded(bytes)),
        Message::Mempool(_) => Message::Mempool(transaction_decoded(bytes)),
    }
}

/// Whether the bytes are the encoding of `msg`, decode as a message of its kind, and that message
/// encodes to the same bytes again.
pub open spec fn is_encoding_of(msg: Message, bytes: Seq<u8>) -> bool {
    &&& bytes == message_encoding(msg)
    &&& decodes_as_kind_of(msg, bytes)
    &&& message_encoding(decoded_as_kind_of(msg, bytes)) == bytes
}

impl From<Message> for Vec<u8> {
    /// The bytes sent on the network for a message: the borsh encoding of its content.
    fn from(msg: Message) -> (res: Vec<u8>)
        ensures
            is_encoding_of(msg, res@),
    {
        match msg {
            Message::HotStuffRs(m) => hotstuff_message_bytes(&m),
            Message::Mempool(txn) => transaction_bytes(&txn),
        }
    }
}

impl vstd::std_specs::convert::FromSpecImpl<Message> for Vec<u8> {
    open spec fn obeys_from_spec() -> bool {
        false
    }

    open spec fn from_spec(msg: Message) -> Vec<u8> {
        arbitrary()
    }
}

} // verus!
