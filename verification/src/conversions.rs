//! Conversions used throughout the library: public addresses and peer ids, gossipsub messages
//! and [Message]s, IPv4 socket addresses and multiaddresses.

use crate::config::{accepted_topic, fullnode_topics, fullnode_topic_seq};
use crate::messages::{
    hotstuff_message_decoded, hotstuff_message_decodes, hotstuff_message_from_bytes,
    law_topic_names_distinct, transaction_decoded, transaction_decodes, transaction_from_bytes, topic_name, Message, MessageTopicHash, Topic,
};
use libp2p::identity::{self, ed25519, DecodingError, OtherVariantError, PeerId};
use libp2p::Multiaddr;
use vstd::prelude::*;

verus! {

#[verifier::external_type_specification]
#[verifier::external_body]
pub struct ExPeerId(PeerId);

#[verifier::external_type_specification]
#[verifier::external_body]
pub struct ExMultiaddr(Multiaddr);

#[verifier::external_type_specification]
#[verifier::external_body]
pub struct ExDecodingError(DecodingError);

#[verifier::external_type_specification]
#[verifier::external_body]
pub struct ExOtherVariantError(OtherVariantError);

#[verifier::external_type_specification]
#[verifier::external_body]
pub struct ExIdentityPublicKey(identity::PublicKey);

#[verifier::external_type_specification]
#[verifier::external_body]
pub struct ExEd25519PublicKey(ed25519::PublicKey);

// ---------------------------------------------------------------------------------------------
// Ed25519 keys and peer ids
// ---------------------------------------------------------------------------------------------

/// Whether the 32 bytes are the compressed form of a point of the Ed25519 curve, which is what
/// makes them a public key.
pub uninterp spec fn ed25519_public_key_valid(bytes: Seq<u8>) -> bool;

/// The bytes of an Ed25519 public key (its compressed point).
pub uninterp spec fn ed25519_key_bytes(key: ed25519::PublicKey) -> [u8; 32];

/// The public key that a peer id holds: the key decoded from the digest of its multihash, when
/// that decodes.
pub uninterp spec fn peer_id_key(peer_id: PeerId) -> Option<identity::PublicKey>;

/// The Ed25519 key inside a public key, when it is one.
pub uninterp spec fn ed25519_key_in(key: identity::PublicKey) -> Option<ed25519::PublicKey>;

/// The public address of a peer id: the bytes of the Ed25519 key it holds, if it holds one.
pub open spec fn peer_id_public_address(peer_id: PeerId) -> Option<pchain_types::cryptography::PublicAddress> {
    match peer_id_key(peer_id) {
        Some(key) => match ed25519_key_in(key) {
            Some(k) => Some(ed25519_key_bytes(k)),
            None => None,
        },
        None => None,
    }
}

/// `ed25519::PublicKey::try_from_bytes`: it succeeds exactly on the bytes named
/// [ed25519_public_key_valid], with a key whose bytes are the given ones (`VerifyingKey`
/// keeps the bytes as its compressed form).
#[verifier::external_body]
pub(crate) fn ed25519_public_key_from_bytes(bytes: &[u8; 32]) -> (res: Result<
    ed25519::PublicKey,
    DecodingError,
>)
    ensures
        res is Ok <==> ed25519_public_key_valid(bytes@),
        res matches Ok(k) ==> ed25519_key_bytes(k) == *bytes,
{
    ed25519::PublicKey::try_from_bytes(bytes)
}

/// `ed25519::PublicKey::to_bytes`: the compressed form of the key's point. The key holds a point
/// of the curve and its compression (`VerifyingKey::from_bytes` keeps the invariant that the
/// point is the decompression of the bytes), so the bytes are a valid public key again.
#[verifier::external_body]
pub(crate) fn ed25519_public_key_bytes(key: &ed25519::PublicKey) -> (res: [u8; 32])
    ensures
        res == ed25519_key_bytes(*key),
        ed25519_public_key_valid(res@),
{
    key.to_bytes()
}

/// The peer id of the Ed25519 public key with these bytes (`PublicKey::to_peer_id`).
pub uninterp spec fn ed25519_peer_id(key_bytes: [u8; 32]) -> PeerId;

/// `identity::PublicKey::to_peer_id` of an Ed25519 key: the peer id named [ed25519_peer_id] of
/// the key's bytes. The protobuf encoding of an Ed25519 key is 36 bytes, so the peer id is the
/// identity multihash of that encoding; decoding its digest gives the Ed25519 key with the same
/// bytes back.
#[verifier::external_body]
pub(crate) fn peer_id_of_ed25519_key(key: ed25519::PublicKey) -> (res: PeerId)
    ensures
        res == ed25519_peer_id(ed25519_key_bytes(key)),
        peer_id_public_address(res) == Some(ed25519_key_bytes(key)),
{
    identity::PublicKey::from(key).to_peer_id()
}

/// `identity::PublicKey::try_decode_protobuf` of the digest of a peer id's multihash, which for a
/// key of up to 42 bytes (an Ed25519 key among them) is the protobuf encoding of the key itself.
/// It succeeds exactly with the key named [peer_id_key].
#[verifier::external_body]
fn public_key_of_peer_id(peer_id: &PeerId) -> (res: Result<identity::PublicKey, DecodingError>)
    ensures
        match res {
            Ok(key) => peer_id_key(*peer_id) == Some(key),
            Err(_) => peer_id_key(*peer_id) is None,
        },
{
    identity::PublicKey::try_decode_protobuf(AsRef::<libp2p::multihash::Multihash<64>>::as_ref(peer_id).digest())
}

/// `identity::PublicKey::try_into_ed25519`: it succeeds exactly with the key named
/// [ed25519_key_in].
#[verifier::external_body]
fn ed25519_key_of(key: identity::PublicKey) -> (res: Result<ed25519::PublicKey, OtherVariantError>)
    ensures
        match res {
            Ok(k) => ed25519_key_in(key) == Some(k),
            Err(_) => ed25519_key_in(key) is None,
        },
{
    key.try_into_ed25519()
}

/// The public address of an Ed25519 public key, or `None` for a key of another kind.
pub fn public_address(key: &identity::PublicKey) -> (res: Option<pchain_types::cryptography::PublicAddress>)
    ensures
        res == match ed25519_key_in(*key) {
            Some(k) => Some(ed25519_key_bytes(k)),
            None => None::<pchain_types::cryptography::PublicAddress>,
        },
        res matches Some(addr) ==> ed25519_public_key_valid(addr@),
{
    match ed25519_key_of(key.clone()) {
        Ok(k) => Some(ed25519_public_key_bytes(&k)),
        Err(_) => None,
    }
}

/// `Clone` of a public key.
pub assume_specification[ <identity::PublicKey as Clone>::clone ](key: &identity::PublicKey) -> (res: identity::PublicKey)
    ensures
        res == *key,
;

/// PublicAddress(PublicAddress) is a wrapper around a ParallelChain public address.
pub struct PublicAddress(pchain_types::cryptography::PublicAddress);

impl PublicAddress {
    /// The address held.
    pub closed spec fn address(self) -> pchain_types::cryptography::PublicAddress {
        self.0
    }

    pub fn new(addr: pchain_types::cryptography::PublicAddress) -> (res: PublicAddress)
        ensures
            res.address() == addr,
    {
        PublicAddress(addr)
    }
}

impl From<PublicAddress> for pchain_types::cryptography::PublicAddress {
    fn from(peer: PublicAddress) -> (res: pchain_types::cryptography::PublicAddress) {
        peer.0
    }
}

impl vstd::std_specs::convert::FromSpecImpl<PublicAddress> for pchain_types::cryptography::PublicAddress {
    open spec fn obeys_from_spec() -> bool {
        true
    }

    open spec fn from_spec(peer: PublicAddress) -> pchain_types::cryptography::PublicAddress {
        peer.address()
    }
}

/// Why a peer id has no public address.
#[derive(Debug)]
pub enum PublicAddressTryFromPeerIdError {
    OtherVariantError(OtherVariantError),
    DecodingError(DecodingError),
}

impl From<OtherVariantError> for PublicAddressTryFromPeerIdError {
    fn from(error: OtherVariantError) -> PublicAddressTryFromPeerIdError {
        PublicAddressTryFromPeerIdError::OtherVariantError(error)
    }
}

impl vstd::std_specs::convert::FromSpecImpl<OtherVariantError> for PublicAddressTryFromPeerIdError {
    open spec fn obeys_from_spec() -> bool {
        true
    }

    open spec fn from_spec(error: OtherVariantError) -> PublicAddressTryFromPeerIdError {
        PublicAddressTryFromPeerIdError::OtherVariantError(error)
    }
}

impl From<DecodingError> for PublicAddressTryFromPeerIdError {
    fn from(error: DecodingError) -> PublicAddressTryFromPeerIdError {
        PublicAddressTryFromPeerIdError::DecodingError(error)
    }
}

impl vstd::std_specs::convert::FromSpecImpl<DecodingError> for PublicAddressTryFromPeerIdError {
    open spec fn obeys_from_spec() -> bool {
        true
    }

    open spec fn from_spec(error: DecodingError) -> PublicAddressTryFromPeerIdError {
        PublicAddressTryFromPeerIdError::DecodingError(error)
    }
}

impl TryFrom<PeerId> for PublicAddress {
    type Error = PublicAddressTryFromPeerIdError;

    /// The public address of the Ed25519 key that the peer id holds.
    fn try_from(peer_id: PeerId) -> (res: Result<PublicAddress, PublicAddressTryFromPeerIdError>)
        ensures
            res is Ok <==> peer_id_public_address(peer_id) is Some,
            res matches Ok(a) ==> Some(a.address()) == peer_id_public_address(peer_id),
            res matches Ok(a) ==> ed25519_public_key_valid(a.address()@),
            res matches Err(e) ==> (e is DecodingError <==> peer_id_key(peer_id) is None),
    {
        match public_key_of_peer_id(&peer_id) {
            Err(e) => Err(PublicAddressTryFromPeerIdError::DecodingError(e)),
            Ok(key) => match ed25519_key_of(key) {
                Err(e) => Err(PublicAddressTryFromPeerIdError::OtherVariantError(e)),
                Ok(k) => Ok(PublicAddress(ed25519_public_key_bytes(&k))),
            },
        }
    }
}

impl vstd::std_specs::convert::TryFromSpecImpl<PeerId> for PublicAddress {
    open spec fn obeys_try_from_spec() -> bool {
        false
    }

    open spec fn try_from_spec(peer_id: PeerId) -> Result<PublicAddress, PublicAddressTryFromPeerIdError> {
        arbitrary()
    }
}

impl TryFrom<PublicAddress> for PeerId {
    type Error = DecodingError;

    /// The peer id of the Ed25519 public key with these bytes; it fails exactly when the bytes
    /// are no public key.
    fn try_from(public_addr: PublicAddress) -> (res: Result<PeerId, DecodingError>)
        ensures
            res is Ok <==> ed25519_public_key_valid(public_addr.address()@),
            res matches Ok(p) ==> p == ed25519_peer_id(public_addr.address()),
            res matches Ok(p) ==> peer_id_public_address(p) == Some(public_addr.address()),
    {
        match ed25519_public_key_from_bytes(&public_addr.0) {
            Ok(k) => Ok(peer_id_of_ed25519_key(k)),
            Err(e) => Err(e),
        }
    }
}

impl vstd::std_specs::convert::TryFromSpecImpl<PublicAddress> for PeerId {
    open spec fn obeys_try_from_spec() -> bool {
        false
    }

    open spec fn try_from_spec(public_addr: PublicAddress) -> Result<PeerId, DecodingError> {
        arbitrary()
    }
}

// ---------------------------------------------------------------------------------------------
// Gossipsub messages
// ---------------------------------------------------------------------------------------------

/// The topic of a message is none that the peer accepts.
#[derive(Debug)]
pub struct InvalidTopicError;

/// Why a gossipsub message is no [Message].
#[derive(Debug)]
pub enum MessageConversionError {
    DeserializeError(std::io::Error),
    InvalidTopicError(InvalidTopicError),
}

impl From<InvalidTopicError> for MessageConversionError {
    fn from(error: InvalidTopicError) -> MessageConversionError {
        MessageConversionError::InvalidTopicError(error)
    }
}

impl vstd::std_specs::convert::FromSpecImpl<InvalidTopicError> for MessageConversionError {
    open spec fn obeys_from_spec() -> bool {
        true
    }

    open spec fn from_spec(error: InvalidTopicError) -> MessageConversionError {
        MessageConversionError::InvalidTopicError(error)
    }
}

impl From<std::io::Error> for MessageConversionError {
    fn from(error: std::io::Error) -> MessageConversionError {
        MessageConversionError::DeserializeError(error)
    }
}

impl vstd::std_specs::convert::FromSpecImpl<std::io::Error> for MessageConversionError {
    open spec fn obeys_from_spec() -> bool {
        true
    }

    open spec fn from_spec(error: std::io::Error) -> MessageConversionError {
        MessageConversionError::DeserializeError(error)
    }
}

/// What becomes of a gossipsub message with a topic named `name` and these data at a peer with
/// this address: whether it is accepted, and if it is, whether it holds a consensus message
/// (`Some(true)`) or a transaction (`Some(false)`); `None` when its topic is not accepted.
pub open spec fn accepted_kind(name: Seq<char>, local: pchain_types::cryptography::PublicAddress) -> Option<bool> {
    match accepted_topic(name, local) {
        None => None,
        Some(Topic::Mempool) => Some(false),
        Some(_) => Some(true),
    }
}

/// The [Message] in the data of a gossipsub message with this topic hash, received by a peer
/// with the public address `local_public_address`.
///
/// The topic must be one of the topics that the peer accepts ([fullnode_topics]); the data are
/// then decoded as a consensus message for the two consensus topics and as a transaction for the
/// mempool topic.
pub fn filter_gossipsub_messages(
    topic_hash: &MessageTopicHash,
    data: &[u8],
    local_public_address: pchain_types::cryptography::PublicAddress,
) -> (res: Result<Message, MessageConversionError>)
    ensures
        match accepted_kind(topic_hash@, local_public_address) {
            None => res matches Err(MessageConversionError::InvalidTopicError(_)),
            Some(true) => {
                &&& res is Ok <==> hotstuff_message_decodes(data@)
                &&& res matches Ok(m) ==> m == Message::HotStuffRs(hotstuff_message_decoded(data@))
                &&& res matches Err(e) ==> e is DeserializeError
            },
            Some(false) => {
                &&& res is Ok <==> transaction_decodes(data@)
                &&& res matches Ok(m) ==> m == Message::Mempool(transaction_decoded(data@))
                &&& res matches Err(e) ==> e is DeserializeError
            },
        },
{
    let topics = fullnode_topics(local_public_address);
    let ghost accepted = fullnode_topic_seq(local_public_address);
    let mut found: Option<Topic> = None;
    let mut i: usize = 0;
    while i < topics.len()
        invariant_except_break
            0 <= i <= topics.len(),
            found is None,
            forall|j: int| 0 <= j < i ==> topic_name(#[trigger] accepted[j]) != topic_hash@,
        invariant
            topics@ == accepted,
        ensures
            found matches Some(t) ==> {
                &&& topic_name(t) == topic_hash@
                &&& exists|j: int| 0 <= j < accepted.len() && accepted[j] == t
                &&& forall|k: int|
                    0 <= k < accepted.len() && #[trigger] topic_name(accepted[k]) == topic_hash@
                        ==> accepted[k] == t
            },
            found is None ==> forall|j: int|
                0 <= j < accepted.len() ==> topic_name(#[trigger] accepted[j]) != topic_hash@,
        decreases topics.len() - i,
    {
        let t = topics[i];
        if t.hash().same_as(topic_hash) {
            proof {
                assert forall|k: int|
                    0 <= k < accepted.len() && #[trigger] topic_name(accepted[k]) == topic_hash@
                    implies accepted[k] == t by {
                    law_topic_names_distinct(accepted[k], t);
                }
            }
            found = Some(t);
            break;
        }
        i = i + 1;
    }
    proof {
        assert(accepted[0] == Topic::HotStuffRsBroadcast);
        assert(accepted[1] == Topic::HotStuffRsSend(local_public_address));
        assert(accepted[2] == Topic::Mempool);
        law_topic_names_distinct(Topic::HotStuffRsBroadcast, Topic::HotStuffRsSend(local_public_address));
        law_topic_names_distinct(Topic::HotStuffRsBroadcast, Topic::Mempool);
        law_topic_names_distinct(Topic::Mempool, Topic::HotStuffRsSend(local_public_address));
    }
    match found {
        None => Err(MessageConversionError::InvalidTopicError(InvalidTopicError)),
        Some(Topic::Mempool) => match transaction_from_bytes(data) {
            Ok(txn) => Ok(Message::Mempool(txn)),
            Err(e) => Err(MessageConversionError::DeserializeError(e)),
        },
        Some(_) => match hotstuff_message_from_bytes(data) {
            Ok(m) => Ok(Message::HotStuffRs(m)),
            Err(e) => Err(MessageConversionError::DeserializeError(e)),
        },
    }
}

// ---------------------------------------------------------------------------------------------
// Multiaddresses
// ---------------------------------------------------------------------------------------------

/// `String::push` appends the character to the end of the string.
pub assume_specification[ String::push ](s: &mut String, ch: char)
    ensures
        final(s)@ == old(s)@.push(ch),
;

/// The character of a decimal digit.
pub open spec fn decimal_digit(d: int) -> char {
    (48 + d) as char
}

/// The decimal representation of a natural number, without leading zeros.
pub open spec fn decimal(n: nat) -> Seq<char>
    decreases n,
{
    if n < 10 {
        seq![decimal_digit(n as int)]
    } else {
        decimal(n / 10).push(decimal_digit((n % 10) as int))
    }
}

/// The text of the multiaddress of a TCP port on an IPv4 address:
/// `/ip4/<a>.<b>.<c>.<d>/tcp/<port>`.
pub open spec fn ip4_tcp_text(ip: [u8; 4], port: u16) -> Seq<char> {
    seq!['/', 'i', 'p', '4', '/'] + decimal(ip[0] as nat) + seq!['.'] + decimal(ip[1] as nat)
        + seq!['.'] + decimal(ip[2] as nat) + seq!['.'] + decimal(ip[3] as nat) + seq![
        '/',
        't',
        'c',
        'p',
        '/',
    ] + decimal(port as nat)
}

fn digit_char(d: u32) -> (c: char)
    requires
        d < 10,
    ensures
        c == decimal_digit(d as int),
{
    match d {
        0 => '0',
        1 => '1',
        2 => '2',
        3 => '3',
        4 => '4',
        5 => '5',
        6 => '6',
        7 => '7',
        8 => '8',
        _ => '9',
    }
}

fn push_decimal(text: &mut String, n: u32)
    ensures
        final(text)@ == old(text)@ + decimal(n as nat),
    decreases n,
{
    if n >= 10 {
        push_decimal(text, n / 10);
    }
    text.push(digit_char(n % 10));
    proof {
        if n >= 10 {
            assert(old(text)@ + decimal(n as nat) =~= old(text)@ + decimal((n / 10) as nat) + seq![
                decimal_digit((n % 10) as int),
            ]);
        } else {
            assert(old(text)@ + decimal(n as nat) =~= old(text)@.push(decimal_digit(n as int)));
        }
    }
}

fn push_chars(text: &mut String, chars: &[char])
    ensures
        final(text)@ == old(text)@ + chars@,
{
    let mut i: usize = 0;
    while i < chars.len()
        invariant
            0 <= i <= chars.len(),
            text@ == old(text)@ + chars@.take(i as int),
        decreases chars.len() - i,
    {
        text.push(chars[i]);
        assert(chars@.take(i + 1) =~= chars@.take(i as int).push(chars@[i as int]));
        i = i + 1;
    }
    assert(chars@.take(chars.len() as int) =~= chars@);
}

/// The text of the multiaddress of a TCP port on an IPv4 address.
pub fn multi_addr_text(ip_address: [u8; 4], port: u16) -> (res: String)
    ensures
        res@ == ip4_tcp_text(ip_address, port),
{
    let mut text = String::new();
    push_chars(&mut text, &['/', 'i', 'p', '4', '/']);
    push_decimal(&mut text, ip_address[0] as u32);
    text.push('.');
    push_decimal(&mut text, ip_address[1] as u32);
    text.push('.');
    push_decimal(&mut text, ip_address[2] as u32);
    text.push('.');
    push_decimal(&mut text, ip_address[3] as u32);
    push_chars(&mut text, &['/', 't', 'c', 'p', '/']);
    push_decimal(&mut text, port as u32);
    assert(text@ =~= ip4_tcp_text(ip_address, port));
    text
}

/// The text of a multiaddress (its `Display`).
pub uninterp spec fn multiaddr_text(address: Multiaddr) -> Seq<char>;

/// `str::parse::<Multiaddr>` of the text of an IPv4 TCP multiaddress. The parser of `multiaddr`
/// accepts a text that starts with `/` and holds `ip4` with a dotted decimal address and `tcp`
/// with a decimal port, which is what `requires` admits. `Display` writes `/ip4/` with the
/// dotted decimal address and `/tcp/` with the decimal port, so the text of the result is the
/// text parsed.
#[verifier::external_body]
fn multiaddr_from_text(text: &str) -> (res: Multiaddr)
    requires
        exists|ip: [u8; 4], port: u16| text@ == ip4_tcp_text(ip, port),
    ensures
        multiaddr_text(res) == text@,
{
    text.parse::<Multiaddr>().unwrap()
}

proof fn lemma_decimal_len(n: nat)
    ensures
        decimal(n).len() >= 1,
        n >= 10 ==> decimal(n).len() >= 2,
    decreases n,
{
    if n >= 10 {
        lemma_decimal_len(n / 10);
    }
}

/// Different numbers have different decimal representations.
pub proof fn lemma_decimal_injective(a: nat, b: nat)
    requires
        decimal(a) == decimal(b),
    ensures
        a == b,
    decreases a,
{
    lemma_decimal_len(a);
    lemma_decimal_len(b);
    if a < 10 && b < 10 {
        assert(decimal(a) == seq![decimal_digit(a as int)]);
        assert(decimal(b) == seq![decimal_digit(b as int)]);
        assert(seq![decimal_digit(a as int)][0] == decimal_digit(a as int));
        assert(seq![decimal_digit(b as int)][0] == decimal_digit(b as int));
        assert(decimal(a)[0] == decimal(b)[0]);
        assert(decimal_digit(a as int) == decimal_digit(b as int));
        assert((48 + a) as char == (48 + b) as char);
    } else if a >= 10 && b >= 10 {
        let da = decimal(a);
        let db = decimal(b);
        assert(da.last() == db.last());
        assert(decimal_digit((a % 10) as int) == decimal_digit((b % 10) as int));
        assert((48 + a % 10) as char == (48 + b % 10) as char);
        assert(a % 10 == b % 10);
        assert(da.drop_last() =~= decimal(a / 10));
        assert(db.drop_last() =~= decimal(b / 10));
        lemma_decimal_injective(a / 10, b / 10);
        assert(a == (a / 10) * 10 + a % 10) by (nonlinear_arith);
        assert(b == (b / 10) * 10 + b % 10) by (nonlinear_arith);
    } else {
        assert(decimal(a).len() != decimal(b).len());
    }
}

/// The multiaddress text of a TCP port on an IPv4 address names the port: two ports on the same
/// address have the same text only when they are the same port.
pub proof fn law_ip4_tcp_text_port_injective(ip: [u8; 4], port_1: u16, port_2: u16)
    requires
        ip4_tcp_text(ip, port_1) == ip4_tcp_text(ip, port_2),
    ensures
        port_1 == port_2,
{
    let prefix = seq!['/', 'i', 'p', '4', '/'] + decimal(ip[0] as nat) + seq!['.'] + decimal(ip[1] as nat)
        + seq!['.'] + decimal(ip[2] as nat) + seq!['.'] + decimal(ip[3] as nat) + seq!['/', 't', 'c', 'p', '/'];
    assert(ip4_tcp_text(ip, port_1) == prefix + decimal(port_1 as nat));
    assert(ip4_tcp_text(ip, port_2) == prefix + decimal(port_2 as nat));
    assert((prefix + decimal(port_1 as nat)).skip(prefix.len() as int) =~= decimal(port_1 as nat));
    assert((prefix + decimal(port_2 as nat)).skip(prefix.len() as int) =~= decimal(port_2 as nat));
    lemma_decimal_injective(port_1 as nat, port_2 as nat);
}

/// Whether a multiaddress is that of a TCP port on an IPv4 address, and nothing more.
pub open spec fn is_ip4_tcp_address(address: Multiaddr) -> bool {
    exists|ip: [u8; 4], port: u16| multiaddr_text(address) == ip4_tcp_text(ip, port)
}

/// Convert an IPv4 address and a port into the multiaddress of that TCP port.
pub fn multi_addr(ip_address: [u8; 4], port: u16) -> (res: Multiaddr)
    ensures
        multiaddr_text(res) == ip4_tcp_text(ip_address, port),
{
    let text = multi_addr_text(ip_address, port);
    multiaddr_from_text(text.as_str())
}

} // verus!
