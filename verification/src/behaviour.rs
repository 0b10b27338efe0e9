//! The gossipsub and Kademlia parts of a peer's network behaviour.
//!
//! A peer combines Kademlia (routing), Identify, Ping and Gossipsub (publish/subscribe). The
//! functions here do what the peer does with Kademlia and Gossipsub: add or remove a peer from
//! the routing table, walk the network at random, subscribe to and unsubscribe from topics,
//! check a subscription and publish a message. The set of topics that a gossipsub behaviour is
//! subscribed to is [subscribed_topics].

use crate::constants::{HEARTBEAT_SECS, MAX_TRANSMIT_SIZE, MEGABYTES};
use crate::conversions::{is_ip4_tcp_address, multiaddr_text, peer_id_public_address};
use crate::messages::{message_encoding, topic_name, Message, MessageTopicHash, Topic};
use libp2p::gossipsub;
use libp2p::identity::ed25519::Keypair;
use libp2p::kad;
use libp2p::{Multiaddr, PeerId};
use pchain_types::cryptography::PublicAddress;
use vstd::multiset::Multiset;
use vstd::prelude::*;

verus! {

#[verifier::external_type_specification]
#[verifier::external_body]
#[verifier::reject_recursive_types(D)]
#[verifier::reject_recursive_types(F)]
pub struct ExGossipsubBehaviour<D, F>(gossipsub::Behaviour<D, F>);

#[verifier::external_type_specification]
#[verifier::external_body]
pub struct ExIdentityTransform(gossipsub::IdentityTransform);

#[verifier::external_type_specification]
#[verifier::external_body]
pub struct ExAllowAllSubscriptionFilter(gossipsub::AllowAllSubscriptionFilter);

#[verifier::external_type_specification]
#[verifier::external_body]
pub struct ExMessageId(gossipsub::MessageId);

#[verifier::external_type_specification]
#[verifier::external_body]
pub struct ExPublishError(gossipsub::PublishError);

#[verifier::external_type_specification]
#[verifier::external_body]
pub struct ExSubscriptionError(gossipsub::SubscriptionError);

#[verifier::external_type_specification]
#[verifier::external_body]
#[verifier::reject_recursive_types(TStore)]
pub struct ExKademlia<TStore>(kad::Behaviour<TStore>);

#[verifier::external_type_specification]
#[verifier::external_body]
pub struct ExMemoryStore(kad::store::MemoryStore);

/// The names of the topics that a gossipsub behaviour is subscribed to: the keys of its mesh.
pub uninterp spec fn subscribed_topics(gossip: gossipsub::Behaviour) -> Set<Seq<char>>;

/// The names of a list of topics.
pub open spec fn topic_names(topics: Seq<Topic>) -> Set<Seq<char>> {
    Set::new(|name: Seq<char>| exists|i: int| 0 <= i < topics.len() && topic_name(#[trigger] topics[i]) == name)
}

proof fn lemma_topic_names_push(topics: Seq<Topic>, topic: Topic)
    ensures
        topic_names(topics.push(topic)) == topic_names(topics).insert(topic_name(topic)),
{
    let pushed = topics.push(topic);
    assert forall|name: Seq<char>| #[trigger] topic_names(pushed).contains(name)
        implies topic_names(topics).insert(topic_name(topic)).contains(name) by {
        let j = choose|j: int| 0 <= j < pushed.len() && topic_name(#[trigger] pushed[j]) == name;
        if j < topics.len() {
            assert(pushed[j] == topics[j]);
        }
    }
    assert forall|name: Seq<char>| #[trigger] topic_names(topics).insert(topic_name(topic)).contains(name)
        implies topic_names(pushed).contains(name) by {
        if name == topic_name(topic) {
            assert(pushed[topics.len() as int] == topic);
        } else {
            let j = choose|j: int| 0 <= j < topics.len() && topic_name(#[trigger] topics[j]) == name;
            assert(pushed[j] == topics[j]);
        }
    }
    assert(topic_names(pushed) =~= topic_names(topics).insert(topic_name(topic)));
}

/// The parameters a gossipsub behaviour was made with: the target number of mesh peers per topic,
/// the largest message in bytes, the heartbeat interval in seconds, and whether published
/// messages are signed. A behaviour never changes them.
pub uninterp spec fn gossip_parameters(gossip: gossipsub::Behaviour) -> (nat, nat, nat, bool);

/// The topics and data of the messages in the message cache of a gossipsub behaviour, which
/// holds the messages it published or forwarded in its last heartbeats, one entry per message
/// id: a pair counts as often as messages with that topic and data are cached.
pub uninterp spec fn cached_messages(gossip: gossipsub::Behaviour) -> Multiset<(Seq<char>, Seq<u8>)>;

/// The target number of mesh peers per topic that a gossipsub behaviour was made with.
pub open spec fn gossip_mesh_n(gossip: gossipsub::Behaviour) -> nat {
    gossip_parameters(gossip).0
}

/// `gossipsub::Behaviour::new` with message signing by the keypair, and a configuration that
/// differs from the default in its largest transmission and its heartbeat interval.
///
/// The configuration builder refuses only a largest transmission under 100 bytes when the other
/// parameters keep their defaults (6 mesh peers per topic), and `new` refuses only a signing
/// setting that does not match the strict validation mode, which signing matches. A heartbeat of
/// zero would make the backoff storage divide by zero, hence `requires`. A new behaviour has an
/// empty mesh and an empty message cache.
#[verifier::external_body]
fn new_gossipsub(keypair: &Keypair, max_transmit_size: usize, heartbeat_secs: u64) -> (res: gossipsub::Behaviour)
    requires
        max_transmit_size >= 100,
        heartbeat_secs > 0,
    ensures
        subscribed_topics(res) == Set::<Seq<char>>::empty(),
        cached_messages(res) == Multiset::<(Seq<char>, Seq<u8>)>::empty(),
        gossip_parameters(res) == (6nat, max_transmit_size as nat, heartbeat_secs as nat, true),
{
    let config = gossipsub::ConfigBuilder::default()
        .max_transmit_size(max_transmit_size)
        .heartbeat_interval(std::time::Duration::from_secs(heartbeat_secs))
        .build()
        .unwrap();
    gossipsub::Behaviour::new(gossipsub::MessageAuthenticity::Signed(keypair.clone().into()), config)
        .unwrap()
}

/// `gossipsub::Behaviour::subscribe` to the identity topic with this name. With the default
/// subscription filter, which allows every topic, it succeeds; it reports whether the topic was
/// new. `join` puts the topic in the mesh when the behaviour targets at least one mesh peer (it
/// makes the mesh entry from fanout peers, or when it has added fewer peers than the target).
#[verifier::external_body]
fn gossip_subscribe(gossip: &mut gossipsub::Behaviour, name: String) -> (res: Result<bool, gossipsub::SubscriptionError>)
    requires
        gossip_mesh_n(*old(gossip)) > 0,
    ensures
        res == Ok::<bool, gossipsub::SubscriptionError>(!subscribed_topics(*old(gossip)).contains(name@)),
        subscribed_topics(*final(gossip)) == subscribed_topics(*old(gossip)).insert(name@),
        gossip_parameters(*final(gossip)) == gossip_parameters(*old(gossip)),
        cached_messages(*final(gossip)) == cached_messages(*old(gossip)),
{
    gossip.subscribe(&gossipsub::IdentTopic::new(name))
}

/// `gossipsub::Behaviour::unsubscribe` from the identity topic with this name. It always
/// succeeds; it reports whether the topic was subscribed, and the topic is out of the mesh
/// afterwards (`leave` removes it).
#[verifier::external_body]
fn gossip_unsubscribe(gossip: &mut gossipsub::Behaviour, name: String) -> (res: Result<bool, gossipsub::PublishError>)
    ensures
        res == Ok::<bool, gossipsub::PublishError>(subscribed_topics(*old(gossip)).contains(name@)),
        subscribed_topics(*final(gossip)) == subscribed_topics(*old(gossip)).remove(name@),
        gossip_parameters(*final(gossip)) == gossip_parameters(*old(gossip)),
        cached_messages(*final(gossip)) == cached_messages(*old(gossip)),
{
    gossip.unsubscribe(&gossipsub::IdentTopic::new(name))
}

/// `gossipsub::Behaviour::publish` of the data on the topic with this hash. Whether it succeeds
/// depends on the connected peers and is not stated. When it succeeds the message (its topic and
/// its data, which the identity transform leaves as they are) is put in the message cache once,
/// as a new entry: a signed message gets the next sequence number of the behaviour's counter, so
/// its id (source and sequence number) is new, and `MessageCache::put` adds it; when
/// it fails it returns before touching the cache. It leaves the mesh as it is (it sends to mesh
/// or fanout peers). It refuses a message whose protobuf encoding, which holds the data, is longer
/// than the largest transmission, so it refuses data longer than that.
#[verifier::external_body]
fn gossip_publish(gossip: &mut gossipsub::Behaviour, hash: String, data: Vec<u8>) -> (res: Result<
    gossipsub::MessageId,
    gossipsub::PublishError,
>)
    ensures
        data@.len() > gossip_parameters(*old(gossip)).1 ==> res is Err,
        subscribed_topics(*final(gossip)) == subscribed_topics(*old(gossip)),
        gossip_parameters(*final(gossip)) == gossip_parameters(*old(gossip)),
        res is Ok ==> cached_messages(*final(gossip)) == cached_messages(*old(gossip)).insert((hash@, data@)),
        res is Err ==> cached_messages(*final(gossip)) == cached_messages(*old(gossip)),
{
    gossip.publish(gossipsub::TopicHash::from_raw(hash), data)
}

/// `gossipsub::Behaviour::topics`, each hash taken as its string, in the order of the mesh.
#[verifier::external_body]
fn gossip_topic_names(gossip: &gossipsub::Behaviour) -> (res: Vec<String>)
    ensures
        forall|i: int| 0 <= i < res.len() ==> subscribed_topics(*gossip).contains(#[trigger] res@[i]@),
        forall|name: Seq<char>|
            subscribed_topics(*gossip).contains(name) ==> exists|i: int| 0 <= i < res.len() && (#[trigger] res@[i])@ == name,
{
    gossip.topics().map(|t| t.as_str().to_string()).collect()
}

/// The entries of the routing table of a Kademlia behaviour: each peer in its buckets (not those
/// pending insertion), with the texts of its addresses, each taken without the final `/p2p`
/// component that `add_address` appends. The local peer is never among them: its key falls in no
/// bucket.
pub uninterp spec fn routing_entries(kad: kad::Behaviour<kad::store::MemoryStore>) -> Map<PeerId, Set<Seq<char>>>;

/// The peers in the routing table of a Kademlia behaviour.
pub open spec fn routing_table(kad: kad::Behaviour<kad::store::MemoryStore>) -> Set<PeerId> {
    routing_entries(kad).dom()
}

/// Whether the bucket of the routing table where the key of this peer falls holds an entry
/// pending insertion (false for the local peer, whose key falls in no bucket).
pub uninterp spec fn bucket_pending(kad: kad::Behaviour<kad::store::MemoryStore>, peer: PeerId) -> bool;

/// Whether the bucket of the routing table where the key of this peer falls is full (false for
/// the local peer, whose key falls in no bucket).
pub uninterp spec fn bucket_full(kad: kad::Behaviour<kad::store::MemoryStore>, peer: PeerId) -> bool;

/// The peers that a Kademlia behaviour knows to be connected.
pub uninterp spec fn kad_connected(kad: kad::Behaviour<kad::store::MemoryStore>) -> Set<PeerId>;

/// The peer id a Kademlia behaviour was made for.
pub uninterp spec fn kad_local_peer(kad: kad::Behaviour<kad::store::MemoryStore>) -> PeerId;

/// The settings a Kademlia behaviour was made with: its protocol names, whether it runs in
/// server mode, and whether it leaves the records and provider records of other peers to the
/// application (`StoreInserts::FilterBoth`).
pub uninterp spec fn kad_settings(kad: kad::Behaviour<kad::store::MemoryStore>) -> (Seq<Seq<char>>, bool, bool);

/// The number of closest-peers queries that a Kademlia behaviour is running.
pub open spec fn ongoing_queries(kad: kad::Behaviour<kad::store::MemoryStore>) -> nat {
    query_targets(kad).len()
}

/// The peer ids for which a Kademlia behaviour runs closest-peers queries, one per query.
pub uninterp spec fn query_targets(kad: kad::Behaviour<kad::store::MemoryStore>) -> Multiset<PeerId>;

/// The base-2 logarithm of the Kademlia distance between two peers (`None` for distance zero).
pub uninterp spec fn kbucket_distance_log2(peer_1: PeerId, peer_2: PeerId) -> Option<u32>;

/// `KBucketKey::distance` of the keys of two peer ids, then `Distance::ilog2`: the result named
/// [kbucket_distance_log2]. The distance is the exclusive or of the SHA-256 digests of the two
/// peer ids, so it does not depend on their order, it is a 256-bit number whose logarithm is
/// below 256, and it is zero, with no logarithm, between a peer id and itself. The routing table
/// puts a peer in the bucket with this logarithm as its index, and no peer at distance zero.
#[verifier::external_body]
pub(crate) fn kbucket_distance_ilog2(peer_1: &PeerId, peer_2: &PeerId) -> (res: Option<u32>)
    ensures
        res == kbucket_distance_log2(*peer_1, *peer_2),
        res == kbucket_distance_log2(*peer_2, *peer_1),
        res matches Some(d) ==> d < 256,
        *peer_1 == *peer_2 ==> res is None,
{
    let key_1 = kad::KBucketKey::from(*peer_1);
    let key_2 = kad::KBucketKey::from(*peer_2);
    kad::KBucketKey::distance(&key_1, &key_2).ilog2()
}

/// The mode a Kademlia behaviour runs in.
pub enum KademliaMode {
    Client,
    Server,
}

/// Which records from other peers a Kademlia behaviour stores by itself.
pub enum RecordFiltering {
    Unfiltered,
    FilterBoth,
}

/// `kad::Behaviour::with_config` for this peer id, with a memory store, the protocol name as its
/// only protocol name and the record filtering, then `set_mode` with the mode.
/// `StreamProtocol::try_from_owned` refuses only a name that does not start with `/`, hence
/// `requires`. A new behaviour has an empty routing table with no pending entry, knows of no
/// connected peer and runs no query.
#[verifier::external_body]
fn new_kademlia(
    peer_id: PeerId,
    protocol_name: String,
    mode: KademliaMode,
    filtering: RecordFiltering,
) -> (res: kad::Behaviour<kad::store::MemoryStore>)
    requires
        protocol_name@.len() > 0,
        protocol_name@[0] == '/',
    ensures
        routing_table(res) == Set::<PeerId>::empty(),
        routing_entries(res).dom() == Set::<PeerId>::empty(),
        forall|q: PeerId| !bucket_pending(res, q) && !bucket_full(res, q),
        kad_connected(res) == Set::<PeerId>::empty(),
        kad_local_peer(res) == peer_id,
        kad_settings(res) == (seq![protocol_name@], mode is Server, filtering is FilterBoth),
        ongoing_queries(res) == 0,
        query_targets(res) == Multiset::<PeerId>::empty(),
{
    let protocol_name = libp2p::StreamProtocol::try_from_owned(protocol_name).unwrap();
    let filtering = match filtering {
        RecordFiltering::Unfiltered => kad::StoreInserts::Unfiltered,
        RecordFiltering::FilterBoth => kad::StoreInserts::FilterBoth,
    };
    let config = kad::Config::default().set_protocol_names(vec![protocol_name]).set_record_filtering(filtering).to_owned();
    let mut kad = kad::Behaviour::with_config(peer_id, kad::store::MemoryStore::new(peer_id), config);
    kad.set_mode(Some(match mode {
        KademliaMode::Client => kad::Mode::Client,
        KademliaMode::Server => kad::Mode::Server,
    }));
    kad
}

/// `kad::Behaviour::add_address`, reporting whether the routing update is a success.
///
/// The address gets the peer's `/p2p` suffix, which an IPv4 TCP address takes. The routing table
/// looks the peer's bucket up (and, when the update adds something, once more), and each lookup
/// first applies the bucket's pending entry if its timer has run out, which can evict a peer of
/// that bucket. What is stated of the routing table therefore holds when that bucket has no
/// pending entry: then no peer leaves the table, only this peer can join it, a reported success
/// means the peer is in it, and the update succeeds when the peer is present already or its
/// bucket has room (and it is not the local peer), and fails for an absent peer whose bucket is
/// full (the peer is then left pending, or refused). A successful update keeps the addresses the
/// peer had and adds this one (a new entry holds this address alone), and a failed one changes
/// no entry. A new pending entry is made only for a connected peer whose bucket is full. Without
/// a pending entry to apply, a full bucket stays full. It starts no query and leaves the
/// connected peers and the local peer id as they are.
#[verifier::external_body]
fn kad_add_address(kad: &mut kad::Behaviour<kad::store::MemoryStore>, peer: &PeerId, address: Multiaddr) -> (res: bool)
    ensures
        kad_add_address_effect(*old(kad), *final(kad), *peer, address, res),
{
    match kad.add_address(peer, address) {
        kad::RoutingUpdate::Success => true,
        kad::RoutingUpdate::Pending => false,
        kad::RoutingUpdate::Failed => false,
    }
}

/// What `add_address` of the address of a peer does to a Kademlia behaviour `before`, giving
/// `after` and the report `success`.
pub open spec fn kad_add_address_effect(
    before: kad::Behaviour<kad::store::MemoryStore>,
    after: kad::Behaviour<kad::store::MemoryStore>,
    peer: PeerId,
    address: Multiaddr,
    success: bool,
) -> bool {
    &&& ongoing_queries(after) == ongoing_queries(before)
    &&& query_targets(after) == query_targets(before)
    &&& kad_connected(after) == kad_connected(before)
    &&& kad_local_peer(after) == kad_local_peer(before)
    &&& forall|q: PeerId| bucket_full(before, q) ==> #[trigger] bucket_full(after, q)
    &&& !bucket_pending(before, peer) ==> {
        &&& routing_table(after).remove(peer) == routing_table(before).remove(peer)
        &&& routing_entries(after).remove(peer) == routing_entries(before).remove(peer)
        &&& routing_table(before).contains(peer) ==> routing_table(after).contains(peer)
        &&& success ==> routing_table(after).contains(peer)
        &&& !routing_table(before).contains(peer) && bucket_full(before, peer) ==> !success
        &&& !success ==> routing_entries(after) == routing_entries(before)
        &&& success && routing_table(before).contains(peer) ==> routing_entries(before)[peer].subset_of(
            routing_entries(after)[peer],
        )
        &&& success && is_ip4_tcp_address(address) ==> routing_entries(after)[peer] == (if routing_table(
            before,
        ).contains(peer) {
            routing_entries(before)[peer].insert(multiaddr_text(address))
        } else {
            set![multiaddr_text(address)]
        })
        &&& is_ip4_tcp_address(address) && kbucket_distance_log2(peer, kad_local_peer(before)) is Some
            && (routing_table(before).contains(peer) || !bucket_full(before, peer)) ==> success
        &&& bucket_pending(after, peer) ==> bucket_full(after, peer)
        &&& (!kad_connected(before).contains(peer) || routing_table(after).contains(peer)) ==> forall|q: PeerId|
            #[trigger] bucket_pending(after, q) == bucket_pending(before, q)
    }
}

/// `kad::Behaviour::remove_peer`: the peer's entry, present or pending, is removed, so the peer is
/// not in the routing table afterwards; the removed entry is dropped. The lookup of the peer's
/// bucket first applies the bucket's pending entry if its timer has run out; when the bucket has
/// no pending entry, the other peers stay. It starts no query and leaves the connected peers and
/// the local peer id as they are.
#[verifier::external_body]
fn kad_remove_peer(kad: &mut kad::Behaviour<kad::store::MemoryStore>, peer: &PeerId)
    ensures
        !routing_table(*final(kad)).contains(*peer),
        !bucket_pending(*old(kad), *peer) ==> routing_table(*final(kad)) == routing_table(*old(kad)).remove(*peer),
        !bucket_pending(*old(kad), *peer) ==> routing_entries(*final(kad)) == routing_entries(*old(kad)).remove(
            *peer,
        ),
        ongoing_queries(*final(kad)) == ongoing_queries(*old(kad)),
        query_targets(*final(kad)) == query_targets(*old(kad)),
        kad_connected(*final(kad)) == kad_connected(*old(kad)),
        kad_local_peer(*final(kad)) == kad_local_peer(*old(kad)),
{
    let _ = kad.remove_peer(peer);
}

/// `PeerId::random`: the identity multihash of 32 random bytes. Nothing is stated of the bytes;
/// 32 bytes are too few for the protobuf encoding of an Ed25519 key (36 bytes), so the peer id
/// holds no Ed25519 key and has no public address.
#[verifier::external_body]
fn random_peer_id() -> (res: PeerId)
    ensures
        peer_id_public_address(res) is None,
{
    PeerId::random()
}

/// `kad::Behaviour::get_closest_peers` of the key: it adds one query to the pool of running
/// queries; the query id is dropped. It leaves the connected peers and the local peer id as they
/// are.
#[verifier::external_body]
fn kad_get_closest_peers(kad: &mut kad::Behaviour<kad::store::MemoryStore>, key: PeerId)
    ensures
        ongoing_queries(*final(kad)) == ongoing_queries(*old(kad)) + 1,
        query_targets(*final(kad)) == query_targets(*old(kad)).insert(key),
        kad_connected(*final(kad)) == kad_connected(*old(kad)),
        kad_local_peer(*final(kad)) == kad_local_peer(*old(kad)),
{
    let _ = kad.get_closest_peers(key);
}

/// The Kademlia behaviour of a peer with this peer id: it uses the protocol name, leaves the
/// records of other peers to the application, and runs as a server. The protocol name must start
/// with `/`.
pub fn kad_config(peer_id: PeerId, protocol_name: String) -> (res: kad::Behaviour<kad::store::MemoryStore>)
    requires
        protocol_name@.len() > 0,
        protocol_name@[0] == '/',
    ensures
        kad_settings(res) == (seq![protocol_name@], true, true),
        kad_local_peer(res) == peer_id,
        routing_table(res) == Set::<PeerId>::empty(),
        routing_entries(res).dom() == Set::<PeerId>::empty(),
        forall|q: PeerId| !bucket_pending(res, q) && !bucket_full(res, q),
        kad_connected(res) == Set::<PeerId>::empty(),
        ongoing_queries(res) == 0,
{
    new_kademlia(peer_id, protocol_name, KademliaMode::Server, RecordFiltering::FilterBoth)
}

/// The gossipsub behaviour of a peer with this keypair and public address: messages are signed,
/// messages of up to 4 MB are sent, the heartbeat is every 10 seconds, and the peer is subscribed
/// to its own mailbox topic and no other.
pub fn new_gossip(keypair: &Keypair, id: PublicAddress) -> (res: gossipsub::Behaviour)
    ensures
        subscribed_topics(res) == set![topic_name(Topic::HotStuffRsSend(id))],
        gossip_parameters(res) == (6nat, 4194304nat, 10nat, true),
        cached_messages(res) == Multiset::<(Seq<char>, Seq<u8>)>::empty(),
{
    let mut gossip = new_gossipsub(keypair, MAX_TRANSMIT_SIZE * MEGABYTES, HEARTBEAT_SECS);
    let _ = gossip_subscribe(&mut gossip, Topic::HotStuffRsSend(id).name());
    assert(Set::<Seq<char>>::empty().insert(topic_name(Topic::HotStuffRsSend(id))) =~= set![
        topic_name(Topic::HotStuffRsSend(id)),
    ]);
    gossip
}

/// Add the address of a peer to the routing table, reporting whether the routing update
/// succeeded ([kad_add_address_effect] says what it does).
pub fn add_address(kad: &mut kad::Behaviour<kad::store::MemoryStore>, peer: &PeerId, address: Multiaddr) -> (res: bool)
    ensures
        kad_add_address_effect(*old(kad), *final(kad), *peer, address, res),
{
    kad_add_address(kad, peer, address)
}

/// Remove a peer from the routing table: afterwards it is not in it, and when its bucket has no
/// pending entry the other peers stay.
pub fn remove_peer(kad: &mut kad::Behaviour<kad::store::MemoryStore>, peer: &PeerId)
    ensures
        !routing_table(*final(kad)).contains(*peer),
        !bucket_pending(*old(kad), *peer) ==> routing_table(*final(kad)) == routing_table(*old(kad)).remove(*peer),
        !bucket_pending(*old(kad), *peer) ==> routing_entries(*final(kad)) == routing_entries(*old(kad)).remove(
            *peer,
        ),
        ongoing_queries(*final(kad)) == ongoing_queries(*old(kad)),
        kad_connected(*final(kad)) == kad_connected(*old(kad)),
        kad_local_peer(*final(kad)) == kad_local_peer(*old(kad)),
{
    kad_remove_peer(kad, peer);
}

/// Query the network with a random peer id to discover peers: whatever the peer id drawn, one
/// more closest-peers query runs.
pub fn random_walk(kad: &mut kad::Behaviour<kad::store::MemoryStore>)
    ensures
        ongoing_queries(*final(kad)) == ongoing_queries(*old(kad)) + 1,
        exists|key: PeerId|
            query_targets(*final(kad)) == query_targets(*old(kad)).insert(key) && peer_id_public_address(key) is None,
        kad_connected(*final(kad)) == kad_connected(*old(kad)),
        kad_local_peer(*final(kad)) == kad_local_peer(*old(kad)),
{
    let key = random_peer_id();
    kad_get_closest_peers(kad, key);
}

/// Subscribe to each of the topics. Subscribing always succeeds; afterwards the peer is
/// subscribed to the topics it was subscribed to and to these.
pub fn subscribe(gossip: &mut gossipsub::Behaviour, topics: Vec<Topic>) -> (res: Result<(), gossipsub::SubscriptionError>)
    requires
        gossip_mesh_n(*old(gossip)) > 0,
    ensures
        res is Ok,
        subscribed_topics(*final(gossip)) == subscribed_topics(*old(gossip)).union(topic_names(topics@)),
        gossip_parameters(*final(gossip)) == gossip_parameters(*old(gossip)),
        cached_messages(*final(gossip)) == cached_messages(*old(gossip)),
{
    let mut i: usize = 0;
    while i < topics.len()
        invariant
            0 <= i <= topics.len(),
            subscribed_topics(*gossip) == subscribed_topics(*old(gossip)).union(topic_names(topics@.take(i as int))),
            gossip_parameters(*gossip) == gossip_parameters(*old(gossip)),
            cached_messages(*gossip) == cached_messages(*old(gossip)),
            gossip_mesh_n(*old(gossip)) > 0,
        decreases topics.len() - i,
    {
        let topic = topics[i];
        let _ = gossip_subscribe(gossip, topic.name());
        proof {
            assert(topics@.take(i + 1) =~= topics@.take(i as int).push(topic));
            lemma_topic_names_push(topics@.take(i as int), topic);
            assert(subscribed_topics(*gossip) =~= subscribed_topics(*old(gossip)).union(topic_names(topics@.take(i + 1))));
        }
        i = i + 1;
    }
    assert(topics@.take(topics.len() as int) =~= topics@);
    Ok(())
}

/// Unsubscribe from each of the topics. Unsubscribing always succeeds; afterwards the peer is
/// subscribed to the topics it was subscribed to, but these.
pub fn unsubscribe(gossip: &mut gossipsub::Behaviour, topics: Vec<Topic>) -> (res: Result<(), gossipsub::PublishError>)
    ensures
        res is Ok,
        subscribed_topics(*final(gossip)) == subscribed_topics(*old(gossip)).difference(topic_names(topics@)),
        gossip_parameters(*final(gossip)) == gossip_parameters(*old(gossip)),
        cached_messages(*final(gossip)) == cached_messages(*old(gossip)),
{
    let mut i: usize = 0;
    while i < topics.len()
        invariant
            0 <= i <= topics.len(),
            subscribed_topics(*gossip) == subscribed_topics(*old(gossip)).difference(topic_names(topics@.take(i as int))),
            gossip_parameters(*gossip) == gossip_parameters(*old(gossip)),
            cached_messages(*gossip) == cached_messages(*old(gossip)),
        decreases topics.len() - i,
    {
        let topic = topics[i];
        let _ = gossip_unsubscribe(gossip, topic.name());
        proof {
            assert(topics@.take(i + 1) =~= topics@.take(i as int).push(topic));
            lemma_topic_names_push(topics@.take(i as int), topic);
            assert(subscribed_topics(*gossip) =~= subscribed_topics(*old(gossip)).difference(topic_names(topics@.take(i + 1))));
        }
        i = i + 1;
    }
    assert(topics@.take(topics.len() as int) =~= topics@);
    Ok(())
}

/// Publish a message to the peers subscribed to the topic: gossipsub is handed the topic's name
/// and the message's encoding. Whether that succeeds depends on the connected peers; when it
/// does, that topic and those bytes join the message cache, and when it does not the cache stays
/// as it is. An encoding longer than the largest transmission is refused. The subscriptions of
/// this peer stay as they are.
pub fn publish(gossip: &mut gossipsub::Behaviour, topic: Topic, msg: Message) -> (res: Result<
    gossipsub::MessageId,
    gossipsub::PublishError,
>)
    ensures
        subscribed_topics(*final(gossip)) == subscribed_topics(*old(gossip)),
        gossip_parameters(*final(gossip)) == gossip_parameters(*old(gossip)),
        res is Ok ==> cached_messages(*final(gossip)) == cached_messages(*old(gossip)).insert(
            (topic_name(topic), message_encoding(msg)),
        ),
        res is Err ==> cached_messages(*final(gossip)) == cached_messages(*old(gossip)),
        message_encoding(msg).len() > gossip_parameters(*old(gossip)).1 ==> res is Err,
{
    let hash = topic.hash();
    let data: Vec<u8> = msg.into();
    gossip_publish(gossip, hash.as_str().to_string(), data)
}

/// Whether the peer is subscribed to the topic with this hash.
pub fn is_subscribed(gossip: &gossipsub::Behaviour, topic_hash: &MessageTopicHash) -> (res: bool)
    ensures
        res == subscribed_topics(*gossip).contains(topic_hash@),
{
    let names = gossip_topic_names(gossip);
    let mut i: usize = 0;
    while i < names.len()
        invariant
            0 <= i <= names.len(),
            forall|j: int| 0 <= j < names.len() ==> subscribed_topics(*gossip).contains(#[trigger] names@[j]@),
            forall|name: Seq<char>|
                subscribed_topics(*gossip).contains(name) ==> exists|j: int| 0 <= j < names.len() && (#[trigger] names@[j])@ == name,
            forall|j: int| 0 <= j < i ==> (#[trigger] names@[j])@ != topic_hash@,
        decreases names.len() - i,
    {
        if topic_hash.is_named(&names[i]) {
            return true;
        }
        i = i + 1;
    }
    false
}

/// After subscribing to a list of topics, the peer is subscribed to each of them.
pub proof fn law_subscribed_after_subscribe(before: Set<Seq<char>>, topics: Seq<Topic>, i: int)
    requires
        0 <= i < topics.len(),
    ensures
        before.union(topic_names(topics)).contains(topic_name(topics[i])),
{
    assert(topic_names(topics).contains(topic_name(topics[i])));
}

/// After unsubscribing from a list of topics, the peer is subscribed to none of them.
pub proof fn law_unsubscribed_after_unsubscribe(before: Set<Seq<char>>, topics: Seq<Topic>, i: int)
    requires
        0 <= i < topics.len(),
    ensures
        !before.difference(topic_names(topics)).contains(topic_name(topics[i])),
{
    assert(topic_names(topics).contains(topic_name(topics[i])));
}

/// Unsubscribing from a list of topics undoes subscribing to it, when the peer was subscribed to
/// none of them before.
pub proof fn law_unsubscribe_undoes_subscribe(before: Set<Seq<char>>, topics: Seq<Topic>)
    requires
        forall|i: int| 0 <= i < topics.len() ==> !before.contains(topic_name(#[trigger] topics[i])),
    ensures
        before.union(topic_names(topics)).difference(topic_names(topics)) == before,
{
    assert(before.union(topic_names(topics)).difference(topic_names(topics)) =~= before);
}

/// Subscribing to topics the peer is already subscribed to changes nothing.
pub proof fn law_subscribe_idempotent(before: Set<Seq<char>>, topics: Seq<Topic>)
    ensures
        before.union(topic_names(topics)).union(topic_names(topics)) == before.union(topic_names(topics)),
{
    assert(before.union(topic_names(topics)).union(topic_names(topics)) =~= before.union(topic_names(topics)));
}

/// Adding an IPv4 TCP address of a peer that is not the local peer, to a bucket with no pending
/// entry where the peer is present or for which there is room, succeeds; afterwards the peer's
/// entry holds exactly the addresses it held and this one, and no other entry changes.
pub proof fn law_added_address_recorded(
    before: kad::Behaviour<kad::store::MemoryStore>,
    after: kad::Behaviour<kad::store::MemoryStore>,
    peer: PeerId,
    address: Multiaddr,
    success: bool,
)
    requires
        kad_add_address_effect(before, after, peer, address, success),
        !bucket_pending(before, peer),
        is_ip4_tcp_address(address),
        kbucket_distance_log2(peer, kad_local_peer(before)) is Some,
        routing_table(before).contains(peer) || !bucket_full(before, peer),
    ensures
        success,
        routing_entries(after).contains_key(peer),
        routing_entries(after)[peer].contains(multiaddr_text(address)),
        routing_entries(before).contains_key(peer) ==> routing_entries(after)[peer]
            == routing_entries(before)[peer].insert(multiaddr_text(address)),
        !routing_entries(before).contains_key(peer) ==> routing_entries(after)[peer] == set![multiaddr_text(address)],
        forall|q: PeerId| q != peer ==> routing_entries(after).contains_key(q) == routing_entries(before).contains_key(q),
        forall|q: PeerId|
            q != peer && routing_entries(before).contains_key(q) ==> routing_entries(after)[q] == routing_entries(before)[q],
{
    assert forall|q: PeerId| q != peer implies routing_entries(after).contains_key(q) == routing_entries(
        before,
    ).contains_key(q) by {
        assert(routing_entries(after).remove(peer).contains_key(q) == routing_entries(after).contains_key(q));
        assert(routing_entries(before).remove(peer).contains_key(q) == routing_entries(before).contains_key(q));
    }
    assert forall|q: PeerId| q != peer && routing_entries(before).contains_key(q) implies routing_entries(after)[q]
        == routing_entries(before)[q] by {
        assert(routing_entries(after).remove(peer)[q] == routing_entries(after)[q]);
        assert(routing_entries(before).remove(peer)[q] == routing_entries(before)[q]);
    }
}

/// Adding the same IPv4 TCP address of a peer twice, to a bucket with no pending entry, leaves the
/// routing table as the first addition left it.
pub proof fn law_add_address_twice(
    first: kad::Behaviour<kad::store::MemoryStore>,
    second: kad::Behaviour<kad::store::MemoryStore>,
    third: kad::Behaviour<kad::store::MemoryStore>,
    peer: PeerId,
    address: Multiaddr,
    success_1: bool,
    success_2: bool,
)
    requires
        kad_add_address_effect(first, second, peer, address, success_1),
        kad_add_address_effect(second, third, peer, address, success_2),
        !bucket_pending(first, peer),
        !bucket_pending(second, peer),
        is_ip4_tcp_address(address),
        kbucket_distance_log2(peer, kad_local_peer(first)) is Some,
        routing_table(first).contains(peer) || !bucket_full(first, peer),
    ensures
        success_1 && success_2,
        routing_entries(third) == routing_entries(second),
{
    assert(routing_entries(third)[peer] =~= routing_entries(second)[peer]);
    assert(routing_entries(third) =~= routing_entries(second).remove(peer).insert(peer, routing_entries(third)[peer]));
    assert(routing_entries(second) =~= routing_entries(second).remove(peer).insert(peer, routing_entries(second)[peer]));
}

/// A publication that gossipsub accepts adds exactly one message with its topic and data to the
/// message cache: that pair counts once more, and every other pair as often as before. Two
/// accepted publications of the same message add it twice.
pub proof fn law_publish_adds_one(
    before: Multiset<(Seq<char>, Seq<u8>)>,
    topic: Topic,
    msg: Message,
    other: (Seq<char>, Seq<u8>),
)
    requires
        other != (topic_name(topic), message_encoding(msg)),
    ensures
        before.insert((topic_name(topic), message_encoding(msg))).count((topic_name(topic), message_encoding(msg)))
            == before.count((topic_name(topic), message_encoding(msg))) + 1,
        before.insert((topic_name(topic), message_encoding(msg))).count(other) == before.count(other),
        before.insert((topic_name(topic), message_encoding(msg))).insert((topic_name(topic), message_encoding(msg)))
            != before.insert((topic_name(topic), message_encoding(msg))),
{
    let pair = (topic_name(topic), message_encoding(msg));
    let once = before.insert(pair);
    assert(once.insert(pair).count(pair) == once.count(pair) + 1);
}

/// Random walks never aim at a known peer: a walk adds one closest-peers query whose target has
/// no public address, so after any number of walks the queries aimed at a peer id with a public
/// address (such as that of any Ed25519 key) are as many as before, and there is one more query
/// per walk.
pub proof fn law_random_walks_target_no_known_peer(
    before: Multiset<PeerId>,
    middle: Multiset<PeerId>,
    after: Multiset<PeerId>,
    key_1: PeerId,
    key_2: PeerId,
    known: PeerId,
)
    requires
        middle == before.insert(key_1),
        after == middle.insert(key_2),
        peer_id_public_address(key_1) is None,
        peer_id_public_address(key_2) is None,
        peer_id_public_address(known) is Some,
    ensures
        after.count(known) == before.count(known),
        after.len() == before.len() + 2,
{
}

} // verus!
