//! The decisions of a peer's event loop.
//!
//! A peer waits for commands from the application, for events of the network and for the tick of
//! peer discovery. The functions here decide what each of them does to the routing table and to
//! the subscriptions of the peer, and which message, if any, goes to the application's handler:
//!
//! - A [PeerCommand::Publish] is delivered to this peer's own handler when its topic is the
//!   peer's own mailbox, and published to the network in any case; [PeerCommand::Shutdown] ends
//!   the loop.
//! - A gossipsub message goes to the handler when its source has a public address, the peer is
//!   subscribed to its topic, and its data decode as a [Message] of one of the topics the peer
//!   accepts ([filter_gossipsub_messages]).
//! - When a peer identifies itself, its listen addresses go to the routing table, and this peer
//!   subscribes to that peer's mailbox topic if that peer is close in the Kademlia key space.
//! - When a connection to a peer closes, the peer leaves the routing table and this peer
//!   unsubscribes from its mailbox topic.
//! - At each discovery tick the peer queries the network for a random peer id.

use crate::behaviour::{
    self, bucket_full, bucket_pending, cached_messages, gossip_mesh_n, gossip_parameters,
    kad_connected, kad_local_peer, kbucket_distance_log2, ongoing_queries, query_targets, routing_entries, routing_table,
    subscribed_topics,
    topic_names,
};
use crate::config::{accepted_topic, Config};
use crate::conversions::{
    self, accepted_kind, ed25519_peer_id, ed25519_public_key_valid, filter_gossipsub_messages, is_ip4_tcp_address,
    multiaddr_text, ip4_tcp_text,
    peer_id_public_address,
};
use crate::messages::{
    hotstuff_message_decodes, hotstuff_message_decoded, is_encoding_of, law_topic_names_distinct, message_encoding,
    topic_name, transaction_decodes, transaction_decoded, Message, MessageTopicHash, Topic,
};
use libp2p::gossipsub;
use libp2p::kad;
use libp2p::{Multiaddr, PeerId};
use pchain_types::cryptography::PublicAddress;
use vstd::prelude::*;

verus! {

/// Largest base-2 logarithm of the Kademlia distance to a peer whose mailbox topic this peer
/// follows, exclusive.
pub const MAX_REPLICA_DISTANCE: u32 = 255;

/// Commands to the event loop: publish a message on a topic, or shut the loop down.
pub enum PeerCommand {
    Publish(Topic, Message),
    Shutdown,
}

/// What the event loop does after a command: go on after publishing a message, possibly handing
/// it with its origin to the handler first, with what gossipsub answered to the publication; or
/// stop.
pub enum CommandOutcome {
    Continue(Option<(PublicAddress, Message)>, Result<gossipsub::MessageId, gossipsub::PublishError>),
    Stop,
}

/// What a published message does at the publishing peer: it goes to the peer's own handler, with
/// the peer as origin, exactly when it is published on the peer's own mailbox topic.
pub open spec fn self_delivery(
    local: PublicAddress,
    topic: Topic,
    message: Message,
) -> Option<(PublicAddress, Message)> {
    if topic == Topic::HotStuffRsSend(local) {
        Some((local, message))
    } else {
        None
    }
}

/// Handle a command from the application. A published message is handed to gossipsub with the
/// topic's name and the message's encoding, and gossipsub's answer is returned: when gossipsub
/// accepts it, that pair joins its message cache; a message longer than gossipsub's largest
/// transmission is refused. Whether gossipsub accepts a message otherwise depends on the
/// connected peers.
pub fn handle_command(
    gossip: &mut gossipsub::Behaviour,
    local_public_address: PublicAddress,
    command: PeerCommand,
) -> (res: CommandOutcome)
    ensures
        subscribed_topics(*final(gossip)) == subscribed_topics(*old(gossip)),
        gossip_parameters(*final(gossip)) == gossip_parameters(*old(gossip)),
        match command {
            PeerCommand::Publish(topic, message) => res matches CommandOutcome::Continue(delivery, published) && {
                &&& delivery == self_delivery(local_public_address, topic, message)
                &&& published is Ok ==> cached_messages(*final(gossip)) == cached_messages(*old(gossip)).insert(
                    (topic_name(topic), message_encoding(message)),
                )
                &&& published is Err ==> cached_messages(*final(gossip)) == cached_messages(*old(gossip))
                &&& message_encoding(message).len() > gossip_parameters(*old(gossip)).1 ==> published is Err
            },
            PeerCommand::Shutdown => {
                &&& res is Stop
                &&& cached_messages(*final(gossip)) == cached_messages(*old(gossip))
            },
        },
{
    match command {
        PeerCommand::Publish(topic, message) => {
            let own_mailbox = Topic::HotStuffRsSend(local_public_address);
            let delivery = if topic.hash().same_as(&own_mailbox.hash()) {
                proof {
                    law_topic_names_distinct(topic, own_mailbox);
                }
                Some((local_public_address, message.clone()))
            } else {
                None
            };
            let published = behaviour::publish(gossip, topic, message);
            CommandOutcome::Continue(delivery, published)
        },
        PeerCommand::Shutdown => CommandOutcome::Stop,
    }
}

/// Whether a gossipsub message goes to the handler: it has a source with a public address, the
/// peer is subscribed to its topic, and its data decode as a message of an accepted topic.
pub open spec fn gossip_delivered(
    subscribed: Set<Seq<char>>,
    local: PublicAddress,
    source: Option<PublicAddress>,
    topic: Seq<char>,
    data: Seq<u8>,
) -> bool {
    &&& source is Some
    &&& subscribed.contains(topic)
    &&& match accepted_kind(topic, local) {
        None => false,
        Some(true) => hotstuff_message_decodes(data),
        Some(false) => transaction_decodes(data),
    }
}

/// The message that a peer with the public address `local` receives in a gossipsub message with
/// the topic named `topic` and these data: a transaction decoded from the data on the mempool
/// topic, a consensus message decoded from the data on the other topics.
pub open spec fn received_message(topic: Seq<char>, local: PublicAddress, data: Seq<u8>) -> Message {
    if accepted_kind(topic, local) == Some(false) {
        Message::Mempool(transaction_decoded(data))
    } else {
        Message::HotStuffRs(hotstuff_message_decoded(data))
    }
}

/// Decide on a gossipsub message whose source has the public address `source` (`None` when the
/// message has no source, or the source's peer id holds no Ed25519 key).
pub fn accept_gossip_message(
    gossip: &gossipsub::Behaviour,
    local_public_address: PublicAddress,
    source: Option<PublicAddress>,
    topic_hash: &MessageTopicHash,
    data: &[u8],
) -> (res: Option<(PublicAddress, Message)>)
    ensures
        res is Some <==> gossip_delivered(
            subscribed_topics(*gossip),
            local_public_address,
            source,
            topic_hash@,
            data@,
        ),
        res matches Some((origin, message)) ==> {
            &&& Some(origin) == source
            &&& message == received_message(topic_hash@, local_public_address, data@)
        },
{
    match source {
        None => None,
        Some(origin) => {
            if behaviour::is_subscribed(gossip, topic_hash) {
                match filter_gossipsub_messages(topic_hash, data, local_public_address) {
                    Ok(message) => Some((origin, message)),
                    Err(_) => None,
                }
            } else {
                None
            }
        },
    }
}

/// The public address of a peer id, if it holds an Ed25519 key.
fn public_address_of(peer_id: PeerId) -> (res: Option<PublicAddress>)
    ensures
        res == peer_id_public_address(peer_id),
        res matches Some(addr) ==> ed25519_public_key_valid(addr@),
{
    match conversions::PublicAddress::try_from(peer_id) {
        Ok(addr) => Some(addr.into()),
        Err(_) => None,
    }
}

/// The public address of the source of a gossipsub message, if it has a source whose peer id
/// holds an Ed25519 key.
pub open spec fn source_address(source: Option<PeerId>) -> Option<PublicAddress> {
    match source {
        Some(peer_id) => peer_id_public_address(peer_id),
        None => None,
    }
}

/// Handle a gossipsub message from the peer `source`: it goes to the handler, with the source's
/// public address as origin, exactly when [gossip_delivered] says so.
pub fn handle_gossip_message(
    gossip: &gossipsub::Behaviour,
    local_public_address: PublicAddress,
    source: Option<PeerId>,
    topic_hash: &MessageTopicHash,
    data: &[u8],
) -> (res: Option<(PublicAddress, Message)>)
    ensures
        res is Some <==> gossip_delivered(
            subscribed_topics(*gossip),
            local_public_address,
            source_address(source),
            topic_hash@,
            data@,
        ),
        res matches Some((origin, message)) ==> {
            &&& Some(origin) == source_address(source)
            &&& message == received_message(topic_hash@, local_public_address, data@)
        },
{
    let source_address = match source {
        None => None,
        Some(peer_id) => public_address_of(peer_id),
    };
    accept_gossip_message(gossip, local_public_address, source_address, topic_hash, data)
}

/// The subscriptions after following the mailbox topic of a replica: the replica's mailbox is
/// added when the replica has a public address and is close.
pub open spec fn followed(subscribed: Set<Seq<char>>, replica: Option<PublicAddress>, close: bool) -> Set<Seq<char>> {
    match replica {
        Some(addr) => if close {
            subscribed.insert(topic_name(Topic::HotStuffRsSend(addr)))
        } else {
            subscribed
        },
        None => subscribed,
    }
}

/// The subscriptions after leaving the mailbox topic of a replica with this public address.
pub open spec fn unfollowed(subscribed: Set<Seq<char>>, replica: Option<PublicAddress>) -> Set<Seq<char>> {
    match replica {
        Some(addr) => subscribed.remove(topic_name(Topic::HotStuffRsSend(addr))),
        None => subscribed,
    }
}

/// Subscribe to the mailbox topic of a replica with public address `replica` (`None` when its
/// peer id holds no Ed25519 key) when it is not subscribed yet and the replica is `close`.
pub fn follow_replica(gossip: &mut gossipsub::Behaviour, replica: Option<PublicAddress>, close: bool)
    requires
        gossip_mesh_n(*old(gossip)) > 0,
    ensures
        subscribed_topics(*final(gossip)) == followed(subscribed_topics(*old(gossip)), replica, close),
        gossip_parameters(*final(gossip)) == gossip_parameters(*old(gossip)),
        cached_messages(*final(gossip)) == cached_messages(*old(gossip)),
{
    if let Some(addr) = replica {
        let topic = Topic::HotStuffRsSend(addr);
        if !behaviour::is_subscribed(gossip, &topic.hash()) && close {
            let mut topics: Vec<Topic> = Vec::new();
            topics.push(topic);
            let _ = behaviour::subscribe(gossip, topics);
            proof {
                assert(topic_names(seq![topic]) =~= set![topic_name(topic)]) by {
                    assert(seq![topic][0] == topic);
                }
                assert(subscribed_topics(*old(gossip)).union(set![topic_name(topic)])
                    =~= subscribed_topics(*old(gossip)).insert(topic_name(topic)));
            }
        } else {
            assert(subscribed_topics(*old(gossip)).contains(topic_name(topic)) ==>
                subscribed_topics(*old(gossip)).insert(topic_name(topic)) =~= subscribed_topics(*old(gossip)));
        }
    }
}

/// Unsubscribe from the mailbox topic of a replica with public address `replica` (`None` when its
/// peer id holds no Ed25519 key) when it is subscribed.
pub fn unfollow_replica(gossip: &mut gossipsub::Behaviour, replica: Option<PublicAddress>)
    ensures
        subscribed_topics(*final(gossip)) == unfollowed(subscribed_topics(*old(gossip)), replica),
        gossip_parameters(*final(gossip)) == gossip_parameters(*old(gossip)),
        cached_messages(*final(gossip)) == cached_messages(*old(gossip)),
{
    if let Some(addr) = replica {
        let topic = Topic::HotStuffRsSend(addr);
        if behaviour::is_subscribed(gossip, &topic.hash()) {
            let mut topics: Vec<Topic> = Vec::new();
            topics.push(topic);
            let _ = behaviour::unsubscribe(gossip, topics);
            proof {
                assert(topic_names(seq![topic]) =~= set![topic_name(topic)]) by {
                    assert(seq![topic][0] == topic);
                }
                assert(subscribed_topics(*old(gossip)).difference(set![topic_name(topic)])
                    =~= subscribed_topics(*old(gossip)).remove(topic_name(topic)));
            }
        } else {
            assert(subscribed_topics(*old(gossip)).remove(topic_name(topic)) =~= subscribed_topics(*old(gossip)));
        }
    }
}

/// `Clone` of a multiaddress, which `derive(Clone)` writes: the copy equals the original.
pub assume_specification[ <Multiaddr as Clone>::clone ](a: &Multiaddr) -> (res: Multiaddr)
    ensures
        res == *a,
;

/// Whether a peer at a distance with this base-2 logarithm (`None` for distance zero, taken as
/// 0) is close enough to follow its mailbox topic.
pub open spec fn within_distance(distance_log2: Option<u32>) -> bool {
    match distance_log2 {
        Some(d) => d < MAX_REPLICA_DISTANCE,
        None => 0 < MAX_REPLICA_DISTANCE,
    }
}

/// Whether a peer at a distance with this base-2 logarithm (`None` for distance zero, taken as
/// 0) is close enough to follow its mailbox topic.
pub fn within_replica_distance(distance_ilog2: Option<u32>) -> (res: bool)
    ensures
        res == within_distance(distance_ilog2),
        distance_ilog2 matches Some(d) ==> (res <==> d < 255),
        distance_ilog2 is None ==> res,
{
    let distance = match distance_ilog2 {
        Some(d) => d,
        None => 0,
    };
    distance < MAX_REPLICA_DISTANCE
}

/// Check the distance between two peers: whether the base-2 logarithm of their Kademlia distance
/// is below [MAX_REPLICA_DISTANCE]. The check does not depend on the order of the two peers, and
/// a peer is close to itself.
pub fn is_close_peer(peer_1: &PeerId, peer_2: &PeerId) -> (res: bool)
    ensures
        res == within_distance(kbucket_distance_log2(*peer_1, *peer_2)),
        res == within_distance(kbucket_distance_log2(*peer_2, *peer_1)),
        res <==> match kbucket_distance_log2(*peer_1, *peer_2) {
            Some(d) => d < 255,
            None => true,
        },
        *peer_1 == *peer_2 ==> res,
{
    within_replica_distance(behaviour::kbucket_distance_ilog2(peer_1, peer_2))
}

/// Whether a peer has a place in the routing table of a Kademlia behaviour: it is in the table,
/// or its bucket is full, or it is the local peer.
pub open spec fn routing_placed(kad: kad::Behaviour<kad::store::MemoryStore>, peer: PeerId) -> bool {
    ||| routing_table(kad).contains(peer)
    ||| bucket_full(kad, peer)
    ||| kbucket_distance_log2(peer, kad_local_peer(kad)) is None
}

/// Whether the routing-table entry of a peer, if it has one, holds each of the IPv4 TCP
/// addresses among the first `n` addresses.
pub open spec fn addresses_recorded(
    kad: kad::Behaviour<kad::store::MemoryStore>,
    peer: PeerId,
    addresses: Seq<Multiaddr>,
    n: int,
) -> bool {
    routing_table(kad).contains(peer) ==> forall|j: int|
        0 <= j < n && is_ip4_tcp_address(#[trigger] addresses[j]) ==> routing_entries(kad)[peer].contains(
            multiaddr_text(addresses[j]),
        )
}

/// Handle the identification of a peer: add each of its listen addresses to the routing table,
/// and follow its mailbox topic if it is close to this peer.
///
/// When the peer's bucket has no pending entry to begin with and the peer is not the local one,
/// then unless its bucket ends full: the peer ends in the routing table if one of the listen
/// addresses is an IPv4 TCP address, and its entry then holds every IPv4 TCP listen address.
pub fn handle_identify(
    kad: &mut kad::Behaviour<kad::store::MemoryStore>,
    gossip: &mut gossipsub::Behaviour,
    local_peer_id: &PeerId,
    peer_id: PeerId,
    listen_addrs: &Vec<Multiaddr>,
)
    requires
        gossip_mesh_n(*old(gossip)) > 0,
    ensures
        subscribed_topics(*final(gossip)) == followed(
            subscribed_topics(*old(gossip)),
            peer_id_public_address(peer_id),
            within_distance(kbucket_distance_log2(*local_peer_id, peer_id)),
        ),
        gossip_parameters(*final(gossip)) == gossip_parameters(*old(gossip)),
        cached_messages(*final(gossip)) == cached_messages(*old(gossip)),
        !bucket_pending(*old(kad), peer_id) && (exists|i: int|
            0 <= i < listen_addrs.len() && is_ip4_tcp_address(#[trigger] listen_addrs@[i])) ==> routing_placed(
            *final(kad),
            peer_id,
        ),
        !bucket_pending(*old(kad), peer_id) && kbucket_distance_log2(peer_id, kad_local_peer(*old(kad))) is Some
            && !bucket_full(*final(kad), peer_id) ==> {
            &&& (exists|i: int| 0 <= i < listen_addrs.len() && is_ip4_tcp_address(#[trigger] listen_addrs@[i]))
                ==> routing_table(*final(kad)).contains(peer_id)
            &&& routing_table(*final(kad)).contains(peer_id) ==> forall|i: int|
                0 <= i < listen_addrs.len() && is_ip4_tcp_address(#[trigger] listen_addrs@[i])
                    ==> routing_entries(*final(kad))[peer_id].contains(multiaddr_text(listen_addrs@[i]))
        },
        ongoing_queries(*final(kad)) == ongoing_queries(*old(kad)),
        kad_connected(*final(kad)) == kad_connected(*old(kad)),
        kad_local_peer(*final(kad)) == kad_local_peer(*old(kad)),
{
    let ghost start_clear = !bucket_pending(*kad, peer_id);
    let mut i: usize = 0;
    while i < listen_addrs.len()
        invariant
            0 <= i <= listen_addrs.len(),
            ongoing_queries(*kad) == ongoing_queries(*old(kad)),
            kad_connected(*kad) == kad_connected(*old(kad)),
            kad_local_peer(*kad) == kad_local_peer(*old(kad)),
            start_clear == !bucket_pending(*old(kad), peer_id),
            start_clear ==> {
                ||| bucket_full(*kad, peer_id)
                ||| kbucket_distance_log2(peer_id, kad_local_peer(*kad)) is None
                ||| !bucket_pending(*kad, peer_id) && ((exists|j: int|
                    0 <= j < i && is_ip4_tcp_address(#[trigger] listen_addrs@[j])) ==> routing_table(*kad).contains(
                    peer_id,
                )) && addresses_recorded(*kad, peer_id, listen_addrs@, i as int)
            },
        decreases listen_addrs.len() - i,
    {
        let ghost before = *kad;
        let address = listen_addrs[i].clone();
        let _ = behaviour::add_address(kad, &peer_id, address);
        proof {
            if start_clear {
                if !bucket_full(before, peer_id) && kbucket_distance_log2(peer_id, kad_local_peer(before)) is Some {
                    assert(!bucket_pending(before, peer_id));
                    if is_ip4_tcp_address(listen_addrs@[i as int]) {
                        assert(routing_table(*kad).contains(peer_id));
                    }
                    assert((exists|j: int| 0 <= j < i + 1 && is_ip4_tcp_address(#[trigger] listen_addrs@[j]))
                        ==> routing_table(*kad).contains(peer_id)) by {
                        if exists|j: int| 0 <= j < i && is_ip4_tcp_address(#[trigger] listen_addrs@[j]) {
                            assert(routing_table(before).contains(peer_id));
                        }
                    }
                    if !bucket_full(*kad, peer_id) {
                        assert(addresses_recorded(*kad, peer_id, listen_addrs@, i + 1)) by {
                            if routing_table(*kad).contains(peer_id) {
                                assert forall|j: int|
                                    0 <= j < i + 1 && is_ip4_tcp_address(#[trigger] listen_addrs@[j])
                                    implies routing_entries(*kad)[peer_id].contains(multiaddr_text(listen_addrs@[j])) by {
                                    if j < i {
                                        assert(routing_table(before).contains(peer_id));
                                        assert(routing_entries(before)[peer_id].contains(multiaddr_text(listen_addrs@[j])));
                                    }
                                }
                            }
                        }
                    }
                }
            }
        }
        i = i + 1;
    }
    let replica = public_address_of(peer_id);
    let close = is_close_peer(local_peer_id, &peer_id);
    follow_replica(gossip, replica, close);
}

/// Handle the closing of the connections to a peer: remove it from the routing table, the other
/// peers staying when its bucket has no pending entry, and leave its mailbox topic.
pub fn handle_connection_closed(
    kad: &mut kad::Behaviour<kad::store::MemoryStore>,
    gossip: &mut gossipsub::Behaviour,
    peer_id: PeerId,
)
    ensures
        subscribed_topics(*final(gossip)) == unfollowed(subscribed_topics(*old(gossip)), peer_id_public_address(peer_id)),
        gossip_parameters(*final(gossip)) == gossip_parameters(*old(gossip)),
        cached_messages(*final(gossip)) == cached_messages(*old(gossip)),
        !routing_table(*final(kad)).contains(peer_id),
        !bucket_pending(*old(kad), peer_id) ==> routing_table(*final(kad)) == routing_table(*old(kad)).remove(peer_id),
        !bucket_pending(*old(kad), peer_id) ==> routing_entries(*final(kad)) == routing_entries(*old(kad)).remove(
            peer_id,
        ),
        ongoing_queries(*final(kad)) == ongoing_queries(*old(kad)),
{
    behaviour::remove_peer(kad, &peer_id);
    let replica = public_address_of(peer_id);
    unfollow_replica(gossip, replica);
}

/// Handle the tick of peer discovery: query the network for a random peer id, which starts one
/// more query.
pub fn handle_discovery_tick(kad: &mut kad::Behaviour<kad::store::MemoryStore>)
    ensures
        ongoing_queries(*final(kad)) == ongoing_queries(*old(kad)) + 1,
        exists|key: PeerId|
            query_targets(*final(kad)) == query_targets(*old(kad)).insert(key) && peer_id_public_address(key) is None,
{
    behaviour::random_walk(kad);
}

/// Whether the boot nodes whose public address is an Ed25519 key have each a place in the
/// routing table ([routing_placed]) under their peer id.
pub open spec fn boot_nodes_placed(
    kad: kad::Behaviour<kad::store::MemoryStore>,
    boot_nodes: Seq<(PublicAddress, [u8; 4], u16)>,
) -> bool {
    forall|j: int|
        0 <= j < boot_nodes.len() && ed25519_public_key_valid((#[trigger] boot_nodes[j]).0@) ==> routing_placed(
            kad,
            ed25519_peer_id(boot_nodes[j].0),
        )
}

/// Whether each boot node whose public address is an Ed25519 key, and which is not the local
/// peer, has its IPv4 address and port among the addresses of its routing-table entry when it has
/// one.
pub open spec fn boot_nodes_recorded(
    kad: kad::Behaviour<kad::store::MemoryStore>,
    boot_nodes: Seq<(PublicAddress, [u8; 4], u16)>,
) -> bool {
    forall|j: int|
        0 <= j < boot_nodes.len() && ed25519_public_key_valid((#[trigger] boot_nodes[j]).0@)
            && kbucket_distance_log2(ed25519_peer_id(boot_nodes[j].0), kad_local_peer(kad)) is Some
            && routing_table(kad).contains(ed25519_peer_id(boot_nodes[j].0)) ==> routing_entries(kad)[ed25519_peer_id(
            boot_nodes[j].0,
        )].contains(ip4_tcp_text(boot_nodes[j].1, boot_nodes[j].2))
}

/// Establish the connections of a peer to the network: add the boot nodes whose public address
/// is an Ed25519 key to the routing table, at the multiaddress of their IPv4 address and port,
/// and subscribe to the topics of the configuration.
///
/// When no bucket has a pending entry and Kademlia knows of no connected peer, as with a new
/// behaviour, every such boot node ends in the routing table, unless its bucket is full or it is
/// the local peer, and its entry then holds the multiaddress of its IPv4 address and port.
pub fn establish_network_connections(
    kad: &mut kad::Behaviour<kad::store::MemoryStore>,
    gossip: &mut gossipsub::Behaviour,
    config: &Config,
) -> (res: Result<(), gossipsub::SubscriptionError>)
    requires
        gossip_mesh_n(*old(gossip)) > 0,
    ensures
        res is Ok,
        subscribed_topics(*final(gossip)) == subscribed_topics(*old(gossip)).union(
            topic_names(config.topics_to_subscribe@),
        ),
        gossip_parameters(*final(gossip)) == gossip_parameters(*old(gossip)),
        cached_messages(*final(gossip)) == cached_messages(*old(gossip)),
        (forall|q: PeerId| !bucket_pending(*old(kad), q)) && kad_connected(*old(kad)) == Set::<PeerId>::empty()
            ==> boot_nodes_placed(*final(kad), config.boot_nodes@),
        (forall|q: PeerId| !bucket_pending(*old(kad), q)) && kad_connected(*old(kad)) == Set::<PeerId>::empty()
            ==> boot_nodes_recorded(*final(kad), config.boot_nodes@),
        ongoing_queries(*final(kad)) == ongoing_queries(*old(kad)),
        kad_connected(*final(kad)) == kad_connected(*old(kad)),
        kad_local_peer(*final(kad)) == kad_local_peer(*old(kad)),
{
    let ghost clear = (forall|q: PeerId| !bucket_pending(*old(kad), q)) && kad_connected(*old(kad)) == Set::<
        PeerId,
    >::empty();
    let mut i: usize = 0;
    while i < config.boot_nodes.len()
        invariant
            0 <= i <= config.boot_nodes.len(),
            subscribed_topics(*gossip) == subscribed_topics(*old(gossip)),
            gossip_parameters(*gossip) == gossip_parameters(*old(gossip)),
            cached_messages(*gossip) == cached_messages(*old(gossip)),
            ongoing_queries(*kad) == ongoing_queries(*old(kad)),
            kad_connected(*kad) == kad_connected(*old(kad)),
            kad_local_peer(*kad) == kad_local_peer(*old(kad)),
            clear == ((forall|q: PeerId| !bucket_pending(*old(kad), q)) && kad_connected(*old(kad)) == Set::<
                PeerId,
            >::empty()),
            clear ==> forall|q: PeerId| !bucket_pending(*kad, q),
            clear ==> boot_nodes_placed(*kad, config.boot_nodes@.take(i as int)),
            clear ==> boot_nodes_recorded(*kad, config.boot_nodes@.take(i as int)),
        decreases config.boot_nodes.len() - i,
    {
        let (address, ip_address, port) = config.boot_nodes[i];
        let multiaddr = conversions::multi_addr(ip_address, port);
        let ghost before = *kad;
        if let Ok(peer_id) = PeerId::try_from(conversions::PublicAddress::new(address)) {
            let ghost target = multiaddr;
            let _ = behaviour::add_address(kad, &peer_id, multiaddr);
            proof {
                if clear {
                    assert(!bucket_pending(before, peer_id));
                    assert(!kad_connected(before).contains(peer_id));
                    assert(is_ip4_tcp_address(target));
                    assert forall|q: PeerId| !bucket_pending(*kad, q) by {
                        assert(bucket_pending(*kad, q) == bucket_pending(before, q));
                    }
                    assert forall|q: PeerId| routing_placed(before, q) implies routing_placed(*kad, q) by {
                        if routing_table(before).contains(q) {
                            if q != peer_id {
                                assert(routing_table(before).remove(peer_id).contains(q));
                                assert(routing_table(*kad).remove(peer_id).contains(q));
                            }
                        }
                    }
                    assert(routing_placed(*kad, peer_id));
                    assert forall|q: PeerId, t: Seq<char>|
                        routing_table(before).contains(q) && routing_entries(before)[q].contains(t) implies
                        routing_table(*kad).contains(q) && #[trigger] routing_entries(*kad)[q].contains(t) by {
                        if q != peer_id {
                            assert(routing_entries(before).remove(peer_id).contains_key(q));
                            assert(routing_entries(*kad).remove(peer_id)[q] == routing_entries(*kad)[q]);
                            assert(routing_entries(before).remove(peer_id)[q] == routing_entries(before)[q]);
                        }
                    }
                    assert forall|q: PeerId| q != peer_id implies (routing_table(*kad).contains(q) == routing_table(
                        before,
                    ).contains(q) && (routing_table(*kad).contains(q) ==> #[trigger] routing_entries(*kad)[q]
                        == routing_entries(before)[q])) by {
                        assert(routing_entries(*kad).remove(peer_id).contains_key(q) == routing_entries(*kad).contains_key(q));
                        assert(routing_entries(before).remove(peer_id).contains_key(q) == routing_entries(before).contains_key(q));
                        if routing_table(*kad).contains(q) {
                            assert(routing_entries(*kad).remove(peer_id)[q] == routing_entries(*kad)[q]);
                            assert(routing_entries(before).remove(peer_id)[q] == routing_entries(before)[q]);
                        }
                    }
                    if routing_table(*kad).contains(peer_id) && kbucket_distance_log2(peer_id, kad_local_peer(before)) is Some {
                        if !routing_table(before).contains(peer_id) {
                            assert(!bucket_full(before, peer_id));
                        }
                        assert(routing_entries(*kad)[peer_id].contains(ip4_tcp_text(ip_address, port)));
                    }
                }
            }
        }
        proof {
            if clear {
                let prefix = config.boot_nodes@.take(i as int);
                let next = config.boot_nodes@.take(i + 1);
                assert forall|j: int|
                    0 <= j < next.len() && ed25519_public_key_valid((#[trigger] next[j]).0@) implies routing_placed(
                    *kad,
                    ed25519_peer_id(next[j].0),
                ) by {
                    if j < i {
                        assert(next[j] == prefix[j]);
                        assert(routing_placed(before, ed25519_peer_id(prefix[j].0)));
                    } else {
                        assert(next[j] == config.boot_nodes@[i as int]);
                    }
                }
                assert forall|j: int|
                    0 <= j < next.len() && ed25519_public_key_valid((#[trigger] next[j]).0@)
                        && kbucket_distance_log2(ed25519_peer_id(next[j].0), kad_local_peer(*kad)) is Some
                        && routing_table(*kad).contains(ed25519_peer_id(next[j].0)) implies routing_entries(
                    *kad,
                )[ed25519_peer_id(next[j].0)].contains(ip4_tcp_text(next[j].1, next[j].2)) by {
                    if j < i {
                        assert(next[j] == prefix[j]);
                        let q = ed25519_peer_id(prefix[j].0);
                        assert(routing_placed(before, q));
                        if routing_table(before).contains(q) {
                            assert(routing_entries(before)[q].contains(ip4_tcp_text(prefix[j].1, prefix[j].2)));
                        }
                    } else {
                        assert(next[j] == config.boot_nodes@[i as int]);
                    }
                }
            }
        }
        i = i + 1;
    }
    assert(config.boot_nodes@.take(config.boot_nodes.len() as int) =~= config.boot_nodes@);
    let mut topics: Vec<Topic> = Vec::new();
    let mut j: usize = 0;
    while j < config.topics_to_subscribe.len()
        invariant
            0 <= j <= config.topics_to_subscribe.len(),
            topics@ == config.topics_to_subscribe@.take(j as int),
        decreases config.topics_to_subscribe.len() - j,
    {
        topics.push(config.topics_to_subscribe[j]);
        assert(config.topics_to_subscribe@.take(j + 1) =~= config.topics_to_subscribe@.take(j as int).push(
            config.topics_to_subscribe@[j as int],
        ));
        j = j + 1;
    }
    assert(config.topics_to_subscribe@.take(config.topics_to_subscribe.len() as int)
        =~= config.topics_to_subscribe@);
    behaviour::subscribe(gossip, topics)
}

// ---------------------------------------------------------------------------------------------
// Laws of the event loop
// ---------------------------------------------------------------------------------------------

/// A message that a peer publishes on its own mailbox topic goes to its own handler with itself
/// as origin.
pub proof fn law_send_to_self(local: PublicAddress, message: Message)
    ensures
        self_delivery(local, Topic::HotStuffRsSend(local), message) == Some((local, message)),
{
}

/// A message published on any topic but the peer's own mailbox does not reach the publisher's own
/// handler: broadcasts and transactions are not sent to oneself.
pub proof fn law_no_self_delivery_elsewhere(local: PublicAddress, topic: Topic, message: Message)
    requires
        topic != Topic::HotStuffRsSend(local),
    ensures
        self_delivery(local, topic, message) is None,
{
}

/// A gossipsub message on the mailbox topic of another peer never reaches the handler, even when
/// this peer follows that mailbox: mailboxes are private to their owner.
pub proof fn law_other_mailbox_not_delivered(
    subscribed: Set<Seq<char>>,
    local: PublicAddress,
    other: PublicAddress,
    source: Option<PublicAddress>,
    data: Seq<u8>,
)
    requires
        other != local,
    ensures
        !gossip_delivered(subscribed, local, source, topic_name(Topic::HotStuffRsSend(other)), data),
{
    let name = topic_name(Topic::HotStuffRsSend(other));
    law_topic_names_distinct(Topic::HotStuffRsSend(other), Topic::HotStuffRsBroadcast);
    law_topic_names_distinct(Topic::HotStuffRsSend(other), Topic::HotStuffRsSend(local));
    law_topic_names_distinct(Topic::HotStuffRsSend(other), Topic::Mempool);
    assert(accepted_topic(name, local) is None);
}

/// A gossipsub message on a topic this peer is not subscribed to never reaches the handler.
pub proof fn law_unsubscribed_not_delivered(
    subscribed: Set<Seq<char>>,
    local: PublicAddress,
    source: Option<PublicAddress>,
    topic: Seq<char>,
    data: Seq<u8>,
)
    requires
        !subscribed.contains(topic),
    ensures
        !gossip_delivered(subscribed, local, source, topic, data),
{
}

/// Each accepted topic carries its own kind of message: the two consensus topics of a peer carry
/// consensus messages, the mempool topic carries transactions, and no other topic is accepted
/// but these three.
pub proof fn law_topic_kinds(local: PublicAddress, topic: Topic)
    ensures
        accepted_kind(topic_name(topic), local) == match topic {
            Topic::HotStuffRsBroadcast => Some(true),
            Topic::HotStuffRsSend(addr) => if addr == local {
                Some(true)
            } else {
                None
            },
            Topic::Mempool => Some(false),
        },
{
    law_topic_names_distinct(topic, Topic::HotStuffRsBroadcast);
    law_topic_names_distinct(topic, Topic::HotStuffRsSend(local));
    law_topic_names_distinct(topic, Topic::Mempool);
}

/// A peer keeps its own mailbox topic when it follows a replica, and when it stops following a
/// replica other than itself.
pub proof fn law_own_mailbox_kept(
    subscribed: Set<Seq<char>>,
    local: PublicAddress,
    replica: Option<PublicAddress>,
    close: bool,
)
    requires
        subscribed.contains(topic_name(Topic::HotStuffRsSend(local))),
    ensures
        followed(subscribed, replica, close).contains(topic_name(Topic::HotStuffRsSend(local))),
        replica != Some(local) ==> unfollowed(subscribed, replica).contains(
            topic_name(Topic::HotStuffRsSend(local)),
        ),
{
    if let Some(addr) = replica {
        law_topic_names_distinct(Topic::HotStuffRsSend(addr), Topic::HotStuffRsSend(local));
    }
}

/// Following a replica and then leaving it gives back the subscriptions of before, when its
/// mailbox was not among them.
pub proof fn law_unfollow_undoes_follow(subscribed: Set<Seq<char>>, replica: PublicAddress, close: bool)
    requires
        !subscribed.contains(topic_name(Topic::HotStuffRsSend(replica))),
    ensures
        unfollowed(followed(subscribed, Some(replica), close), Some(replica)) == subscribed,
{
    assert(unfollowed(followed(subscribed, Some(replica), close), Some(replica)) =~= subscribed);
}

/// A message sent on a topic reaches the handler of a peer that is subscribed to the topic and
/// accepts it (the consensus broadcast, the mempool, or the peer's own mailbox), when the topic is
/// one for its kind (consensus messages on the consensus topics, transactions on the mempool
/// topic) and the bytes sent are its encoding: the receiver gets a message with the same
/// encoding.
pub proof fn law_sent_message_delivered(
    subscribed: Set<Seq<char>>,
    receiver: PublicAddress,
    source: PublicAddress,
    topic: Topic,
    message: Message,
    bytes: Seq<u8>,
)
    requires
        subscribed.contains(topic_name(topic)),
        topic is HotStuffRsSend ==> topic == Topic::HotStuffRsSend(receiver),
        (topic is Mempool) == (message is Mempool),
        is_encoding_of(message, bytes),
    ensures
        gossip_delivered(subscribed, receiver, Some(source), topic_name(topic), bytes),
        message_encoding(received_message(topic_name(topic), receiver, bytes)) == message_encoding(message),
        received_message(topic_name(topic), receiver, bytes) is Mempool == message is Mempool,
{
    law_topic_kinds(receiver, topic);
}

/// The closeness threshold: a peer is close exactly when the base-2 logarithm of its Kademlia
/// distance is below 255, and a peer at distance zero (no logarithm) is close.
pub proof fn law_replica_distance_threshold(d: u32)
    ensures
        within_distance(Some(d)) <==> d < 255,
        within_distance(None),
{
}

/// Closeness is monotone in the distance: a peer nearer than a close peer is close too, and a
/// peer at distance zero is as close as any.
pub proof fn law_replica_distance_monotone(nearer: u32, farther: u32)
    requires
        nearer <= farther,
        within_distance(Some(farther)),
    ensures
        within_distance(Some(nearer)),
        within_distance(None),
{
}

} // verus!
