//! Configuration parameters provided by the library user.

use crate::messages::{Topic, topic_name};
use libp2p::identity::ed25519::Keypair;
use pchain_types::cryptography::PublicAddress;
use vstd::prelude::*;

verus! {

#[verifier::external_type_specification]
#[verifier::external_body]
pub struct ExEd25519Keypair(Keypair);

/// The parameters of a peer.
pub struct Config {
    /// Keypair used for identifying the peer
    pub keypair: Keypair,
    /// List of topics to subscribe
    pub topics_to_subscribe: Vec<Topic>,
    /// Port number for listening to events
    pub listening_port: u16,
    /// Bootstrap nodes for the initial connection: public address, IPv4 address and port
    pub boot_nodes: Vec<(PublicAddress, [u8; 4], u16)>,
    /// Buffer size of outgoing messages
    pub outgoing_msgs_buffer_capacity: usize,
    /// Buffer size of incoming messages
    pub incoming_msgs_buffer_capacity: usize,
    /// Interval in seconds for querying the network to discover peers
    pub peer_discovery_interval: u64,
    /// Protocol name to communicate with other Kademlia nodes
    pub kademlia_protocol_name: String,
}

/// The topics on which a peer with this address accepts messages, in order.
pub open spec fn fullnode_topic_seq(public_address: PublicAddress) -> Seq<Topic> {
    seq![Topic::HotStuffRsBroadcast, Topic::HotStuffRsSend(public_address), Topic::Mempool]
}

/// The topic among the accepted topics of a peer with this address whose name is `name`, if any.
pub open spec fn accepted_topic(name: Seq<char>, public_address: PublicAddress) -> Option<Topic> {
    if name == topic_name(Topic::HotStuffRsBroadcast) {
        Some(Topic::HotStuffRsBroadcast)
    } else if name == topic_name(Topic::HotStuffRsSend(public_address)) {
        Some(Topic::HotStuffRsSend(public_address))
    } else if name == topic_name(Topic::Mempool) {
        Some(Topic::Mempool)
    } else {
        None
    }
}

/// Returns the complete list of topics that a peer with this address accepts.
pub fn fullnode_topics(public_address: PublicAddress) -> (res: Vec<Topic>)
    ensures
        res@ == fullnode_topic_seq(public_address),
{
    let mut topics: Vec<Topic> = Vec::new();
    topics.push(Topic::HotStuffRsBroadcast);
    topics.push(Topic::HotStuffRsSend(public_address));
    topics.push(Topic::Mempool);
    topics
}

} // verus!
