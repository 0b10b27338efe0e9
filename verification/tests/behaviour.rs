use libp2p::identity::ed25519;
use libp2p::kad;
use libp2p::PeerId;
use pchain_network::behaviour::{
    add_address, is_subscribed, kad_config, new_gossip, publish, random_walk, remove_peer, subscribe, unsubscribe,
};
use pchain_network::conversions::{multi_addr, PublicAddress};
use pchain_network::messages::{Message, Topic};

struct TestPeer {
    keypair: ed25519::Keypair,
    public_address: [u8; 32],
    peer_id: PeerId,
}

fn create_new_peer() -> TestPeer {
    let keypair = ed25519::Keypair::generate();
    let public_address = keypair.public().to_bytes();
    let peer_id = PeerId::try_from(PublicAddress::new(public_address)).unwrap();
    TestPeer { keypair, public_address, peer_id }
}

fn new_kad(peer_id: PeerId) -> kad::Behaviour<kad::store::MemoryStore> {
    kad::Behaviour::with_config(peer_id, kad::store::MemoryStore::new(peer_id), Default::default())
}

fn knows(kad: &mut kad::Behaviour<kad::store::MemoryStore>, peer_id: &PeerId) -> bool {
    kad.kbuckets()
        .find(|entry| entry.iter().find(|bucket| *bucket.node.key.preimage() == *peer_id).is_some())
        .is_some()
}

#[test]
fn test_add_and_remove_peer() {
    let peer1 = create_new_peer();
    let peer2 = create_new_peer();
    let mut kad1 = new_kad(peer1.peer_id);

    assert!(add_address(&mut kad1, &peer2.peer_id, multi_addr([127, 0, 0, 1], 25519)));
    assert!(knows(&mut kad1, &peer2.peer_id));

    remove_peer(&mut kad1, &peer2.peer_id);
    assert!(!knows(&mut kad1, &peer2.peer_id));
}

#[test]
fn random_walk_keeps_routing_table() {
    let peer1 = create_new_peer();
    let peer2 = create_new_peer();
    let mut kad1 = new_kad(peer1.peer_id);
    add_address(&mut kad1, &peer2.peer_id, multi_addr([127, 0, 0, 1], 30001));
    assert_eq!(kad1.iter_queries().count(), 0);
    random_walk(&mut kad1);
    assert_eq!(kad1.iter_queries().count(), 1);
    assert!(knows(&mut kad1, &peer2.peer_id));
}

#[test]
fn kad_config_starts_empty() {
    let peer1 = create_new_peer();
    let peer2 = create_new_peer();
    let mut kad = kad_config(peer1.peer_id, String::from("/pchain_p2p/1.0.0"));
    assert_eq!(kad.protocol_names().len(), 1);
    assert_eq!(kad.protocol_names()[0].as_ref(), "/pchain_p2p/1.0.0");
    assert!(!knows(&mut kad, &peer2.peer_id));
    assert_eq!(kad.iter_queries().count(), 0);
    assert!(add_address(&mut kad, &peer2.peer_id, multi_addr([10, 0, 0, 2], 30001)));
    assert!(knows(&mut kad, &peer2.peer_id));
    assert!(!add_address(&mut kad, &peer1.peer_id, multi_addr([10, 0, 0, 3], 30001)));
}

#[test]
fn test_subscribe_topics() {
    let peer = create_new_peer();
    let mut gossip = new_gossip(&peer.keypair, peer.public_address);

    // Peers subscribe to their mailbox topic when the behaviour is configured
    assert!(is_subscribed(&gossip, &Topic::HotStuffRsSend(peer.public_address).hash()));

    let _ = subscribe(&mut gossip, vec![Topic::HotStuffRsBroadcast]);

    assert_eq!(gossip.topics().count(), 2);
    assert!(is_subscribed(&gossip, &Topic::HotStuffRsBroadcast.hash()));
    assert!(!is_subscribed(&gossip, &Topic::Mempool.hash()));
}

#[test]
fn unsubscribe_undoes_subscribe() {
    let peer = create_new_peer();
    let mut gossip = new_gossip(&peer.keypair, peer.public_address);
    assert!(subscribe(&mut gossip, vec![Topic::Mempool, Topic::HotStuffRsBroadcast]).is_ok());
    assert_eq!(gossip.topics().count(), 3);
    assert!(unsubscribe(&mut gossip, vec![Topic::Mempool, Topic::HotStuffRsBroadcast]).is_ok());
    assert_eq!(gossip.topics().count(), 1);
    assert!(!is_subscribed(&gossip, &Topic::Mempool.hash()));
    assert!(is_subscribed(&gossip, &Topic::HotStuffRsSend(peer.public_address).hash()));
}

#[test]
fn subscribe_twice_changes_nothing() {
    let peer = create_new_peer();
    let mut gossip = new_gossip(&peer.keypair, peer.public_address);
    let _ = subscribe(&mut gossip, vec![Topic::Mempool]);
    let _ = subscribe(&mut gossip, vec![Topic::Mempool, Topic::HotStuffRsSend(peer.public_address)]);
    assert_eq!(gossip.topics().count(), 2);
}

#[test]
fn publish_without_peers_keeps_subscriptions() {
    let peer = create_new_peer();
    let mut gossip = new_gossip(&peer.keypair, peer.public_address);
    let txn = pchain_types::blockchain::Transaction {
        signer: peer.public_address,
        nonce: 0,
        commands: vec![],
        gas_limit: 200000,
        max_base_fee_per_gas: 8,
        priority_fee_per_gas: 0,
        hash: [0u8; 32],
        signature: [0u8; 64],
    };
    let result = publish(&mut gossip, Topic::Mempool, Message::Mempool(txn));
    assert!(result.is_err());
    assert_eq!(gossip.topics().count(), 1);
    assert!(!is_subscribed(&gossip, &Topic::Mempool.hash()));
}
