use borsh::BorshSerialize;
use hotstuff_rs::messages::{SyncMessage, SyncRequest};
use libp2p::identity::ed25519;
use libp2p::gossipsub;
use libp2p::kad;
use libp2p::PeerId;
use pchain_network::behaviour::{is_subscribed, kad_config, new_gossip, subscribe};
use pchain_network::config::{fullnode_topics, Config};
use pchain_network::conversions::PublicAddress;
use pchain_network::messages::{Message, Topic};
use pchain_network::peer::{
    accept_gossip_message, establish_network_connections, follow_replica, handle_command,
    handle_connection_closed, handle_discovery_tick, handle_gossip_message, handle_identify, is_close_peer,
    unfollow_replica, within_replica_distance, CommandOutcome, PeerCommand, MAX_REPLICA_DISTANCE,
};

fn sync_request(start_height: u64) -> hotstuff_rs::messages::Message {
    hotstuff_rs::messages::Message::SyncMessage(SyncMessage::SyncRequest(SyncRequest {
        start_height,
        limit: 5,
    }))
}

fn new_identity() -> (ed25519::Keypair, [u8; 32], PeerId) {
    let keypair = ed25519::Keypair::generate();
    let address = keypair.public().to_bytes();
    let peer_id = PeerId::try_from(PublicAddress::new(address)).unwrap();
    (keypair, address, peer_id)
}

fn new_kad(peer_id: PeerId) -> kad::Behaviour<kad::store::MemoryStore> {
    kad_config(peer_id, String::from("/pchain_p2p/1.0.0"))
}

fn knows(kad: &mut kad::Behaviour<kad::store::MemoryStore>, peer_id: &PeerId) -> bool {
    kad.kbuckets()
        .find(|entry| entry.iter().find(|bucket| *bucket.node.key.preimage() == *peer_id).is_some())
        .is_some()
}

#[test]
fn fullnode_topics_are_the_three_accepted_topics() {
    let topics = fullnode_topics([5u8; 32]);
    assert_eq!(
        topics,
        vec![Topic::HotStuffRsBroadcast, Topic::HotStuffRsSend([5u8; 32]), Topic::Mempool]
    );
}

#[test]
fn publish_on_own_mailbox_is_delivered_to_self() {
    let (keypair, local, _) = new_identity();
    let mut gossip = new_gossip(&keypair, local);
    let message = sync_request(1);
    let outcome = handle_command(
        &mut gossip,
        local,
        PeerCommand::Publish(Topic::HotStuffRsSend(local), Message::HotStuffRs(message.clone())),
    );
    match outcome {
        CommandOutcome::Continue(Some((origin, Message::HotStuffRs(m))), _) => {
            assert_eq!(origin, local);
            assert_eq!(m.try_to_vec().unwrap(), message.try_to_vec().unwrap());
        }
        _ => panic!("expected delivery to self"),
    }
}

#[test]
fn publish_on_unsubscribed_topic_is_not_delivered_to_self() {
    let (keypair, local, _) = new_identity();
    let (_, other, _) = new_identity();
    let mut gossip = new_gossip(&keypair, local);
    let outcome = handle_command(
        &mut gossip,
        local,
        PeerCommand::Publish(Topic::HotStuffRsSend(other), Message::HotStuffRs(sync_request(1))),
    );
    assert!(matches!(outcome, CommandOutcome::Continue(None, _)));
    assert_eq!(gossip.topics().count(), 1);
}

#[test]
fn publish_on_subscribed_mempool_is_not_delivered_to_self() {
    let (keypair, local, _) = new_identity();
    let mut gossip = new_gossip(&keypair, local);
    assert!(subscribe(&mut gossip, vec![Topic::Mempool, Topic::HotStuffRsBroadcast]).is_ok());
    let txn = pchain_types::blockchain::Transaction {
        signer: local,
        nonce: 0,
        commands: vec![],
        gas_limit: 200000,
        max_base_fee_per_gas: 8,
        priority_fee_per_gas: 0,
        hash: [0u8; 32],
        signature: [0u8; 64],
    };
    let outcome = handle_command(&mut gossip, local, PeerCommand::Publish(Topic::Mempool, Message::Mempool(txn)));
    // With no connected peer gossipsub refuses the publication, and the answer is handed back.
    assert!(matches!(outcome, CommandOutcome::Continue(None, Err(gossipsub::PublishError::InsufficientPeers))));
    let outcome = handle_command(
        &mut gossip,
        local,
        PeerCommand::Publish(Topic::HotStuffRsBroadcast, Message::HotStuffRs(sync_request(3))),
    );
    assert!(matches!(outcome, CommandOutcome::Continue(None, _)));
    assert_eq!(gossip.topics().count(), 3);
}

#[test]
fn shutdown_stops_the_loop() {
    let (keypair, local, _) = new_identity();
    let mut gossip = new_gossip(&keypair, local);
    assert!(matches!(handle_command(&mut gossip, local, PeerCommand::Shutdown), CommandOutcome::Stop));
}

#[test]
fn gossip_message_is_delivered_with_its_origin() {
    let (keypair, local, _) = new_identity();
    let (_, source, source_peer_id) = new_identity();
    let gossip = new_gossip(&keypair, local);
    let data = sync_request(2).try_to_vec().unwrap();
    let delivered = handle_gossip_message(
        &gossip,
        local,
        Some(source_peer_id),
        &Topic::HotStuffRsSend(local).hash(),
        &data,
    );
    match delivered {
        Some((origin, Message::HotStuffRs(m))) => {
            assert_eq!(origin, source);
            assert_eq!(m.try_to_vec().unwrap(), data);
        }
        _ => panic!("expected delivery"),
    }
    assert!(handle_gossip_message(&gossip, local, None, &Topic::HotStuffRsSend(local).hash(), &data).is_none());
}

#[test]
fn gossip_message_on_unsubscribed_topic_is_dropped() {
    let (keypair, local, _) = new_identity();
    let gossip = new_gossip(&keypair, local);
    let data = sync_request(2).try_to_vec().unwrap();
    let delivered = accept_gossip_message(
        &gossip,
        local,
        Some([9u8; 32]),
        &Topic::HotStuffRsBroadcast.hash(),
        &data,
    );
    assert!(delivered.is_none());
}

#[test]
fn gossip_message_on_followed_mailbox_is_dropped() {
    let (keypair, local, _) = new_identity();
    let (_, replica, _) = new_identity();
    let mut gossip = new_gossip(&keypair, local);
    follow_replica(&mut gossip, Some(replica), true);
    assert!(is_subscribed(&gossip, &Topic::HotStuffRsSend(replica).hash()));
    let data = sync_request(2).try_to_vec().unwrap();
    let delivered =
        accept_gossip_message(&gossip, local, Some([9u8; 32]), &Topic::HotStuffRsSend(replica).hash(), &data);
    assert!(delivered.is_none());
}

#[test]
fn follow_and_unfollow_replica() {
    let (keypair, local, _) = new_identity();
    let (_, replica, _) = new_identity();
    let mut gossip = new_gossip(&keypair, local);
    follow_replica(&mut gossip, Some(replica), false);
    assert_eq!(gossip.topics().count(), 1);
    follow_replica(&mut gossip, None, true);
    assert_eq!(gossip.topics().count(), 1);
    follow_replica(&mut gossip, Some(replica), true);
    assert_eq!(gossip.topics().count(), 2);
    unfollow_replica(&mut gossip, Some(replica));
    assert_eq!(gossip.topics().count(), 1);
    assert!(is_subscribed(&gossip, &Topic::HotStuffRsSend(local).hash()));
    unfollow_replica(&mut gossip, None);
    assert_eq!(gossip.topics().count(), 1);
}

#[test]
fn identify_then_connection_closed() {
    let (keypair, local, local_peer_id) = new_identity();
    let (_, replica, replica_peer_id) = new_identity();
    let mut gossip = new_gossip(&keypair, local);
    let mut kad = new_kad(local_peer_id);
    let addrs = vec![pchain_network::conversions::multi_addr([127, 0, 0, 1], 30002)];
    handle_identify(&mut kad, &mut gossip, &local_peer_id, replica_peer_id, &addrs);
    assert!(knows(&mut kad, &replica_peer_id));
    let close = is_close_peer(&local_peer_id, &replica_peer_id);
    assert_eq!(close, is_close_peer(&replica_peer_id, &local_peer_id));
    assert_eq!(is_subscribed(&gossip, &Topic::HotStuffRsSend(replica).hash()), close);
    handle_connection_closed(&mut kad, &mut gossip, replica_peer_id);
    assert!(!knows(&mut kad, &replica_peer_id));
    assert!(!is_subscribed(&gossip, &Topic::HotStuffRsSend(replica).hash()));
    assert!(is_subscribed(&gossip, &Topic::HotStuffRsSend(local).hash()));
}

#[test]
fn replica_distance_threshold() {
    assert!(within_replica_distance(None));
    assert!(within_replica_distance(Some(0)));
    assert!(within_replica_distance(Some(MAX_REPLICA_DISTANCE - 1)));
    assert!(!within_replica_distance(Some(MAX_REPLICA_DISTANCE)));
    assert!(!within_replica_distance(Some(300)));
    let (_, _, peer_id) = new_identity();
    assert!(is_close_peer(&peer_id, &peer_id));
}

#[test]
fn establish_network_connections_subscribes_configured_topics() {
    let (keypair, local, local_peer_id) = new_identity();
    let (_, boot, _) = new_identity();
    let config = Config {
        keypair: keypair.clone(),
        topics_to_subscribe: vec![Topic::Mempool, Topic::HotStuffRsBroadcast],
        listening_port: 25519,
        boot_nodes: vec![(boot, [127, 0, 0, 1], 30002), ([0u8; 32], [127, 0, 0, 1], 30003)],
        outgoing_msgs_buffer_capacity: 8,
        incoming_msgs_buffer_capacity: 10,
        peer_discovery_interval: 10,
        kademlia_protocol_name: String::from("/pchain_p2p/1.0.0"),
    };
    let mut gossip = new_gossip(&keypair, local);
    let mut kad = new_kad(local_peer_id);
    let boot_peer_id = PeerId::try_from(PublicAddress::new(boot)).unwrap();
    assert!(establish_network_connections(&mut kad, &mut gossip, &config).is_ok());
    assert!(knows(&mut kad, &boot_peer_id));
    assert_eq!(kad.iter_queries().count(), 0);
    assert_eq!(gossip.topics().count(), 3);
    assert!(is_subscribed(&gossip, &Topic::Mempool.hash()));
    assert!(is_subscribed(&gossip, &Topic::HotStuffRsBroadcast.hash()));
}

#[test]
fn discovery_tick_starts_a_query() {
    let (_, _, local_peer_id) = new_identity();
    let mut kad = new_kad(local_peer_id);
    assert_eq!(kad.iter_queries().count(), 0);
    handle_discovery_tick(&mut kad);
    assert_eq!(kad.iter_queries().count(), 1);
    handle_discovery_tick(&mut kad);
    assert_eq!(kad.iter_queries().count(), 2);
}

#[test]
fn publish_over_the_transmission_limit_is_refused() {
    let (keypair, local, _) = new_identity();
    let mut gossip = new_gossip(&keypair, local);
    let txn = pchain_types::blockchain::Transaction {
        signer: local,
        nonce: 0,
        commands: vec![pchain_types::blockchain::Command::Deploy(pchain_types::runtime::DeployInput {
            contract: vec![7u8; 4 * 1024 * 1024 + 1],
            cbi_version: 0,
        })],
        gas_limit: 200000,
        max_base_fee_per_gas: 8,
        priority_fee_per_gas: 0,
        hash: [0u8; 32],
        signature: [0u8; 64],
    };
    let outcome = handle_command(&mut gossip, local, PeerCommand::Publish(Topic::Mempool, Message::Mempool(txn)));
    assert!(matches!(outcome, CommandOutcome::Continue(None, Err(gossipsub::PublishError::MessageTooLarge))));
}
