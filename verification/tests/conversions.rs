use borsh::BorshSerialize;
use hotstuff_rs::messages::{SyncMessage, SyncRequest};
use libp2p::identity::{DecodingError, Keypair};
use libp2p::{Multiaddr, PeerId};
use pchain_network::conversions::{
    filter_gossipsub_messages, multi_addr, multi_addr_text, MessageConversionError, PublicAddress,
    PublicAddressTryFromPeerIdError,
};
use pchain_network::messages::{Message, MessageTopicHash, Topic};
use pchain_types::blockchain::Transaction;

fn sync_request(start_height: u64) -> hotstuff_rs::messages::Message {
    hotstuff_rs::messages::Message::SyncMessage(SyncMessage::SyncRequest(SyncRequest {
        start_height,
        limit: 5,
    }))
}

fn base_tx(signer: [u8; 32]) -> Transaction {
    Transaction {
        signer,
        nonce: 0,
        commands: vec![],
        gas_limit: 200000,
        max_base_fee_per_gas: 8,
        priority_fee_per_gas: 0,
        hash: [0u8; 32],
        signature: [0u8; 64],
    }
}

#[test]
fn test_peer_id_and_public_address_conversion() {
    let test_keypair = Keypair::generate_ed25519();
    let test_peerid = test_keypair.public().to_peer_id();

    let result = PublicAddress::try_from(test_peerid);
    assert!(result.is_ok());

    let result: Result<PeerId, DecodingError> = result.unwrap().try_into();
    assert!(result.is_ok());
    assert_eq!(result.unwrap(), test_peerid);
}

#[test]
fn public_address_of_peer_id_is_the_key() {
    let keypair = libp2p::identity::ed25519::Keypair::generate();
    let expected = keypair.public().to_bytes();
    let peer_id = Keypair::from(keypair).public().to_peer_id();
    let addr: [u8; 32] = PublicAddress::try_from(peer_id).ok().unwrap().into();
    assert_eq!(addr, expected);
    assert_eq!(<[u8; 32]>::from(PublicAddress::new([3u8; 32])), [3u8; 32]);
}

#[test]
fn multi_addr_text_is_dotted_decimal() {
    assert_eq!(multi_addr_text([127, 0, 0, 1], 25519), "/ip4/127.0.0.1/tcp/25519");
    assert_eq!(multi_addr_text([0, 0, 0, 0], 0), "/ip4/0.0.0.0/tcp/0");
    assert_eq!(multi_addr_text([255, 10, 9, 100], 65535), "/ip4/255.10.9.100/tcp/65535");
}

#[test]
fn multi_addr_parses_the_text() {
    let expected: Multiaddr = "/ip4/192.168.1.20/tcp/30001".parse().unwrap();
    assert_eq!(multi_addr([192, 168, 1, 20], 30001), expected);
    assert_eq!(multi_addr([127, 0, 0, 1], 25519).to_string(), "/ip4/127.0.0.1/tcp/25519");
}

#[test]
fn gossip_message_on_broadcast_topic_is_consensus() {
    let local = [7u8; 32];
    let data = sync_request(3).try_to_vec().unwrap();
    let hash = Topic::HotStuffRsBroadcast.hash();
    match filter_gossipsub_messages(&hash, &data, local) {
        Ok(Message::HotStuffRs(m)) => assert_eq!(m.try_to_vec().unwrap(), data),
        _ => panic!("expected a consensus message"),
    }
}

#[test]
fn gossip_message_on_own_mailbox_is_consensus() {
    let local = [7u8; 32];
    let data = sync_request(4).try_to_vec().unwrap();
    let hash = Topic::HotStuffRsSend(local).hash();
    assert!(matches!(filter_gossipsub_messages(&hash, &data, local), Ok(Message::HotStuffRs(_))));
}

#[test]
fn gossip_message_on_mempool_topic_is_transaction() {
    let local = [7u8; 32];
    let txn = base_tx([1u8; 32]);
    let data = txn.try_to_vec().unwrap();
    match filter_gossipsub_messages(&Topic::Mempool.hash(), &data, local) {
        Ok(Message::Mempool(t)) => assert_eq!(t, txn),
        _ => panic!("expected a transaction"),
    }
}

#[test]
fn gossip_message_on_other_mailbox_is_invalid_topic() {
    let local = [7u8; 32];
    let data = sync_request(1).try_to_vec().unwrap();
    let hash = Topic::HotStuffRsSend([8u8; 32]).hash();
    assert!(matches!(
        filter_gossipsub_messages(&hash, &data, local),
        Err(MessageConversionError::InvalidTopicError(_))
    ));
    let unknown = MessageTopicHash::from_raw(String::from("dropped_txns"));
    assert!(matches!(
        filter_gossipsub_messages(&unknown, &data, local),
        Err(MessageConversionError::InvalidTopicError(_))
    ));
}

#[test]
fn gossip_message_with_bad_data_is_deserialize_error() {
    let local = [7u8; 32];
    let hash = Topic::Mempool.hash();
    assert!(matches!(
        filter_gossipsub_messages(&hash, &[1u8, 2, 3], local),
        Err(MessageConversionError::DeserializeError(_))
    ));
    assert!(matches!(
        filter_gossipsub_messages(&Topic::HotStuffRsBroadcast.hash(), &[], local),
        Err(MessageConversionError::DeserializeError(_))
    ));
}

#[test]
fn message_bytes_are_borsh_encoding() {
    let m = sync_request(9);
    let bytes: Vec<u8> = Message::HotStuffRs(m.clone()).into();
    assert_eq!(bytes, m.try_to_vec().unwrap());
    let txn = base_tx([2u8; 32]);
    let bytes: Vec<u8> = Message::Mempool(txn.clone()).into();
    assert_eq!(bytes, txn.try_to_vec().unwrap());
}

#[test]
fn peer_id_without_key_has_no_public_address() {
    let peer_id = PeerId::random();
    assert!(matches!(
        PublicAddress::try_from(peer_id),
        Err(PublicAddressTryFromPeerIdError::DecodingError(_))
    ));
}

#[test]
fn invalid_key_bytes_have_no_peer_id() {
    let mut found_invalid = false;
    for i in 0..=255u8 {
        let result: Result<PeerId, DecodingError> = PublicAddress::new([i; 32]).try_into();
        let valid = libp2p::identity::ed25519::PublicKey::try_from_bytes(&[i; 32]).is_ok();
        assert_eq!(result.is_ok(), valid);
        if !valid {
            found_invalid = true;
        }
    }
    assert!(found_invalid);
}

#[test]
fn sent_bytes_are_received_as_the_same_kind() {
    let local = [7u8; 32];
    let txn = base_tx([4u8; 32]);
    let bytes: Vec<u8> = Message::Mempool(txn.clone()).into();
    match filter_gossipsub_messages(&Topic::Mempool.hash(), &bytes, local) {
        Ok(Message::Mempool(t)) => assert_eq!(t, txn),
        _ => panic!("expected the transaction back"),
    }
    let m = sync_request(11);
    let bytes: Vec<u8> = Message::HotStuffRs(m.clone()).into();
    match filter_gossipsub_messages(&Topic::HotStuffRsSend(local).hash(), &bytes, local) {
        Ok(Message::HotStuffRs(back)) => assert_eq!(back.try_to_vec().unwrap(), m.try_to_vec().unwrap()),
        _ => panic!("expected the consensus message back"),
    }
}
