use libp2p::gossipsub::IdentTopic;
use pchain_network::messages::Topic;

#[test]
fn test_message_topic() {
    let hotstuff_broadcast_topic = Topic::HotStuffRsBroadcast;
    let ident_topic = IdentTopic::new("hotstuff_rs".to_string());
    assert_eq!(hotstuff_broadcast_topic.hash().as_str(), ident_topic.hash().as_str());

    let hotstuff_send_topic = Topic::HotStuffRsSend([1u8; 32]);
    let ident_topic = IdentTopic::new(String::from("hotstuff_rs/") + &base64url::encode([1u8; 32]));
    assert_eq!(hotstuff_send_topic.hash().as_str(), ident_topic.hash().as_str());

    let mempool_topic = Topic::Mempool;
    let ident_topic = IdentTopic::new("mempool".to_string());
    assert_eq!(mempool_topic.hash().as_str(), ident_topic.hash().as_str());
}

#[test]
fn topic_names_are_exact() {
    assert_eq!(Topic::HotStuffRsBroadcast.name(), "hotstuff_rs");
    assert_eq!(Topic::Mempool.name(), "mempool");
    assert_eq!(
        Topic::HotStuffRsSend([0u8; 32]).name(),
        "hotstuff_rs/AAAAAAAAAAAAAAAAAAAAAAAAAAAAAAAAAAAAAAAAAAA"
    );
    assert_eq!(
        Topic::HotStuffRsSend([255u8; 32]).name(),
        "hotstuff_rs/__________________________________________8"
    );
}

#[test]
fn mailbox_names_differ_by_address() {
    let a = Topic::HotStuffRsSend([1u8; 32]).hash();
    let b = Topic::HotStuffRsSend([2u8; 32]).hash();
    assert!(!a.same_as(&b));
    assert!(a.same_as(&Topic::HotStuffRsSend([1u8; 32]).hash()));
    assert!(!Topic::HotStuffRsBroadcast.hash().same_as(&Topic::Mempool.hash()));
}
