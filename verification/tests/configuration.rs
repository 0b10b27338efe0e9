use libp2p::identity::ed25519;
use libp2p::identity::Keypair;
use pchain_network::configuration::Config;
use pchain_network::conversions;
use pchain_network::peer_info::PeerInfo;

#[test]
fn create_test_config_auto_keypair() {
    let test_config = Config::new();
    let test_config_public_address = conversions::public_address(&test_config.keypair.public());
    assert!(test_config_public_address.is_some());
    assert_eq!(test_config_public_address.unwrap().len(), 32);
    assert_eq!(test_config.boot_nodes.len(), 0);
    assert_eq!(test_config.port, 25519);
    assert_eq!(test_config.send_command_buffer_size, 8);
    assert_eq!(test_config.private_msg_buffer_size, 10);
    assert_eq!(test_config.broadcast_msg_buffer_size, 10);
    assert_eq!(test_config.peer_discovery_interval, 10);
}

#[test]
fn create_test_config_existing_keypair() {
    let existing_keypair = ed25519::Keypair::generate();
    let encoded_existing_keypair = existing_keypair.to_bytes();
    let result = Config::new_with_keypair(encoded_existing_keypair.to_vec());
    let test_config_public_address = conversions::public_address(&result.keypair.public());
    assert!(test_config_public_address.is_some());
    assert_eq!(test_config_public_address.unwrap().len(), 32);
    assert_eq!(result.boot_nodes.len(), 0);
    assert_eq!(result.port, 25519);
    assert_eq!(result.send_command_buffer_size, 8);
    assert_eq!(result.private_msg_buffer_size, 10);
    assert_eq!(result.broadcast_msg_buffer_size, 10);
    assert_eq!(result.peer_discovery_interval, 10);
}

#[test]
fn config_existing_keypair_keeps_public_key() {
    let existing_keypair = ed25519::Keypair::generate();
    let expected = existing_keypair.public().to_bytes();
    let result = Config::new_with_keypair(existing_keypair.to_bytes().to_vec());
    assert_eq!(conversions::public_address(&result.keypair.public()), Some(expected));
}

#[test]
fn config_try_new_with_keypair_refuses_bad_bytes() {
    assert!(Config::try_new_with_keypair(vec![1u8; 10]).is_none());
    assert!(Config::try_new_with_keypair(vec![]).is_none());
    let existing_keypair = ed25519::Keypair::generate();
    let config = Config::try_new_with_keypair(existing_keypair.to_bytes().to_vec());
    assert!(config.is_some());
    assert_eq!(config.unwrap().port, 25519);
}

#[test]
fn test_set_port() {
    let new_port = 12345;
    let test_config = Config::set_port(Config::new(), new_port);
    assert_eq!(test_config.port, new_port);
}

#[test]
fn test_set_send_command_buffer_size() {
    let new_send_command_buffer_size = 10;
    let test_config =
        Config::set_send_command_buffer_size(Config::new(), new_send_command_buffer_size);
    assert_eq!(test_config.send_command_buffer_size, new_send_command_buffer_size);
}

#[test]
fn test_set_private_msg_buffer_size() {
    let new_private_msg_buffer_size = 15;
    let test_config = Config::set_private_msg_buffer_size(Config::new(), new_private_msg_buffer_size);
    assert_eq!(test_config.private_msg_buffer_size, new_private_msg_buffer_size);
}

#[test]
fn test_set_broadcast_msg_buffer_size() {
    let new_broadcast_msg_buffer_size = 15;
    let test_config =
        Config::set_broadcast_msg_buffer_size(Config::new(), new_broadcast_msg_buffer_size);
    assert_eq!(test_config.broadcast_msg_buffer_size, new_broadcast_msg_buffer_size);
}

#[test]
fn test_set_peer_discovery_interval() {
    let new_peer_discovery_interval = 15;
    let test_config = Config::set_peer_discovery_interval(Config::new(), new_peer_discovery_interval);
    assert_eq!(test_config.peer_discovery_interval, new_peer_discovery_interval);
}

#[test]
fn setters_leave_other_fields() {
    let config = Config::new().set_port(1).set_peer_discovery_interval(30);
    assert_eq!(config.port, 1);
    assert_eq!(config.peer_discovery_interval, 30);
    assert_eq!(config.send_command_buffer_size, 8);
    assert_eq!(config.private_msg_buffer_size, 10);
    assert_eq!(config.broadcast_msg_buffer_size, 10);
    let cloned = config.clone();
    assert_eq!(cloned.port, 1);
    assert_eq!(cloned.keypair.public(), config.keypair.public());
}

#[test]
fn test_set_boot_nodes() {
    let boot_node_public_key = Keypair::generate_ed25519().public();
    let boot_node_public_key_bytes = conversions::public_address(&boot_node_public_key).unwrap();
    let boot_node_ip_address = [127u8, 0, 0, 1];
    let boot_node_port: u16 = 1;

    let boot_node = PeerInfo::new(boot_node_public_key_bytes, boot_node_ip_address, boot_node_port);

    let new_boot_nodes = vec![boot_node.clone()];
    let test_config = Config::set_boot_nodes(Config::new(), new_boot_nodes);
    assert_eq!(test_config.boot_nodes.len(), 1);
    assert_eq!(test_config.boot_nodes[0].peer_id.clone(), boot_node.peer_id);
}

#[test]
fn test_new_peer_info() {
    let test_keypair = Keypair::generate_ed25519();
    let test_public_key_bytes = conversions::public_address(&test_keypair.public()).unwrap();
    let test_ip_address = [127u8, 0, 0, 1];
    let test_port: u16 = 1;

    let test_peer_info = PeerInfo::new(test_public_key_bytes, test_ip_address, test_port);

    assert_eq!(test_peer_info.ip_address, [127, 0, 0, 1]);
    assert_eq!(test_peer_info.peer_id.to_string().len(), 52);
    assert_eq!(test_peer_info.port, 1);
    assert_eq!(test_peer_info.peer_id, test_keypair.public().to_peer_id());
    let back: [u8; 32] = conversions::PublicAddress::try_from(test_peer_info.peer_id).ok().unwrap().into();
    assert_eq!(back, test_public_key_bytes);
}

#[test]
fn peer_info_try_new_matches_key_validity() {
    let mut refused = 0;
    for i in 0..=255u8 {
        let address = [i; 32];
        let info = PeerInfo::try_new(address, [10, 0, 0, 1], 7);
        let valid = ed25519::PublicKey::try_from_bytes(&address).is_ok();
        assert_eq!(info.is_some(), valid);
        if let Some(info) = info {
            assert_eq!(info.port, 7);
            assert_eq!(info.ip_address, [10, 0, 0, 1]);
        } else {
            refused += 1;
        }
    }
    assert!(refused > 0);
}
