//! Information which identifies a peer ([PeerInfo]).

use crate::conversions::{
    ed25519_peer_id, ed25519_public_key_from_bytes, ed25519_public_key_valid, peer_id_of_ed25519_key,
    peer_id_public_address,
};
use libp2p::PeerId;
use pchain_types::cryptography::PublicAddress;
use vstd::prelude::*;

verus! {

/// PeerInfo consists of the information that identifies a peer in the network: its peer id,
/// IPv4 address and port number.
#[derive(Clone, Copy)]
pub struct PeerInfo {
    /// Peer id in the p2p network
    pub peer_id: PeerId,
    /// IP address (v4) of connection
    pub ip_address: [u8; 4],
    /// port number of connection
    pub port: u16,
}

impl PeerInfo {
    /// The information of the peer whose public key has the bytes `address`, at this IPv4
    /// address and port. `address` must be an Ed25519 public key.
    pub fn new(address: PublicAddress, ip_address: [u8; 4], port: u16) -> (res: PeerInfo)
        requires
            ed25519_public_key_valid(address@),
        ensures
            res.peer_id == ed25519_peer_id(address),
            peer_id_public_address(res.peer_id) == Some(address),
            res.ip_address == ip_address,
            res.port == port,
    {
        let key = ed25519_public_key_from_bytes(&address).unwrap();
        PeerInfo { peer_id: peer_id_of_ed25519_key(key), ip_address, port }
    }

    /// The information of the peer whose public key has the bytes `address`, at this IPv4
    /// address and port; `None` when `address` is no Ed25519 public key.
    pub fn try_new(address: PublicAddress, ip_address: [u8; 4], port: u16) -> (res: Option<PeerInfo>)
        ensures
            res is Some <==> ed25519_public_key_valid(address@),
            res matches Some(info) ==> {
                &&& info.peer_id == ed25519_peer_id(address)
                &&& peer_id_public_address(info.peer_id) == Some(address)
                &&& info.ip_address == ip_address
                &&& info.port == port
            },
    {
        if ed25519_public_key_from_bytes(&address).is_ok() {
            Some(PeerInfo::new(address, ip_address, port))
        } else {
            None
        }
    }
}

} // verus!
