//! Configuration parameters provided by the library user, built from defaults.
//!
//! For convenience, default values are predefined when calling `new()` or
//! `new_with_keypair()`:
//! - Port number: 25519
//! - Buffer size of send commands: 8
//! - Buffer size of message: 10
//! - Buffer size of broadcast messages: 10
//! - Interval for peer discover: 10 secs

use crate::constants::{
    BRAODCAST_MSG_BUFFER_SIZE, PEER_DISCOVERY_INTERVAL, PORT_NUMBER, PRIVATE_MSG_BUFFER_SIZE,
    SEND_COMMAND_BUFFER_SIZE,
};
use crate::peer_info::PeerInfo;
use libp2p::identity::{DecodingError, Keypair};
use vstd::prelude::*;

verus! {

#[verifier::external_type_specification]
#[verifier::external_body]
pub struct ExIdentityKeypair(Keypair);

/// Whether the bytes are an Ed25519 keypair in the format of `Keypair::to_bytes`: 64 bytes, the
/// secret key followed by its public key.
pub uninterp spec fn ed25519_keypair_bytes_valid(bytes: Seq<u8>) -> bool;

/// The bytes of the public key of an identity keypair, when it is an Ed25519 keypair.
pub uninterp spec fn keypair_ed25519_public_bytes(keypair: Keypair) -> Option<Seq<u8>>;

/// `Keypair::generate_ed25519`: a random keypair, which is an Ed25519 keypair; nothing else is
/// stated of it.
#[verifier::external_body]
fn generate_ed25519_keypair() -> (res: Keypair)
    ensures
        keypair_ed25519_public_bytes(res) is Some,
{
    Keypair::generate_ed25519()
}

/// `ed25519::Keypair::try_from_bytes`, taken as an identity keypair. It succeeds exactly on the
/// bytes named [ed25519_keypair_bytes_valid], which are 64 bytes long (it refuses any other
/// length before it looks at the bytes). `SigningKey::from_keypair_bytes` accepts the bytes only
/// when the public key derived from the secret half equals the key in the last 32 bytes, so the
/// keypair's public key has those bytes.
#[verifier::external_body]
fn ed25519_keypair_from_bytes(bytes: &mut Vec<u8>) -> (res: Result<Keypair, DecodingError>)
    ensures
        res is Ok <==> ed25519_keypair_bytes_valid(old(bytes)@),
        ed25519_keypair_bytes_valid(old(bytes)@) ==> old(bytes)@.len() == 64,
        res matches Ok(k) ==> keypair_ed25519_public_bytes(k) == Some(old(bytes)@.subrange(32, 64)),
{
    match libp2p::identity::ed25519::Keypair::try_from_bytes(bytes.as_mut_slice()) {
        Ok(k) => Ok(k.into()),
        Err(e) => Err(e),
    }
}

/// `Clone` of a keypair: the copy equals the original.
pub assume_specification[ <Keypair as Clone>::clone ](k: &Keypair) -> (res: Keypair)
    ensures
        res == *k,
;

/// Configuration that specifies parameters such as network connection, node identification,
/// message buffer sizes and interval.
pub struct Config {
    /// keypair used for identification of this network node
    pub keypair: Keypair,
    /// port number for TCP connection
    pub port: u16,
    /// bootstrap nodes for initial connection
    pub boot_nodes: Vec<PeerInfo>,
    /// buffer size of commands initiated from caller
    pub send_command_buffer_size: usize,
    /// buffer size of message that is sent to this network node.
    pub private_msg_buffer_size: usize,
    /// buffer size of broadcast messages.
    pub broadcast_msg_buffer_size: usize,
    /// Interval in seconds for querying networking to discover peers.
    pub peer_discovery_interval: u64,
}

impl Clone for Config {
    fn clone(&self) -> (res: Config)
        ensures
            res.keypair == self.keypair,
            res.port == self.port,
            res.boot_nodes@ == self.boot_nodes@,
            res.send_command_buffer_size == self.send_command_buffer_size,
            res.private_msg_buffer_size == self.private_msg_buffer_size,
            res.broadcast_msg_buffer_size == self.broadcast_msg_buffer_size,
            res.peer_discovery_interval == self.peer_discovery_interval,
    {
        let mut boot_nodes: Vec<PeerInfo> = Vec::new();
        let mut i: usize = 0;
        while i < self.boot_nodes.len()
            invariant
                0 <= i <= self.boot_nodes.len(),
                boot_nodes@ == self.boot_nodes@.take(i as int),
            decreases self.boot_nodes.len() - i,
        {
            boot_nodes.push(self.boot_nodes[i]);
            assert(self.boot_nodes@.take(i + 1) =~= self.boot_nodes@.take(i as int).push(self.boot_nodes@[i as int]));
            i = i + 1;
        }
        assert(self.boot_nodes@.take(self.boot_nodes.len() as int) =~= self.boot_nodes@);
        Config {
            keypair: self.keypair.clone(),
            port: self.port,
            boot_nodes,
            send_command_buffer_size: self.send_command_buffer_size,
            private_msg_buffer_size: self.private_msg_buffer_size,
            broadcast_msg_buffer_size: self.broadcast_msg_buffer_size,
            peer_discovery_interval: self.peer_discovery_interval,
        }
    }
}

/// Whether a configuration holds the default parameters, with no bootstrap nodes.
pub open spec fn has_defaults(config: Config) -> bool {
    &&& config.port == 25519
    &&& config.boot_nodes@.len() == 0
    &&& config.send_command_buffer_size == 8
    &&& config.private_msg_buffer_size == 10
    &&& config.broadcast_msg_buffer_size == 10
    &&& config.peer_discovery_interval == 10
}

impl Config {
    fn with_keypair(keypair: Keypair) -> (res: Self)
        ensures
            has_defaults(res),
            res.keypair == keypair,
    {
        Config {
            keypair,
            port: PORT_NUMBER,
            boot_nodes: Vec::new(),
            send_command_buffer_size: SEND_COMMAND_BUFFER_SIZE,
            private_msg_buffer_size: PRIVATE_MSG_BUFFER_SIZE,
            broadcast_msg_buffer_size: BRAODCAST_MSG_BUFFER_SIZE,
            peer_discovery_interval: PEER_DISCOVERY_INTERVAL,
        }
    }

    /// Create config with an automatically generated keypair.
    pub fn new() -> (res: Self)
        ensures
            has_defaults(res),
            keypair_ed25519_public_bytes(res.keypair) is Some,
    {
        Self::with_keypair(generate_ed25519_keypair())
    }

    /// Create config with an existing Ed25519 keypair, in the format of `Keypair::to_bytes`.
    pub fn new_with_keypair(keypair_bytes: Vec<u8>) -> (res: Self)
        requires
            ed25519_keypair_bytes_valid(keypair_bytes@),
        ensures
            has_defaults(res),
            keypair_ed25519_public_bytes(res.keypair) == Some(keypair_bytes@.subrange(32, 64)),
    {
        let mut keypair_bytes = keypair_bytes;
        let keypair = ed25519_keypair_from_bytes(&mut keypair_bytes).unwrap();
        Self::with_keypair(keypair)
    }

    /// Create config with an existing Ed25519 keypair, in the format of `Keypair::to_bytes`;
    /// `None` when the bytes are no such keypair.
    pub fn try_new_with_keypair(keypair_bytes: Vec<u8>) -> (res: Option<Self>)
        ensures
            res is Some <==> ed25519_keypair_bytes_valid(keypair_bytes@),
            res matches Some(config) ==> has_defaults(config),
            res matches Some(config) ==> keypair_ed25519_public_bytes(config.keypair) == Some(
                keypair_bytes@.subrange(32, 64),
            ),
    {
        let mut probe = keypair_bytes.clone();
        if ed25519_keypair_from_bytes(&mut probe).is_ok() {
            Some(Self::new_with_keypair(keypair_bytes))
        } else {
            None
        }
    }

    /// Set the port number used for networking
    pub fn set_port(self, port: u16) -> (res: Self)
        ensures
            res == (Config { port, ..self }),
    {
        let mut config = self;
        config.port = port;
        config
    }

    /// buffer size of commands initiated from caller
    pub fn set_send_command_buffer_size(self, send_command_buffer_size: usize) -> (res: Self)
        ensures
            res == (Config { send_command_buffer_size, ..self }),
    {
        let mut config = self;
        config.send_command_buffer_size = send_command_buffer_size;
        config
    }

    /// buffer size of message that is sent to this network node.
    pub fn set_private_msg_buffer_size(self, private_msg_buffer_size: usize) -> (res: Self)
        ensures
            res == (Config { private_msg_buffer_size, ..self }),
    {
        let mut config = self;
        config.private_msg_buffer_size = private_msg_buffer_size;
        config
    }

    /// buffer size of broadcast messages.
    pub fn set_broadcast_msg_buffer_size(self, broadcast_msg_buffer_size: usize) -> (res: Self)
        ensures
            res == (Config { broadcast_msg_buffer_size, ..self }),
    {
        let mut config = self;
        config.broadcast_msg_buffer_size = broadcast_msg_buffer_size;
        config
    }

    /// Interval in seconds for querying networking to discover peers.
    pub fn set_peer_discovery_interval(self, peer_discovery_interval: u64) -> (res: Self)
        ensures
            res == (Config { peer_discovery_interval, ..self }),
    {
        let mut config = self;
        config.peer_discovery_interval = peer_discovery_interval;
        config
    }

    /// bootstrap nodes for initial connection
    pub fn set_boot_nodes(self, boot_nodes: Vec<PeerInfo>) -> (res: Self)
        ensures
            res == (Config { boot_nodes, ..self }),
    {
        let mut config = self;
        config.boot_nodes = boot_nodes;
        config
    }
}

} // verus!
