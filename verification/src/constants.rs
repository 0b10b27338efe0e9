//! Constants of the network's default configuration.

use vstd::prelude::*;

verus! {

// Default configuration
pub const PORT_NUMBER: u16 = 25519;

pub const SEND_COMMAND_BUFFER_SIZE: usize = 8;

pub const PRIVATE_MSG_BUFFER_SIZE: usize = 10;

pub const BRAODCAST_MSG_BUFFER_SIZE: usize = 10;

pub const PEER_DISCOVERY_INTERVAL: u64 = 10;

// Swarm configuration
pub const HEARTBEAT_SECS: u64 = 10;

// Overriding gossipsub configuration: a block is limited to 2 MB, with a factor of safety of 2.
pub const MAX_TRANSMIT_SIZE: usize = 4;

pub const MEGABYTES: usize = 1048576;

// Protocol name of the peer behaviour
pub const PROTOCOL_NAME: &'static str = "/pchain_p2p/1.0.0";

} // verus!
