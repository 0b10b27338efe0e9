//! ParallelChain Network peer-to-peer networking: topics, message framing, the
//! subscription bookkeeping of a peer and the decisions of its event loop.

pub mod behaviour;
pub mod config;
pub mod configuration;
pub use config::Config;
pub mod constants;
pub mod conversions;
pub mod messages;
pub mod peer;
pub mod peer_info;
