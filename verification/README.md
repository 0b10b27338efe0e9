# pchain_network

Peer-to-peer networking of the ParallelChain protocol, as a Verus-verified library.

A peer combines four libp2p protocols over a Noise-authenticated TCP transport: Kademlia
(routing), Identify, Ping and Gossipsub (publish/subscribe messaging).

## Layout

- `src/` — the verified library.
  - `messages.rs`: topics, their names (URL-safe base64 of the mailbox address) and hashes,
    messages and their borsh framing.
  - `config.rs`, `configuration.rs`, `constants.rs`, `peer_info.rs`: configuration of a peer.
  - `conversions.rs`: public addresses and peer ids, decoding of gossipsub messages into
    messages of the accepted topics, IPv4 multiaddresses.
  - `behaviour.rs`: subscriptions of the gossipsub behaviour and the Kademlia routing table.
  - `peer.rs`: the decisions of the event loop (commands, gossip messages, identification,
    closed connections, discovery) and the laws that they keep.
- `app/` — the swarm, the transport and the asynchronous event loop that runs those decisions.
- `tests/` — tests of the library on concrete values.
