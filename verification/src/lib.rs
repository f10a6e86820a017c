//! Core logic of a Tezos node shell: the peer population controller that keeps
//! the number of live peer connections inside an operator-defined band,
//! together with the plain data model of the node's FFI and peer-to-peer
//! messages and the rule that turns a node configuration into its launch
//! arguments.

pub mod ack;
pub mod address;
pub mod connection;
pub mod ffi;
pub mod node_config;
pub mod peer_manager;
pub mod policy;
pub mod pool;
pub mod registry;
