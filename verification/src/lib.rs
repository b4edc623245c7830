//! Packet-level and decision logic of a dual-layer (ICMP + TCP) network
//! quality monitor: ICMP echo construction and the RFC 1071 checksum,
//! decoding of echo replies and ICMP error messages, the rules that match
//! a received datagram to the probe that caused it, the engine's command
//! handling, the traceroute hop bookkeeping and the dashboard's input rules.

pub mod engine;
pub mod models;
pub mod network;
pub mod probe;
pub mod text;
pub mod ui;
pub mod utils;
