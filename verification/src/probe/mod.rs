pub mod ping;
pub mod traceroute;
