pub mod bandwidth;
pub mod icmp;
