pub mod error;
pub mod traceroute;

use vstd::prelude::*;

verus! {

/// The panel that fills the dashboard below the top bar.
#[derive(Debug, Clone, Copy, PartialEq, Eq)]
pub enum ActiveWidget {
    Latency,
    Bandwidth,
    Traceroute,
    Error,
}

} // verus!
