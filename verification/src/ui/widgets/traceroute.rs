use vstd::prelude::*;
use crate::ui::DnsStatus;

verus! {

/// The traceroute table.
#[derive(Default)]
pub struct TracerouteWidget;

pub const TITLE_COMPLETE: &'static str = " Traceroute (Complete) ";

pub const TITLE_RUNNING: &'static str = " Traceroute (Running...) ";

pub const HOSTNAME_RESOLVING: &'static str = "Resolving...";

pub const HOSTNAME_UNKNOWN: &'static str = "Unknown";

impl TracerouteWidget {
    /// The table's title.
    pub fn title(complete: bool) -> (t: &'static str)
        ensures
            t == (if complete { TITLE_COMPLETE } else { TITLE_RUNNING }),
    {
        if complete {
            TITLE_COMPLETE
        } else {
            TITLE_RUNNING
        }
    }

    /// The hostname column of an answered hop, from its reverse-DNS state.
    pub fn hostname_text(status: Option<&DnsStatus>) -> (s: String)
        ensures
            s@ == (match status {
                Some(DnsStatus::Resolving) => HOSTNAME_RESOLVING@,
                Some(DnsStatus::Resolved(name)) => name@,
                _ => HOSTNAME_UNKNOWN@,
            }),
    {
        match status {
            Some(DnsStatus::Resolving) => String::from_str(HOSTNAME_RESOLVING),
            Some(DnsStatus::Resolved(name)) => name.clone(),
            _ => String::from_str(HOSTNAME_UNKNOWN),
        }
    }
}

} // verus!
