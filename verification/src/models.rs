use vstd::prelude::*;

verus! {

/// `std::io::Error` is carried through unchanged as the cause of a socket
/// failure; nothing in this crate looks inside it.
#[verifier::external_type_specification]
#[verifier::external_body]
pub struct ExIoError(std::io::Error);

/// The kinds of `std::io::ErrorKind` that decide how an I/O failure is
/// reported; every other kind is `Other`.
#[derive(Debug, Clone, Copy, PartialEq, Eq)]
pub enum IoFailure {
    PermissionDenied,
    ConnectionRefused,
    TimedOut,
    WouldBlock,
    Other,
}

/// Why a measurement could not be taken.
#[derive(Debug)]
pub enum ProbeError {
    IcmpTimeout,
    TcpTimeout,
    Socket(std::io::Error),
    PermissionDenied,
    DnsResolution(String),
    BandwidthTestFailed(String),
    RateLimited(String),
    TimeSyncError,
    ThreadPanic(String),
    PacketError(String),
}

/// The variant of a `ProbeError`, without its payload.
#[derive(Debug, Clone, Copy, PartialEq, Eq)]
pub enum ProbeErrorKind {
    IcmpTimeout,
    TcpTimeout,
    Socket,
    PermissionDenied,
    DnsResolution,
    BandwidthTestFailed,
    RateLimited,
    TimeSyncError,
    ThreadPanic,
    PacketError,
}

impl ProbeErrorKind {
    /// A timeout is a lost probe; systemic failures (permissions, socket
    /// errors, ...) are not counted as network loss.
    pub open spec fn spec_counts_as_loss(self) -> bool {
        self == ProbeErrorKind::IcmpTimeout || self == ProbeErrorKind::TcpTimeout
    }

    /// Whether this outcome counts as a lost packet in the loss statistics.
    pub fn counts_as_loss(self) -> (res: bool)
        ensures
            res == self.spec_counts_as_loss(),
    {
        match self {
            ProbeErrorKind::IcmpTimeout => true,
            ProbeErrorKind::TcpTimeout => true,
            _ => false,
        }
    }

    /// Only a timed-out probe lets a traceroute go on with the next probe;
    /// any other failure ends it.
    pub fn ends_traceroute(self) -> (res: bool)
        ensures
            res == (self != ProbeErrorKind::IcmpTimeout),
    {
        match self {
            ProbeErrorKind::IcmpTimeout => false,
            _ => true,
        }
    }
}

impl ProbeError {
    /// The variant of this error.
    pub open spec fn spec_kind(&self) -> ProbeErrorKind {
        match self {
            ProbeError::IcmpTimeout => ProbeErrorKind::IcmpTimeout,
            ProbeError::TcpTimeout => ProbeErrorKind::TcpTimeout,
            ProbeError::Socket(_) => ProbeErrorKind::Socket,
            ProbeError::PermissionDenied => ProbeErrorKind::PermissionDenied,
            ProbeError::DnsResolution(_) => ProbeErrorKind::DnsResolution,
            ProbeError::BandwidthTestFailed(_) => ProbeErrorKind::BandwidthTestFailed,
            ProbeError::RateLimited(_) => ProbeErrorKind::RateLimited,
            ProbeError::TimeSyncError => ProbeErrorKind::TimeSyncError,
            ProbeError::ThreadPanic(_) => ProbeErrorKind::ThreadPanic,
            ProbeError::PacketError(_) => ProbeErrorKind::PacketError,
        }
    }

    pub fn kind(&self) -> (k: ProbeErrorKind)
        ensures
            k == self.spec_kind(),
    {
        match self {
            ProbeError::IcmpTimeout => ProbeErrorKind::IcmpTimeout,
            ProbeError::TcpTimeout => ProbeErrorKind::TcpTimeout,
            ProbeError::Socket(_) => ProbeErrorKind::Socket,
            ProbeError::PermissionDenied => ProbeErrorKind::PermissionDenied,
            ProbeError::DnsResolution(_) => ProbeErrorKind::DnsResolution,
            ProbeError::BandwidthTestFailed(_) => ProbeErrorKind::BandwidthTestFailed,
            ProbeError::RateLimited(_) => ProbeErrorKind::RateLimited,
            ProbeError::TimeSyncError => ProbeErrorKind::TimeSyncError,
            ProbeError::ThreadPanic(_) => ProbeErrorKind::ThreadPanic,
            ProbeError::PacketError(_) => ProbeErrorKind::PacketError,
        }
    }

    /// Whether this outcome counts as a lost packet in the loss statistics.
    pub fn counts_as_loss(&self) -> (res: bool)
        ensures
            res == self.spec_kind().spec_counts_as_loss(),
    {
        self.kind().counts_as_loss()
    }

    /// Whether this failure ends a traceroute.
    pub fn ends_traceroute(&self) -> (res: bool)
        ensures
            res == !(*self is IcmpTimeout),
    {
        self.kind().ends_traceroute()
    }
}

impl ProbeError {
    /// How a failure to create or configure a socket is reported: missing
    /// privileges are `PermissionDenied`, anything else a socket error.
    pub fn from_socket_setup(kind: IoFailure, err: std::io::Error) -> (res: Self)
        ensures
            kind == IoFailure::PermissionDenied ==> res is PermissionDenied,
            kind != IoFailure::PermissionDenied ==> res == ProbeError::Socket(err),
    {
        match kind {
            IoFailure::PermissionDenied => ProbeError::PermissionDenied,
            _ => ProbeError::Socket(err),
        }
    }

    /// How a failed TCP handshake is reported: a timed-out connect is a
    /// `TcpTimeout`, a refused permission `PermissionDenied`, anything else
    /// (a refused connection included) a socket error.
    pub fn from_tcp_connect(kind: IoFailure, err: std::io::Error) -> (res: Self)
        ensures
            kind == IoFailure::TimedOut ==> res is TcpTimeout,
            kind == IoFailure::PermissionDenied ==> res is PermissionDenied,
            kind != IoFailure::TimedOut && kind != IoFailure::PermissionDenied ==> res
                == ProbeError::Socket(err),
    {
        match kind {
            IoFailure::TimedOut => ProbeError::TcpTimeout,
            IoFailure::PermissionDenied => ProbeError::PermissionDenied,
            _ => ProbeError::Socket(err),
        }
    }

    /// How a failed blocking receive with a read timeout is reported: the
    /// timeout firing (`WouldBlock` or `TimedOut`) is an `IcmpTimeout`,
    /// anything else a socket error.
    pub fn from_receive(kind: IoFailure, err: std::io::Error) -> (res: Self)
        ensures
            (kind == IoFailure::WouldBlock || kind == IoFailure::TimedOut) ==> res is IcmpTimeout,
            !(kind == IoFailure::WouldBlock || kind == IoFailure::TimedOut) ==> res
                == ProbeError::Socket(err),
    {
        match kind {
            IoFailure::WouldBlock | IoFailure::TimedOut => ProbeError::IcmpTimeout,
            _ => ProbeError::Socket(err),
        }
    }
}

/// The user-facing text of an error of kind `kind` whose payload reads
/// `detail` (ignored by the kinds without a payload).
pub open spec fn spec_error_message(kind: ProbeErrorKind, detail: Seq<char>) -> Seq<char> {
    match kind {
        ProbeErrorKind::IcmpTimeout => "ICMP Timeout"@,
        ProbeErrorKind::TcpTimeout => "TCP Timeout"@,
        ProbeErrorKind::Socket => "Socket Error: "@ + detail,
        ProbeErrorKind::PermissionDenied => "Permission Denied / Unsupported"@,
        ProbeErrorKind::DnsResolution => "DNS Resolution Failed: "@ + detail,
        ProbeErrorKind::BandwidthTestFailed => "Bandwidth Test Failed: "@ + detail,
        ProbeErrorKind::RateLimited => "Rate Limit Exceeded (Ban): "@ + detail,
        ProbeErrorKind::TimeSyncError => "Time Synchronization Error"@,
        ProbeErrorKind::ThreadPanic => "Thread Panic: "@ + detail,
        ProbeErrorKind::PacketError => "Packet Build/Decode Error: "@ + detail,
    }
}

/// The text an error of kind `kind` is shown with, given the text of its
/// payload (empty for the kinds that carry none).
pub fn describe_error(kind: ProbeErrorKind, detail: &str) -> (s: String)
    ensures
        s@ == spec_error_message(kind, detail@),
{
    let (prefix, with_detail) = match kind {
        ProbeErrorKind::IcmpTimeout => ("ICMP Timeout", false),
        ProbeErrorKind::TcpTimeout => ("TCP Timeout", false),
        ProbeErrorKind::Socket => ("Socket Error: ", true),
        ProbeErrorKind::PermissionDenied => ("Permission Denied / Unsupported", false),
        ProbeErrorKind::DnsResolution => ("DNS Resolution Failed: ", true),
        ProbeErrorKind::BandwidthTestFailed => ("Bandwidth Test Failed: ", true),
        ProbeErrorKind::RateLimited => ("Rate Limit Exceeded (Ban): ", true),
        ProbeErrorKind::TimeSyncError => ("Time Synchronization Error", false),
        ProbeErrorKind::ThreadPanic => ("Thread Panic: ", true),
        ProbeErrorKind::PacketError => ("Packet Build/Decode Error: ", true),
    };
    let mut s = String::from_str(prefix);
    if with_detail {
        s.append(detail);
    }
    s
}

impl ProbeError {
    /// The text carried by the variants whose payload is a `String`;
    /// empty for the others.
    pub open spec fn spec_payload(&self) -> Seq<char> {
        match self {
            ProbeError::DnsResolution(m) => m@,
            ProbeError::BandwidthTestFailed(m) => m@,
            ProbeError::RateLimited(m) => m@,
            ProbeError::ThreadPanic(m) => m@,
            ProbeError::PacketError(m) => m@,
            _ => Seq::empty(),
        }
    }

    /// The text this error is shown with.  A socket error carries the
    /// `Display` text of its `std::io::Error` after the prefix; that text
    /// comes from the operating system and is not stated here.
    pub fn message(&self) -> (s: String)
        ensures
            !(*self is Socket) ==> s@ == spec_error_message(self.spec_kind(), self.spec_payload()),
            *self is Socket ==> "Socket Error: "@.is_prefix_of(s@),
    {
        match self {
            ProbeError::Socket(e) => {
                let text = e.to_string();
                let s = describe_error(ProbeErrorKind::Socket, text.as_str());
                proof {
                    reveal_strlit("Socket Error: ");
                    assert(s@.subrange(0, "Socket Error: "@.len() as int) =~= "Socket Error: "@);
                }
                s
            },
            ProbeError::DnsResolution(m) => describe_error(ProbeErrorKind::DnsResolution, m.as_str()),
            ProbeError::BandwidthTestFailed(m) => describe_error(
                ProbeErrorKind::BandwidthTestFailed,
                m.as_str(),
            ),
            ProbeError::RateLimited(m) => describe_error(ProbeErrorKind::RateLimited, m.as_str()),
            ProbeError::ThreadPanic(m) => describe_error(ProbeErrorKind::ThreadPanic, m.as_str()),
            ProbeError::PacketError(m) => describe_error(ProbeErrorKind::PacketError, m.as_str()),
            _ => describe_error(self.kind(), ""),
        }
    }
}

} // verus!
