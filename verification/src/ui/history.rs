use vstd::prelude::*;
use super::HISTORY_SIZE;
use crate::models::ProbeError;

verus! {

/// One measurement tick: the ICMP and TCP outcomes of the probes sent with
/// the same sequence number (a latency of type `T`, or why there is none).
pub struct PingRecord<T> {
    pub sequence_number: u64,
    pub target_ip: String,
    pub icmp_ping: Result<T, ProbeError>,
    pub tcp_ping: Result<T, ProbeError>,
    pub timestamp: u64,
}

/// The slot of the ring buffer that holds tick `seq`.
pub open spec fn slot_index(seq: u64) -> int {
    seq as int % HISTORY_SIZE as int
}

fn slot_of(seq: u64) -> (i: usize)
    ensures
        i as int == slot_index(seq),
        i < HISTORY_SIZE,
{
    (seq % 100) as usize
}

/// What the slot of a tick holds when the window is walked.
#[derive(Debug, Clone, Copy, PartialEq, Eq)]
pub enum WindowEntry {
    /// The slot holds this tick.
    Held(u64),
    /// The slot holds another tick.
    Stale,
    /// The slot was never written.
    Empty,
}

/// The first tick of the window that ends at `latest`.
pub open spec fn window_start(latest: u64) -> u64 {
    if latest >= HISTORY_SIZE {
        (latest - HISTORY_SIZE) as u64
    } else {
        0
    }
}

/// Whether a held tick's ICMP probe timed out (a lost packet; other
/// failures are systemic, not loss).
pub open spec fn timed_out<T>(o: Option<PingRecord<T>>) -> bool {
    match o {
        Some(r) => match r.icmp_ping {
            Err(ProbeError::IcmpTimeout) => true,
            _ => false,
        },
        None => false,
    }
}

/// The first tick of the window (and of the chart's time axis) that ends
/// at `latest`.
pub fn window_first(latest: u64) -> (first: u64)
    ensures
        first == window_start(latest),
{
    if latest >= 100 {
        latest - 100
    } else {
        0
    }
}

/// The latest `HISTORY_SIZE` ticks, tick `seq` in slot `seq % HISTORY_SIZE`;
/// a newer tick overwrites the one `HISTORY_SIZE` ticks older.
pub struct PingHistory<T> {
    slots: Vec<Option<PingRecord<T>>>,
    latest_sequence: u64,
    current_target_ip: String,
}

impl<T> PingHistory<T> {
    pub closed spec fn wf(&self) -> bool {
        self.slots@.len() == HISTORY_SIZE
    }

    /// The slots, indexed by `slot_index`.
    pub closed spec fn slots_view(&self) -> Seq<Option<PingRecord<T>>> {
        self.slots@
    }

    /// The target named by the most recent update (empty before any).
    pub closed spec fn spec_target(&self) -> Seq<char> {
        self.current_target_ip@
    }

    /// The highest tick recorded so far (0 before any).
    pub closed spec fn spec_latest(&self) -> u64 {
        self.latest_sequence
    }

    /// The record of tick `seq`, if its slot still holds it.
    pub open spec fn spec_get(&self, seq: u64) -> Option<PingRecord<T>> {
        match self.slots_view()[slot_index(seq)] {
            Some(r) => if r.sequence_number == seq {
                Some(r)
            } else {
                None
            },
            None => None,
        }
    }

    /// What the slot of tick `seq` holds.
    pub open spec fn spec_entry(&self, seq: u64) -> WindowEntry {
        match self.slots_view()[slot_index(seq)] {
            Some(r) => if r.sequence_number == seq {
                WindowEntry::Held(seq)
            } else {
                WindowEntry::Stale
            },
            None => WindowEntry::Empty,
        }
    }

    /// The number of ticks in the window.
    pub open spec fn window_len(&self) -> int {
        self.spec_latest() - window_start(self.spec_latest()) + 1
    }

    /// The tick at position `k` of the window.
    pub open spec fn window_tick(&self, k: int) -> u64 {
        (window_start(self.spec_latest()) + k) as u64
    }

    /// Held ticks among the first `n` of the window.
    pub open spec fn held_in_window(&self, n: int) -> nat
        decreases n,
    {
        if n <= 0 {
            0
        } else {
            self.held_in_window(n - 1) + if self.spec_get(self.window_tick(n - 1)) is Some {
                1nat
            } else {
                0nat
            }
        }
    }

    /// Held ticks among the first `n` of the window whose ICMP probe timed out.
    pub open spec fn lost_in_window(&self, n: int) -> nat
        decreases n,
    {
        if n <= 0 {
            0
        } else {
            self.lost_in_window(n - 1) + if timed_out(self.spec_get(self.window_tick(n - 1))) {
                1nat
            } else {
                0nat
            }
        }
    }

    /// `held_in_window` and `lost_in_window` at a machine-integer position.
    pub open spec fn held_before(&self, k: u64) -> nat {
        self.held_in_window(k as int)
    }

    pub open spec fn lost_before(&self, k: u64) -> nat {
        self.lost_in_window(k as int)
    }

    pub open spec fn tick_at(&self, k: u64) -> u64 {
        self.window_tick(k as int)
    }

    /// An empty history.
    pub fn new() -> (h: Self)
        ensures
            h.wf(),
            h.spec_latest() == 0,
            h.spec_target() == Seq::<char>::empty(),
            h.slots_view().len() == HISTORY_SIZE,
            forall|i: int| 0 <= i < HISTORY_SIZE ==> h.slots_view()[i] is None,
    {
        let mut slots: Vec<Option<PingRecord<T>>> = Vec::with_capacity(HISTORY_SIZE);
        let mut k: usize = 0;
        while k < HISTORY_SIZE
            invariant
                k <= HISTORY_SIZE,
                slots@.len() == k,
                forall|i: int| 0 <= i < k ==> slots@[i] is None,
            decreases HISTORY_SIZE - k,
        {
            slots.push(None);
            k += 1;
        }
        PingHistory { slots, latest_sequence: 0, current_target_ip: String::new() }
    }

    /// The target named by the most recent update.
    pub fn current_target_ip(&self) -> (s: &str)
        ensures
            s@ == self.spec_target(),
    {
        self.current_target_ip.as_str()
    }

    pub fn latest_sequence(&self) -> (s: u64)
        ensures
            s == self.spec_latest(),
    {
        self.latest_sequence
    }

    /// The record of tick `seq`, if it is still held.
    pub fn get(&self, seq: u64) -> (r: Option<&PingRecord<T>>)
        requires
            self.wf(),
        ensures
            match r {
                Some(x) => self.spec_get(seq) == Some(*x),
                None => self.spec_get(seq) is None,
            },
    {
        let i = slot_of(seq);
        match &self.slots[i] {
            Some(r) => {
                if r.sequence_number == seq {
                    Some(r)
                } else {
                    None
                }
            },
            None => None,
        }
    }

    /// The window of ticks shown and summarised: from
    /// `latest - HISTORY_SIZE` (saturating at 0) up to `latest` inclusive,
    /// each with what its slot holds.
    pub fn window(&self) -> (w: Vec<WindowEntry>)
        requires
            self.wf(),
        ensures
            w@.len() == self.spec_latest() - window_start(self.spec_latest()) + 1,
            forall|k: int|
                0 <= k < w@.len() ==> #[trigger] w@[k] == self.spec_entry(
                    (window_start(self.spec_latest()) + k) as u64,
                ),
    {
        let latest = self.latest_sequence;
        let start = if latest >= 100 {
            latest - 100
        } else {
            0
        };
        let n = latest - start;
        let mut w: Vec<WindowEntry> = Vec::new();
        let mut k: u64 = 0;
        while k <= n
            invariant
                latest == self.spec_latest(),
                start == window_start(latest),
                n == latest - start,
                n <= 100,
                k <= n + 1,
                w@.len() == k,
                self.wf(),
                forall|j: int| 0 <= j < k ==> #[trigger] w@[j] == self.spec_entry((start + j) as u64),
            decreases n + 1 - k,
        {
            let seq = start + k;
            let i = slot_of(seq);
            let entry = match &self.slots[i] {
                Some(r) => {
                    if r.sequence_number == seq {
                        WindowEntry::Held(seq)
                    } else {
                        WindowEntry::Stale
                    }
                },
                None => WindowEntry::Empty,
            };
            w.push(entry);
            k += 1;
        }
        w
    }

    /// The packet-loss counts of the window: held ticks whose ICMP probe
    /// timed out, and all held ticks.
    pub fn loss_counts(&self) -> (counts: (u64, u64))
        requires
            self.wf(),
        ensures
            counts.0 == self.lost_in_window(self.window_len()),
            counts.1 == self.held_in_window(self.window_len()),
    {
        let latest = self.latest_sequence;
        let start = if latest >= 100 {
            latest - 100
        } else {
            0
        };
        let n = latest - start;
        let mut lost: u64 = 0;
        let mut held: u64 = 0;
        let mut k: u64 = 0;
        while k <= n
            invariant
                latest == self.spec_latest(),
                start == window_start(latest),
                n == latest - start,
                n <= 100,
                k <= n + 1,
                self.wf(),
                held <= k,
                lost <= held,
                held == self.held_before(k),
                lost == self.lost_before(k),
            decreases n + 1 - k,
        {
            let seq = start + k;
            let i = slot_of(seq);
            assert(self.tick_at(k) == seq);
            match &self.slots[i] {
                Some(r) => {
                    if r.sequence_number == seq {
                        held += 1;
                        match &r.icmp_ping {
                            Err(ProbeError::IcmpTimeout) => {
                                lost += 1;
                            },
                            _ => {},
                        }
                    }
                },
                None => {},
            }
            k += 1;
        }
        (lost, held)
    }

    /// Takes the record of tick `seq` out of its slot when the slot holds
    /// that tick, leaving the slot empty; otherwise changes nothing.
    fn take_record(&mut self, seq: u64) -> (r: Option<PingRecord<T>>)
        requires
            old(self).wf(),
        ensures
            final(self).wf(),
            final(self).spec_latest() == old(self).spec_latest(),
            final(self).spec_target() == old(self).spec_target(),
            r == old(self).spec_get(seq),
            final(self).slots_view() == (if r is Some {
                old(self).slots_view().update(slot_index(seq), None)
            } else {
                old(self).slots_view()
            }),
    {
        let i = slot_of(seq);
        let held = match &self.slots[i] {
            Some(r) => r.sequence_number == seq,
            None => false,
        };
        if held {
            let mut out: Option<PingRecord<T>> = None;
            self.slots.set_and_swap(i, &mut out);
            out
        } else {
            None
        }
    }

    fn store(&mut self, seq: u64, record: PingRecord<T>)
        requires
            old(self).wf(),
        ensures
            final(self).wf(),
            final(self).spec_latest() == (if seq > old(self).spec_latest() {
                seq
            } else {
                old(self).spec_latest()
            }),
            final(self).spec_target() == old(self).spec_target(),
            final(self).slots_view() == old(self).slots_view().update(slot_index(seq), Some(record)),
    {
        self.latest_sequence = next_latest_sequence(self.latest_sequence, seq);
        let i = slot_of(seq);
        self.slots.set(i, Some(record));
    }

    /// Records the ICMP outcome of tick `seq` and makes `target_ip` the
    /// current target.  If the tick is already held, only its ICMP outcome
    /// and timestamp change; otherwise a new record replaces the slot, its
    /// TCP outcome a `TcpTimeout` until it arrives.
    pub fn update_icmp(&mut self, seq: u64, target_ip: String, result: Result<T, ProbeError>, timestamp: u64)
        requires
            old(self).wf(),
        ensures
            final(self).wf(),
            final(self).spec_latest() == (if seq > old(self).spec_latest() {
                seq
            } else {
                old(self).spec_latest()
            }),
            final(self).spec_target() == target_ip@,
            final(self).slots_view() == old(self).slots_view().update(
                slot_index(seq),
                Some(
                    match old(self).spec_get(seq) {
                        Some(r) => PingRecord {
                            sequence_number: r.sequence_number,
                            target_ip: r.target_ip,
                            icmp_ping: result,
                            tcp_ping: r.tcp_ping,
                            timestamp,
                        },
                        None => PingRecord {
                            sequence_number: seq,
                            target_ip,
                            icmp_ping: result,
                            tcp_ping: Err(ProbeError::TcpTimeout),
                            timestamp,
                        },
                    },
                ),
            ),
    {
        self.current_target_ip = target_ip.clone();
        let record = match self.take_record(seq) {
            Some(r) => PingRecord {
                sequence_number: r.sequence_number,
                target_ip: r.target_ip,
                icmp_ping: result,
                tcp_ping: r.tcp_ping,
                timestamp,
            },
            None => PingRecord {
                sequence_number: seq,
                target_ip,
                icmp_ping: result,
                tcp_ping: Err(ProbeError::TcpTimeout),
                timestamp,
            },
        };
        self.store(seq, record);
    }

    /// Records the TCP outcome of tick `seq` and makes `target_ip` the
    /// current target.  If the tick is already held, only its TCP outcome
    /// and timestamp change; otherwise a new record replaces the slot, its
    /// ICMP outcome an `IcmpTimeout` until it arrives.
    pub fn update_tcp(&mut self, seq: u64, target_ip: String, result: Result<T, ProbeError>, timestamp: u64)
        requires
            old(self).wf(),
        ensures
            final(self).wf(),
            final(self).spec_latest() == (if seq > old(self).spec_latest() {
                seq
            } else {
                old(self).spec_latest()
            }),
            final(self).spec_target() == target_ip@,
            final(self).slots_view() == old(self).slots_view().update(
                slot_index(seq),
                Some(
                    match old(self).spec_get(seq) {
                        Some(r) => PingRecord {
                            sequence_number: r.sequence_number,
                            target_ip: r.target_ip,
                            icmp_ping: r.icmp_ping,
                            tcp_ping: result,
                            timestamp,
                        },
                        None => PingRecord {
                            sequence_number: seq,
                            target_ip,
                            icmp_ping: Err(ProbeError::IcmpTimeout),
                            tcp_ping: result,
                            timestamp,
                        },
                    },
                ),
            ),
    {
        self.current_target_ip = target_ip.clone();
        let record = match self.take_record(seq) {
            Some(r) => PingRecord {
                sequence_number: r.sequence_number,
                target_ip: r.target_ip,
                icmp_ping: r.icmp_ping,
                tcp_ping: result,
                timestamp,
            },
            None => PingRecord {
                sequence_number: seq,
                target_ip,
                icmp_ping: Err(ProbeError::IcmpTimeout),
                tcp_ping: result,
                timestamp,
            },
        };
        self.store(seq, record);
    }
}

/// The highest tick seen once tick `seq` has arrived after `latest`.
pub fn next_latest_sequence(latest: u64, seq: u64) -> (res: u64)
    ensures
        res == (if seq > latest {
            seq
        } else {
            latest
        }),
{
    if seq > latest {
        seq
    } else {
        latest
    }
}

/// The latest measurement after an ICMP outcome for tick `seq` arrives:
/// the previous one with its ICMP outcome replaced and the tick, target and
/// timestamp renewed, or, before any, a record whose TCP outcome is a
/// `TcpTimeout` until one arrives.
pub open spec fn spec_merge_icmp<T>(
    prev: Option<PingRecord<T>>,
    seq: u64,
    target_ip: String,
    result: Result<T, ProbeError>,
    timestamp: u64,
) -> PingRecord<T> {
    PingRecord {
        sequence_number: seq,
        target_ip,
        icmp_ping: result,
        tcp_ping: match prev {
            Some(r) => r.tcp_ping,
            None => Err(ProbeError::TcpTimeout),
        },
        timestamp,
    }
}

/// The latest measurement after a TCP outcome arrives; the mirror image of
/// `spec_merge_icmp`.
pub open spec fn spec_merge_tcp<T>(
    prev: Option<PingRecord<T>>,
    seq: u64,
    target_ip: String,
    result: Result<T, ProbeError>,
    timestamp: u64,
) -> PingRecord<T> {
    PingRecord {
        sequence_number: seq,
        target_ip,
        icmp_ping: match prev {
            Some(r) => r.icmp_ping,
            None => Err(ProbeError::IcmpTimeout),
        },
        tcp_ping: result,
        timestamp,
    }
}

/// Folds an ICMP outcome into the latest measurement shown on the dashboard.
pub fn merge_latest_icmp<T>(
    latest: &mut Option<PingRecord<T>>,
    seq: u64,
    target_ip: String,
    result: Result<T, ProbeError>,
    timestamp: u64,
)
    ensures
        *final(latest) == Some(spec_merge_icmp(*old(latest), seq, target_ip, result, timestamp)),
{
    let prev = latest.take();
    let tcp_ping = match prev {
        Some(r) => r.tcp_ping,
        None => Err(ProbeError::TcpTimeout),
    };
    *latest = Some(PingRecord { sequence_number: seq, target_ip, icmp_ping: result, tcp_ping, timestamp });
}

/// Folds a TCP outcome into the latest measurement shown on the dashboard.
pub fn merge_latest_tcp<T>(
    latest: &mut Option<PingRecord<T>>,
    seq: u64,
    target_ip: String,
    result: Result<T, ProbeError>,
    timestamp: u64,
)
    ensures
        *final(latest) == Some(spec_merge_tcp(*old(latest), seq, target_ip, result, timestamp)),
{
    let prev = latest.take();
    let icmp_ping = match prev {
        Some(r) => r.icmp_ping,
        None => Err(ProbeError::IcmpTimeout),
    };
    *latest = Some(PingRecord { sequence_number: seq, target_ip, icmp_ping, tcp_ping: result, timestamp });
}

/// Law: once the ICMP outcome and then the TCP outcome of the same tick
/// are recorded, the tick's record holds both, whatever the slot held
/// before; other slots are untouched.
pub proof fn lemma_outcomes_meet<T>(
    h0: PingHistory<T>,
    h1: PingHistory<T>,
    h2: PingHistory<T>,
    seq: u64,
    target_ip: String,
    target_ip2: String,
    a: Result<T, ProbeError>,
    b: Result<T, ProbeError>,
    t1: u64,
    t2: u64,
)
    requires
        h0.wf(),
        h1.slots_view() == h0.slots_view().update(
            slot_index(seq),
            Some(
                match h0.spec_get(seq) {
                    Some(r) => PingRecord {
                        sequence_number: r.sequence_number,
                        target_ip: r.target_ip,
                        icmp_ping: a,
                        tcp_ping: r.tcp_ping,
                        timestamp: t1,
                    },
                    None => PingRecord {
                        sequence_number: seq,
                        target_ip,
                        icmp_ping: a,
                        tcp_ping: Err(ProbeError::TcpTimeout),
                        timestamp: t1,
                    },
                },
            ),
        ),
        h2.slots_view() == h1.slots_view().update(
            slot_index(seq),
            Some(
                match h1.spec_get(seq) {
                    Some(r) => PingRecord {
                        sequence_number: r.sequence_number,
                        target_ip: r.target_ip,
                        icmp_ping: r.icmp_ping,
                        tcp_ping: b,
                        timestamp: t2,
                    },
                    None => PingRecord {
                        sequence_number: seq,
                        target_ip: target_ip2,
                        icmp_ping: Err(ProbeError::IcmpTimeout),
                        tcp_ping: b,
                        timestamp: t2,
                    },
                },
            ),
        ),
    ensures
        h2.spec_get(seq) matches Some(r) && r.icmp_ping == a && r.tcp_ping == b && r.timestamp == t2
            && r.sequence_number == seq,
        forall|i: int| 0 <= i < HISTORY_SIZE && i != slot_index(seq) ==> h2.slots_view()[i] == h0.slots_view()[i],
{
    assert(0 <= slot_index(seq) < HISTORY_SIZE);
}

} // verus!
