use vstd::prelude::*;
use std::sync::Arc;
use std::time::Duration;
use crate::text::{spec_decimal, decimal_text};
use crate::utils::{duration_from_millis, millis_duration};

verus! {

/// Host of the bandwidth test server.
pub const BANDWIDTH_TEST_HOST: &'static str = "speed.cloudflare.com";

/// Download path of the bandwidth test server (50 MB per request).
pub const BANDWIDTH_DOWNLOAD_PATH: &'static str = "/__down?bytes=50000000";

/// Per-probe timeout of a traceroute, in milliseconds.
pub const TRACEROUTE_TIMEOUT_MS: u64 = 1000;

/// The largest TTL a traceroute tries.
pub const TRACEROUTE_MAX_HOPS: u8 = 30;

/// Commands the user interface sends to the engine.
#[derive(Debug, Clone, PartialEq, Eq)]
pub enum EngineCommand {
    Pause,
    Resume,
    Stop,
    StartBandwidthTest,
    StartTraceroute(String),
}

/// The measurement engine's configuration.
pub struct CoreEngine {
    pub target_ip: Arc<String>,
    pub target_port: u16,
    pub interval: Duration,
    pub timeout: Duration,
}

impl CoreEngine {
    pub fn new(target_ip: String, target_port: u16, interval_ms: u64, timeout_ms: u64) -> (e: Self)
        ensures
            *e.target_ip == target_ip,
            e.target_port == target_port,
            e.interval == millis_duration(interval_ms),
            e.timeout == millis_duration(timeout_ms),
    {
        Self {
            target_ip: Arc::new(target_ip),
            target_port,
            interval: duration_from_millis(interval_ms),
            timeout: duration_from_millis(timeout_ms),
        }
    }

    /// The "host:port" string resolved before measuring.
    pub fn lookup_address(&self) -> (addr: String)
        ensures
            addr@ == (*self.target_ip)@ + ":"@ + spec_decimal(self.target_port as nat),
    {
        let ip: &String = &self.target_ip;
        let mut addr = ip.clone();
        addr.append(":");
        let port = decimal_text(self.target_port as u64);
        addr.append(port.as_str());
        addr
    }

    /// The ICMP identifier of this engine's probes, derived from the
    /// sub-second nanoseconds of the start time.
    pub fn identifier_from_nanos(subsec_nanos: u32) -> (id: u16)
        ensures
            id as int == subsec_nanos as int % 65535,
    {
        (subsec_nanos % 65535) as u16
    }
}

/// Which background work the engine has running: the periodic ping/TCP
/// probes and a bandwidth test (each stands for a live cancellation token).
pub struct EngineControl {
    pub probes_active: bool,
    pub bandwidth_active: bool,
}

/// What the engine does in answer to one command.
pub struct CommandPlan {
    /// Cancel the running periodic probes.
    pub cancel_probes: bool,
    /// Cancel the running bandwidth test.
    pub cancel_bandwidth: bool,
    /// Spawn a fresh set of periodic probes.
    pub spawn_probes: bool,
    /// Start a bandwidth test.
    pub start_bandwidth: bool,
    /// Start a traceroute towards this target.
    pub start_traceroute: Option<String>,
    /// Leave the command loop.
    pub stop: bool,
}

/// The plan that does nothing.
pub open spec fn idle_plan() -> CommandPlan {
    CommandPlan {
        cancel_probes: false,
        cancel_bandwidth: false,
        spawn_probes: false,
        start_bandwidth: false,
        start_traceroute: None,
        stop: false,
    }
}

/// How the engine answers a command: the control state after it and the
/// work it cancels and starts.
pub open spec fn spec_apply_command(c: EngineControl, cmd: EngineCommand) -> (EngineControl, CommandPlan) {
    match cmd {
        EngineCommand::Pause => (
            EngineControl { probes_active: false, bandwidth_active: c.bandwidth_active },
            CommandPlan { cancel_probes: c.probes_active, ..idle_plan() },
        ),
        EngineCommand::Resume => (
            EngineControl { probes_active: true, bandwidth_active: false },
            CommandPlan {
                cancel_bandwidth: c.bandwidth_active,
                spawn_probes: !c.probes_active,
                ..idle_plan()
            },
        ),
        EngineCommand::Stop => (
            EngineControl { probes_active: false, bandwidth_active: false },
            CommandPlan {
                cancel_probes: c.probes_active,
                cancel_bandwidth: c.bandwidth_active,
                stop: true,
                ..idle_plan()
            },
        ),
        EngineCommand::StartBandwidthTest => (
            EngineControl { probes_active: false, bandwidth_active: true },
            CommandPlan { cancel_probes: c.probes_active, start_bandwidth: true, ..idle_plan() },
        ),
        EngineCommand::StartTraceroute(target) => (
            EngineControl { probes_active: false, bandwidth_active: c.bandwidth_active },
            CommandPlan { cancel_probes: c.probes_active, start_traceroute: Some(target), ..idle_plan() },
        ),
    }
}

impl EngineControl {
    /// The periodic probes and a bandwidth test never run at the same time.
    pub open spec fn wf(&self) -> bool {
        !(self.probes_active && self.bandwidth_active)
    }

    /// The state right after start-up: the periodic probes run.
    pub fn started() -> (c: Self)
        ensures
            c.probes_active,
            !c.bandwidth_active,
            c.wf(),
    {
        EngineControl { probes_active: true, bandwidth_active: false }
    }

    /// Answers one command: updates which work is running and returns what
    /// to cancel and to start.
    pub fn apply(&mut self, cmd: EngineCommand) -> (plan: CommandPlan)
        ensures
            (*final(self), plan) == spec_apply_command(*old(self), cmd),
    {
        let mut plan = CommandPlan {
            cancel_probes: false,
            cancel_bandwidth: false,
            spawn_probes: false,
            start_bandwidth: false,
            start_traceroute: None,
            stop: false,
        };
        match cmd {
            EngineCommand::Pause => {
                if self.probes_active {
                    plan.cancel_probes = true;
                    self.probes_active = false;
                }
            },
            EngineCommand::Resume => {
                if self.bandwidth_active {
                    plan.cancel_bandwidth = true;
                    self.bandwidth_active = false;
                }
                if !self.probes_active {
                    plan.spawn_probes = true;
                    self.probes_active = true;
                }
            },
            EngineCommand::Stop => {
                if self.probes_active {
                    plan.cancel_probes = true;
                    self.probes_active = false;
                }
                if self.bandwidth_active {
                    plan.cancel_bandwidth = true;
                    self.bandwidth_active = false;
                }
                plan.stop = true;
            },
            EngineCommand::StartBandwidthTest => {
                if self.probes_active {
                    plan.cancel_probes = true;
                    self.probes_active = false;
                }
                plan.start_bandwidth = true;
                self.bandwidth_active = true;
            },
            EngineCommand::StartTraceroute(target) => {
                if self.probes_active {
                    plan.cancel_probes = true;
                    self.probes_active = false;
                }
                plan.start_traceroute = Some(target);
            },
        }
        plan
    }
}

/// Law: whatever command arrives, the periodic probes and a bandwidth test
/// are never left running together.
pub proof fn lemma_command_keeps_work_exclusive(c: EngineControl, cmd: EngineCommand)
    requires
        c.wf(),
    ensures
        spec_apply_command(c, cmd).0.wf(),
{
}

/// Law: starting a bandwidth test or a traceroute pauses the periodic
/// probes (cancelling them if they ran), so measurements do not disturb
/// each other.
pub proof fn lemma_tests_pause_probes(c: EngineControl, target: String)
    ensures
        ({
            let (next, plan) = spec_apply_command(c, EngineCommand::StartBandwidthTest);
            !next.probes_active && plan.cancel_probes == c.probes_active && plan.start_bandwidth
        }),
        ({
            let (next, plan) = spec_apply_command(c, EngineCommand::StartTraceroute(target));
            !next.probes_active && plan.cancel_probes == c.probes_active && plan.start_traceroute
                == Some(target)
        }),
{
}

/// Law: `Stop` cancels exactly the work that was running, leaves nothing
/// running and ends the command loop.
pub proof fn lemma_stop_cancels_everything(c: EngineControl)
    ensures
        ({
            let (next, plan) = spec_apply_command(c, EngineCommand::Stop);
            &&& !next.probes_active && !next.bandwidth_active
            &&& plan.cancel_probes == c.probes_active
            &&& plan.cancel_bandwidth == c.bandwidth_active
            &&& plan.stop
            &&& !plan.spawn_probes && !plan.start_bandwidth && plan.start_traceroute is None
        }),
{
}

/// Law: after `Resume` the periodic probes run and no bandwidth test does,
/// and a second set of probes is never spawned beside a running one.
pub proof fn lemma_resume_restores_probes(c: EngineControl)
    ensures
        ({
            let (next, plan) = spec_apply_command(c, EngineCommand::Resume);
            &&& next.probes_active && !next.bandwidth_active
            &&& plan.spawn_probes == !c.probes_active
            &&& !plan.stop
        }),
{
}

/// Law: each command does only what it names.  Only `Stop` leaves the
/// command loop; a bandwidth test starts only on `StartBandwidthTest`, a
/// traceroute only on `StartTraceroute` (towards the target it names), and
/// fresh probes are spawned only on `Resume`.  Work is cancelled only if it
/// was running.
pub proof fn lemma_command_does_only_what_it_names(c: EngineControl, cmd: EngineCommand)
    ensures
        ({
            let plan = spec_apply_command(c, cmd).1;
            &&& plan.stop <==> cmd is Stop
            &&& plan.start_bandwidth <==> cmd is StartBandwidthTest
            &&& plan.start_traceroute is Some <==> cmd is StartTraceroute
            &&& cmd matches EngineCommand::StartTraceroute(t) ==> plan.start_traceroute == Some(t)
            &&& plan.spawn_probes ==> cmd is Resume
            &&& plan.cancel_probes ==> c.probes_active
            &&& plan.cancel_bandwidth ==> c.bandwidth_active
        }),
{
}

} // verus!
