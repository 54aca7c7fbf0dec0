//! The per-tenant supervisor as a state machine.
//!
//! A supervisor owns one tenant's child process. Each event (a command from
//! the control bus, the outcome of a spawn, the exit of the child, the end of
//! a backoff wait) moves it to its next phase, updates the registry, and
//! yields the effects that the caller performs in order: spawning a child on
//! a freshly bound private channel, terminating and reaping a process tree,
//! persisting a status, waiting, or ending the supervisor task.
use vstd::prelude::*;
use crate::control::Command;
use crate::registry::{launched, released, status_set, stopped, WorkerRegistry, WorkerView};
use crate::text::owned;

verus! {

/// Where a supervisor stands.
#[derive(Clone, Copy, Debug, PartialEq, Eq, Structural)]
pub enum Phase {
    /// A spawn was requested and its outcome is awaited; the caller reports
    /// that outcome before any other event, and other events are ignored.
    Starting,
    /// The child with this process id is alive.
    Running(u32),
    /// No child; only `resume`, `stop` or the end of a bounded pause moves
    /// the supervisor on.
    Paused,
    /// The child crashed; a respawn follows the backoff wait.
    Backoff,
    /// The supervisor task has ended.
    Stopped,
}

/// A status that the supervisor writes to the durable store.
#[derive(Clone, Copy, Debug, PartialEq, Eq, Structural)]
pub enum Persisted {
    Starting,
    Paused,
    Crashed,
}

/// Something the caller performs on behalf of the supervisor.
#[derive(Clone, Copy, Debug, PartialEq, Eq, Structural)]
pub enum Effect {
    /// Bind a new ephemeral listener and spawn the child with the tenant and
    /// the bound port; report the outcome as `Spawned` or `SpawnFailed`.
    Spawn,
    /// Terminate the whole process tree of this pid and reap the child.
    TerminateTree(u32),
    /// Write this status to the durable session record.
    Persist(Persisted),
    /// Wait this many seconds, then report `BackoffElapsed`.
    Wait(u64),
    /// End the supervisor task.
    Exit,
}

/// Something that happened to a supervisor.
#[derive(Clone, Copy, Debug, PartialEq, Eq, Structural)]
pub enum SupervisorEvent {
    Command(Command),
    Spawned(u32),
    SpawnFailed,
    ChildExited,
    BackoffElapsed,
}

/// How crashes and pauses are handled: the wait before a respawn, an
/// optional cap on consecutive crashes after which the supervisor gives up,
/// and an optional bound on a pause after which the tenant resumes by itself.
/// Neither limit is set by default.
#[derive(Clone, Copy, Debug, PartialEq, Eq, Structural)]
pub struct RestartPolicy {
    pub backoff_secs: u64,
    pub max_restarts: Option<u64>,
    pub pause_limit_secs: Option<u64>,
}

/// What a transition does to the registry entry of the tenant.
pub enum EntryChange {
    Keep,
    Launch(u32),
    Status(Seq<char>),
    Idle(Seq<char>),
    Release,
}

/// The effects of entering a pause: the timer of a bounded pause, if any.
pub open spec fn pause_timer(policy: RestartPolicy) -> Seq<Effect> {
    match policy.pause_limit_secs {
        Some(n) => seq![Effect::Wait(n)],
        None => Seq::empty(),
    }
}

/// The word that records a persisted status in the durable store.
pub open spec fn persisted_word(p: Persisted) -> Seq<char> {
    match p {
        Persisted::Starting => "starting"@,
        Persisted::Paused => "paused"@,
        Persisted::Crashed => "crashed"@,
    }
}

/// The registry table after a change to the entry of `tenant`.
pub open spec fn changed(t: Map<Seq<char>, WorkerView>, tenant: Seq<char>, c: EntryChange) -> Map<
    Seq<char>,
    WorkerView,
> {
    match c {
        EntryChange::Keep => t,
        EntryChange::Launch(pid) => t.insert(tenant, launched(t, tenant, pid)),
        EntryChange::Status(s) => status_set(t, tenant, s),
        EntryChange::Idle(s) => stopped(t, tenant, s),
        EntryChange::Release => released(t, tenant),
    }
}

/// The next phase, crash count, effects and registry change for an event.
pub open spec fn transition(phase: Phase, crashes: u64, policy: RestartPolicy, e: SupervisorEvent) -> (
    Phase,
    u64,
    Seq<Effect>,
    EntryChange,
) {
    match (phase, e) {
        (Phase::Starting, SupervisorEvent::Spawned(pid)) => (
            Phase::Running(pid),
            crashes,
            Seq::empty(),
            EntryChange::Launch(pid),
        ),
        (Phase::Starting, SupervisorEvent::SpawnFailed) => (
            Phase::Stopped,
            crashes,
            seq![Effect::Exit],
            EntryChange::Keep,
        ),
        (Phase::Running(pid), SupervisorEvent::Command(Command::Pause)) => (
            Phase::Paused,
            0,
            seq![Effect::TerminateTree(pid), Effect::Persist(Persisted::Paused)] + pause_timer(policy),
            EntryChange::Idle("paused"@),
        ),
        (Phase::Running(pid), SupervisorEvent::Command(Command::Stop)) => (
            Phase::Stopped,
            crashes,
            seq![Effect::TerminateTree(pid), Effect::Exit],
            EntryChange::Release,
        ),
        (Phase::Running(pid), SupervisorEvent::ChildExited) => {
            let n: u64 = if crashes < u64::MAX { (crashes + 1) as u64 } else { crashes };
            if policy.max_restarts.is_some() && n > policy.max_restarts.unwrap() {
                (
                    Phase::Stopped,
                    n,
                    seq![Effect::Persist(Persisted::Crashed), Effect::Exit],
                    EntryChange::Idle("crashed"@),
                )
            } else {
                (
                    Phase::Backoff,
                    n,
                    seq![Effect::Persist(Persisted::Crashed), Effect::Wait(policy.backoff_secs)],
                    EntryChange::Idle("crashed"@),
                )
            }
        },
        (Phase::Backoff, SupervisorEvent::BackoffElapsed) => (
            Phase::Starting,
            crashes,
            seq![Effect::Spawn],
            EntryChange::Keep,
        ),
        (Phase::Backoff, SupervisorEvent::Command(Command::Pause)) => (
            Phase::Paused,
            0,
            seq![Effect::Persist(Persisted::Paused)] + pause_timer(policy),
            EntryChange::Idle("paused"@),
        ),
        (Phase::Backoff, SupervisorEvent::Command(Command::Stop)) => (
            Phase::Stopped,
            crashes,
            seq![Effect::Exit],
            EntryChange::Keep,
        ),
        (Phase::Paused, SupervisorEvent::Command(Command::Resume)) => (
            Phase::Starting,
            0,
            seq![Effect::Persist(Persisted::Starting), Effect::Spawn],
            EntryChange::Status("starting"@),
        ),
        (Phase::Paused, SupervisorEvent::BackoffElapsed) => if policy.pause_limit_secs.is_some() {
            (
                Phase::Starting,
                0,
                seq![Effect::Persist(Persisted::Starting), Effect::Spawn],
                EntryChange::Status("starting"@),
            )
        } else {
            (phase, crashes, Seq::empty(), EntryChange::Keep)
        },
        (Phase::Paused, SupervisorEvent::Command(Command::Stop)) => (
            Phase::Stopped,
            crashes,
            seq![Effect::Exit],
            EntryChange::Keep,
        ),
        _ => (phase, crashes, Seq::empty(), EntryChange::Keep),
    }
}

/// The registry agrees with the phase: while a child runs the entry of the
/// tenant records exactly that child; otherwise it records none.
pub open spec fn coherent(phase: Phase, t: Map<Seq<char>, WorkerView>, tenant: Seq<char>) -> bool {
    match phase {
        Phase::Running(pid) => t.contains_key(tenant) && t[tenant].is_running && t[tenant].pid == Some(pid),
        _ => !(t.contains_key(tenant) && t[tenant].is_running),
    }
}

/// At most one child per tenant: every transition keeps the registry entry of
/// the tenant in agreement with the phase, so the entry never records a child
/// other than the one the supervisor owns.
pub proof fn lemma_transition_keeps_coherence(
    phase: Phase,
    crashes: u64,
    policy: RestartPolicy,
    e: SupervisorEvent,
    t: Map<Seq<char>, WorkerView>,
    tenant: Seq<char>,
)
    requires
        coherent(phase, t, tenant),
    ensures
        ({
            let (p, c, fx, ch) = transition(phase, crashes, policy, e);
            coherent(p, changed(t, tenant, ch), tenant)
        }),
{
}

/// Pausing a running worker terminates its process tree before the status is
/// persisted, and leaves the tenant recorded as paused with no child.
pub proof fn lemma_pause_stops_worker(
    pid: u32,
    crashes: u64,
    policy: RestartPolicy,
    t: Map<Seq<char>, WorkerView>,
    tenant: Seq<char>,
)
    requires
        coherent(Phase::Running(pid), t, tenant),
    ensures
        ({
            let (p, c, fx, ch) = transition(Phase::Running(pid), crashes, policy, SupervisorEvent::Command(Command::Pause));
            let t2 = changed(t, tenant, ch);
            &&& p == Phase::Paused
            &&& fx == seq![Effect::TerminateTree(pid), Effect::Persist(Persisted::Paused)] + pause_timer(policy)
            &&& t2.contains_key(tenant)
            &&& !t2[tenant].is_running
            &&& t2[tenant].pid.is_none()
            &&& t2[tenant].status == "paused"@
        }),
{
}

/// Resuming a paused worker persists "starting" and spawns a new child on a
/// freshly bound channel; once the spawn is reported the tenant runs that
/// child.
pub proof fn lemma_resume_spawns_anew(
    crashes: u64,
    policy: RestartPolicy,
    t: Map<Seq<char>, WorkerView>,
    tenant: Seq<char>,
    new_pid: u32,
)
    ensures
        ({
            let (p, c, fx, ch) = transition(Phase::Paused, crashes, policy, SupervisorEvent::Command(Command::Resume));
            let t2 = changed(t, tenant, ch);
            let (ph3, c3, fx3, ch3) = transition(p, c, policy, SupervisorEvent::Spawned(new_pid));
            let t3 = changed(t2, tenant, ch3);
            &&& p == Phase::Starting
            &&& fx == seq![Effect::Persist(Persisted::Starting), Effect::Spawn]
            &&& (t.contains_key(tenant) ==> t2[tenant].status == "starting"@)
            &&& ph3 == Phase::Running(new_pid)
            &&& fx3 == Seq::<Effect>::empty()
            &&& t3.contains_key(tenant)
            &&& t3[tenant].is_running
            &&& t3[tenant].pid == Some(new_pid)
            &&& t3[tenant].status == "starting"@
        }),
{
}

/// A crash not preceded by pause or stop marks the tenant "crashed" at once,
/// waits the fixed backoff, then spawns a new child that the tenant runs once
/// the spawn is reported (with no cap on restarts).
pub proof fn lemma_crash_restarts_after_backoff(
    pid: u32,
    crashes: u64,
    policy: RestartPolicy,
    t: Map<Seq<char>, WorkerView>,
    tenant: Seq<char>,
    new_pid: u32,
)
    requires
        policy.max_restarts.is_none(),
        coherent(Phase::Running(pid), t, tenant),
    ensures
        ({
            let (ph1, c1, fx1, ch1) = transition(Phase::Running(pid), crashes, policy, SupervisorEvent::ChildExited);
            let t1 = changed(t, tenant, ch1);
            let (ph2, c2, fx2, ch2) = transition(ph1, c1, policy, SupervisorEvent::BackoffElapsed);
            let t2 = changed(t1, tenant, ch2);
            let (ph3, c3, fx3, ch3) = transition(ph2, c2, policy, SupervisorEvent::Spawned(new_pid));
            let t3 = changed(t2, tenant, ch3);
            &&& ph1 == Phase::Backoff
            &&& fx1 == seq![Effect::Persist(Persisted::Crashed), Effect::Wait(policy.backoff_secs)]
            &&& t1[tenant].status == "crashed"@
            &&& !t1[tenant].is_running
            &&& ph2 == Phase::Starting
            &&& fx2 == seq![Effect::Spawn]
            &&& ph3 == Phase::Running(new_pid)
            &&& t3[tenant].is_running
            &&& t3[tenant].pid == Some(new_pid)
        }),
{
}

/// A stop preempts a pending pause or backoff wait: the supervisor ends at
/// once, terminating the child first where one runs.
pub proof fn lemma_stop_ends_supervisor(phase: Phase, crashes: u64, policy: RestartPolicy)
    requires
        phase != Phase::Starting,
        phase != Phase::Stopped,
    ensures
        ({
            let (p, c, fx, ch) = transition(phase, crashes, policy, SupervisorEvent::Command(Command::Stop));
            &&& p == Phase::Stopped
            &&& fx.len() > 0
            &&& fx.last() == Effect::Exit
            &&& (phase matches Phase::Running(pid) ==> fx == seq![Effect::TerminateTree(pid), Effect::Exit])
        }),
{
}

/// The word that records a persisted status.
pub fn persisted_text(p: Persisted) -> (r: &'static str)
    ensures
        r@ == persisted_word(p),
{
    match p {
        Persisted::Starting => "starting",
        Persisted::Paused => "paused",
        Persisted::Crashed => "crashed",
    }
}

impl RestartPolicy {
    /// Five seconds between a crash and the respawn, no cap on restarts, and
    /// pauses that last until resumed.
    pub fn standard() -> (r: RestartPolicy)
        ensures
            r.backoff_secs == 5,
            r.max_restarts.is_none(),
            r.pause_limit_secs.is_none(),
    {
        RestartPolicy { backoff_secs: 5, max_restarts: None, pause_limit_secs: None }
    }
}

/// The supervisor of one tenant.
pub struct Supervisor {
    pub tenant: String,
    pub phase: Phase,
    pub crashes: u64,
    pub policy: RestartPolicy,
}

impl Supervisor {
    /// A supervisor whose first child is to be spawned: the caller performs
    /// `Effect::Spawn` and reports its outcome.
    pub fn new(tenant: &str, policy: RestartPolicy) -> (r: Supervisor)
        ensures
            r.tenant@ == tenant@,
            r.phase == Phase::Starting,
            r.crashes == 0,
            r.policy == policy,
    {
        Supervisor { tenant: owned(tenant), phase: Phase::Starting, crashes: 0, policy }
    }

    /// Handles one event: moves to the next phase, updates the registry entry
    /// of the tenant, and returns the effects to perform, in order.
    pub fn step(&mut self, registry: &mut WorkerRegistry, e: SupervisorEvent) -> (r: Vec<Effect>)
        requires
            old(registry).wf(),
        ensures
            final(registry).wf(),
            final(self).tenant == old(self).tenant,
            final(self).policy == old(self).policy,
            ({
                let (p, c, fx, ch) = transition(old(self).phase, old(self).crashes, old(self).policy, e);
                &&& final(self).phase == p
                &&& final(self).crashes == c
                &&& r@ == fx
                &&& final(registry).table() == changed(old(registry).table(), old(self).tenant@, ch)
            }),
    {
        let tenant = self.tenant.as_str();
        let mut fx: Vec<Effect> = Vec::new();
        match (self.phase, e) {
            (Phase::Starting, SupervisorEvent::Spawned(pid)) => {
                registry.record_start(tenant, pid);
                self.phase = Phase::Running(pid);
            },
            (Phase::Starting, SupervisorEvent::SpawnFailed) => {
                fx.push(Effect::Exit);
                self.phase = Phase::Stopped;
            },
            (Phase::Running(pid), SupervisorEvent::Command(Command::Pause)) => {
                registry.mark_stopped(tenant, "paused");
                fx.push(Effect::TerminateTree(pid));
                fx.push(Effect::Persist(Persisted::Paused));
                if let Some(n) = self.policy.pause_limit_secs {
                    fx.push(Effect::Wait(n));
                }
                self.phase = Phase::Paused;
                self.crashes = 0;
            },
            (Phase::Running(pid), SupervisorEvent::Command(Command::Stop)) => {
                registry.release(tenant);
                fx.push(Effect::TerminateTree(pid));
                fx.push(Effect::Exit);
                self.phase = Phase::Stopped;
            },
            (Phase::Running(_), SupervisorEvent::ChildExited) => {
                let n: u64 = if self.crashes < u64::MAX { self.crashes + 1 } else { self.crashes };
                registry.mark_stopped(tenant, "crashed");
                fx.push(Effect::Persist(Persisted::Crashed));
                self.crashes = n;
                let give_up = match self.policy.max_restarts {
                    Some(m) => n > m,
                    None => false,
                };
                if give_up {
                    fx.push(Effect::Exit);
                    self.phase = Phase::Stopped;
                } else {
                    fx.push(Effect::Wait(self.policy.backoff_secs));
                    self.phase = Phase::Backoff;
                }
            },
            (Phase::Backoff, SupervisorEvent::BackoffElapsed) => {
                fx.push(Effect::Spawn);
                self.phase = Phase::Starting;
            },
            (Phase::Backoff, SupervisorEvent::Command(Command::Pause)) => {
                registry.mark_stopped(tenant, "paused");
                fx.push(Effect::Persist(Persisted::Paused));
                if let Some(n) = self.policy.pause_limit_secs {
                    fx.push(Effect::Wait(n));
                }
                self.phase = Phase::Paused;
                self.crashes = 0;
            },
            (Phase::Backoff, SupervisorEvent::Command(Command::Stop)) => {
                fx.push(Effect::Exit);
                self.phase = Phase::Stopped;
            },
            (Phase::Paused, SupervisorEvent::Command(Command::Resume)) => {
                registry.set_status(tenant, "starting");
                fx.push(Effect::Persist(Persisted::Starting));
                fx.push(Effect::Spawn);
                self.phase = Phase::Starting;
                self.crashes = 0;
            },
            (Phase::Paused, SupervisorEvent::BackoffElapsed) => {
                if self.policy.pause_limit_secs.is_some() {
                    registry.set_status(tenant, "starting");
                    fx.push(Effect::Persist(Persisted::Starting));
                    fx.push(Effect::Spawn);
                    self.phase = Phase::Starting;
                    self.crashes = 0;
                }
            },
            (Phase::Paused, SupervisorEvent::Command(Command::Stop)) => {
                fx.push(Effect::Exit);
                self.phase = Phase::Stopped;
            },
            _ => {},
        }
        assert(fx@ =~= transition(old(self).phase, old(self).crashes, old(self).policy, e).2);
        fx
    }
}

} // verus!
