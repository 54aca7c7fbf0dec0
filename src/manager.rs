//! Decisions of the supervisor manager: which tenants to bring up when the
//! control plane starts, and what a start request does.
use vstd::prelude::*;
use crate::registry::{parked, WorkerRegistry, WorkerView};
use crate::text::text_eq;

verus! {

/// The durable status of one session, as the manager reads it at startup.
#[derive(Debug)]
pub struct SessionStatus {
    pub id: String,
    pub status: String,
}

/// The id and status of each session.
pub open spec fn rows(v: Seq<SessionStatus>) -> Seq<(Seq<char>, Seq<char>)> {
    v.map_values(|r: SessionStatus| (r.id@, r.status@))
}

/// The registry after the paused sessions among `s` are registered, in order.
pub open spec fn reconciled(t: Map<Seq<char>, WorkerView>, s: Seq<(Seq<char>, Seq<char>)>) -> Map<
    Seq<char>,
    WorkerView,
>
    decreases s.len(),
{
    if s.len() == 0 {
        t
    } else {
        let before = reconciled(t, s.drop_last());
        if s.last().1 == "paused"@ {
            before.insert(s.last().0, parked(s.last().0))
        } else {
            before
        }
    }
}

/// The sessions among `s` that are not paused, in order.
pub open spec fn to_start(s: Seq<(Seq<char>, Seq<char>)>) -> Seq<Seq<char>>
    decreases s.len(),
{
    if s.len() == 0 {
        Seq::empty()
    } else if s.last().1 == "paused"@ {
        to_start(s.drop_last())
    } else {
        to_start(s.drop_last()).push(s.last().0)
    }
}

/// Brings the registry in line with the durable sessions at startup: paused
/// sessions are registered as paused, with no child; the others are returned,
/// in order, as the tenants whose supervisors are to be started.
pub fn reconcile(registry: &mut WorkerRegistry, sessions: &Vec<SessionStatus>) -> (r: Vec<String>)
    requires
        old(registry).wf(),
    ensures
        final(registry).wf(),
        final(registry).table() == reconciled(old(registry).table(), rows(sessions@)),
        r@.map_values(|s: String| s@) == to_start(rows(sessions@)),
{
    let mut out: Vec<String> = Vec::new();
    let mut i: usize = 0;
    while i < sessions.len()
        invariant
            registry.wf(),
            i <= sessions@.len(),
            registry.table() == reconciled(old(registry).table(), rows(sessions@).take(i as int)),
            out@.map_values(|s: String| s@) == to_start(rows(sessions@).take(i as int)),
        decreases sessions@.len() - i,
    {
        let ghost pre = rows(sessions@).take(i as int);
        let row = &sessions[i];
        assert(rows(sessions@).take(i + 1).drop_last() =~= pre);
        assert(rows(sessions@).take(i + 1).last() == (row.id@, row.status@));
        if text_eq(row.status.as_str(), "paused") {
            registry.register_paused(row.id.as_str());
        } else {
            out.push(row.id.clone());
            assert(out@.map_values(|s: String| s@) =~= to_start(pre).push(row.id@));
        }
        i = i + 1;
    }
    assert(rows(sessions@).take(i as int) =~= rows(sessions@));
    out
}

/// What a request to start a tenant leads to.
#[derive(Clone, Copy, Debug, PartialEq, Eq, Structural)]
pub enum StartAction {
    /// No supervisor serves the tenant: launch one.
    Launch,
    /// A supervisor serves the tenant but runs no child: ask it to resume.
    Resume,
    /// A supervisor serves the tenant and its child runs: nothing to do.
    AlreadyRunning,
}

/// What starting `tenant` does, given whether a supervisor task serves it. A
/// second supervisor is never launched beside a live one, so no tenant gets
/// two children.
pub fn start_action(registry: &WorkerRegistry, tenant: &str, supervised: bool) -> (r: StartAction)
    requires
        registry.wf(),
    ensures
        !supervised ==> r == StartAction::Launch,
        supervised ==> (r == StartAction::AlreadyRunning <==> (registry.table().contains_key(tenant@)
            && registry.table()[tenant@].is_running)),
        supervised ==> r != StartAction::Launch,
{
    if !supervised {
        return StartAction::Launch;
    }
    match registry.get(tenant) {
        Some(w) => if w.is_running {
            StartAction::AlreadyRunning
        } else {
            StartAction::Resume
        },
        None => StartAction::Resume,
    }
}

} // verus!
