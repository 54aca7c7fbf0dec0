//! The worker registry: tenant identifier to live worker status.
//!
//! The table holds at most one entry per tenant, and an entry records a
//! process id exactly when it records a running child.
use vstd::prelude::*;
use crate::text::{owned, text_eq};

verus! {

/// What the registry knows of one tenant's worker.
#[derive(Debug)]
pub struct WorkerInfo {
    pub phone: String,
    pub status: String,
    pub pairing_code: Option<String>,
    pub is_running: bool,
    pub pid: Option<u32>,
}

/// The mathematical value of a `WorkerInfo`.
pub struct WorkerView {
    pub phone: Seq<char>,
    pub status: Seq<char>,
    pub pairing_code: Option<Seq<char>>,
    pub is_running: bool,
    pub pid: Option<u32>,
}

/// The text of an optional string.
pub open spec fn opt_view(o: Option<String>) -> Option<Seq<char>> {
    match o {
        Some(s) => Some(s@),
        None => None,
    }
}

/// `w` with another status.
pub open spec fn with_status(w: WorkerView, status: Seq<char>) -> WorkerView {
    WorkerView { phone: w.phone, status, pairing_code: w.pairing_code, is_running: w.is_running, pid: w.pid }
}

/// `w` with no running child and the given status.
pub open spec fn idle(w: WorkerView, status: Seq<char>) -> WorkerView {
    WorkerView { phone: w.phone, status, pairing_code: w.pairing_code, is_running: false, pid: None }
}

/// The entry of a tenant whose child was just spawned as `pid`; a pairing code
/// from before the spawn is kept.
pub open spec fn launched(t: Map<Seq<char>, WorkerView>, tenant: Seq<char>, pid: u32) -> WorkerView {
    WorkerView {
        phone: tenant,
        status: "starting"@,
        pairing_code: if t.contains_key(tenant) { t[tenant].pairing_code } else { None },
        is_running: true,
        pid: Some(pid),
    }
}

/// The entry of a tenant known to be paused but not running.
pub open spec fn parked(tenant: Seq<char>) -> WorkerView {
    WorkerView { phone: tenant, status: "paused"@, pairing_code: None, is_running: false, pid: None }
}

/// `w` after a connection update: the new status, and the pairing code
/// replaced only when the update carries one.
pub open spec fn connected_view(w: WorkerView, status: Seq<char>, pairing: Option<Seq<char>>) -> WorkerView {
    WorkerView {
        phone: w.phone,
        status,
        pairing_code: if pairing.is_some() { pairing } else { w.pairing_code },
        is_running: w.is_running,
        pid: w.pid,
    }
}

/// Applies `f` to the entry of `tenant`, if there is one.
pub open spec fn map_entry(
    t: Map<Seq<char>, WorkerView>,
    tenant: Seq<char>,
    f: spec_fn(WorkerView) -> WorkerView,
) -> Map<Seq<char>, WorkerView> {
    if t.contains_key(tenant) {
        t.insert(tenant, f(t[tenant]))
    } else {
        t
    }
}

/// The table with the status of `tenant` replaced, if it has an entry.
pub open spec fn status_set(t: Map<Seq<char>, WorkerView>, tenant: Seq<char>, status: Seq<char>) -> Map<
    Seq<char>,
    WorkerView,
> {
    map_entry(t, tenant, |w: WorkerView| with_status(w, status))
}

/// The table with `tenant` recorded as not running, if it has an entry.
pub open spec fn stopped(t: Map<Seq<char>, WorkerView>, tenant: Seq<char>, status: Seq<char>) -> Map<
    Seq<char>,
    WorkerView,
> {
    map_entry(t, tenant, |w: WorkerView| idle(w, status))
}

/// The table with `tenant` recorded as not running, its status kept.
pub open spec fn released(t: Map<Seq<char>, WorkerView>, tenant: Seq<char>) -> Map<Seq<char>, WorkerView> {
    map_entry(t, tenant, |w: WorkerView| idle(w, w.status))
}

/// The table after a connection update for `tenant`.
pub open spec fn connection_applied(
    t: Map<Seq<char>, WorkerView>,
    tenant: Seq<char>,
    status: Seq<char>,
    pairing: Option<Seq<char>>,
) -> Map<Seq<char>, WorkerView> {
    map_entry(t, tenant, |w: WorkerView| connected_view(w, status, pairing))
}

impl View for WorkerInfo {
    type V = WorkerView;

    open spec fn view(&self) -> WorkerView {
        WorkerView {
            phone: self.phone@,
            status: self.status@,
            pairing_code: opt_view(self.pairing_code),
            is_running: self.is_running,
            pid: self.pid,
        }
    }
}

/// A worker is recorded as running exactly when a process id is recorded.
pub open spec fn consistent(w: WorkerView) -> bool {
    w.is_running == w.pid.is_some()
}

/// An owned copy of an optional string.
pub fn copy_opt(o: &Option<String>) -> (r: Option<String>)
    ensures
        opt_view(r) == opt_view(*o),
{
    match o {
        Some(s) => Some(s.clone()),
        None => None,
    }
}

impl WorkerInfo {
    /// An owned copy of this record.
    pub fn copy(&self) -> (r: WorkerInfo)
        ensures
            r@ == self@,
    {
        WorkerInfo {
            phone: self.phone.clone(),
            status: self.status.clone(),
            pairing_code: copy_opt(&self.pairing_code),
            is_running: self.is_running,
            pid: self.pid,
        }
    }
}

/// The table of workers, one entry per tenant.
pub struct WorkerRegistry {
    entries: Vec<WorkerInfo>,
}

impl WorkerRegistry {
    pub closed spec fn entries(&self) -> Seq<WorkerView> {
        self.entries@.map_values(|w: WorkerInfo| w@)
    }

    /// Distinct tenants in distinct entries, each entry consistent.
    pub closed spec fn wf(&self) -> bool {
        &&& forall|i: int, j: int|
            0 <= i < self.entries@.len() && 0 <= j < self.entries@.len() && i != j
                ==> self.entries@[i].phone@ != self.entries@[j].phone@
        &&& forall|i: int| 0 <= i < self.entries@.len() ==> consistent(#[trigger] self.entries@[i]@)
    }

    /// The table as a map from tenant to worker.
    pub closed spec fn table(&self) -> Map<Seq<char>, WorkerView> {
        Map::new(
            |k: Seq<char>| exists|i: int| 0 <= i < self.entries@.len() && self.entries@[i].phone@ == k,
            |k: Seq<char>|
                self.entries@[choose|i: int| 0 <= i < self.entries@.len() && self.entries@[i].phone@ == k]@,
        )
    }

    proof fn lemma_table_at(&self, i: int)
        requires
            self.wf(),
            0 <= i < self.entries@.len(),
        ensures
            self.table().contains_key(self.entries@[i].phone@),
            self.table()[self.entries@[i].phone@] == self.entries@[i]@,
    {
        let k = self.entries@[i].phone@;
        assert(self.table().dom().contains(k));
        let j = choose|j: int| 0 <= j < self.entries@.len() && self.entries@[j].phone@ == k;
        assert(i == j);
    }

    /// Every recorded worker is consistent and filed under its own tenant.
    pub open spec fn sound(&self) -> bool {
        &&& forall|k: Seq<char>| #[trigger] self.table().contains_key(k) ==> consistent(self.table()[k])
        &&& forall|k: Seq<char>| #[trigger] self.table().contains_key(k) ==> self.table()[k].phone == k
    }

    /// In a well-formed registry each tenant has one entry, which records a
    /// process id exactly when it records a running child: no tenant is ever
    /// recorded with two children.
    pub proof fn lemma_sound(&self)
        requires
            self.wf(),
        ensures
            self.sound(),
    {
        assert forall|k: Seq<char>| #[trigger] self.table().contains_key(k) implies consistent(self.table()[k])
            && self.table()[k].phone == k by {
            let i = choose|i: int| 0 <= i < self.entries@.len() && self.entries@[i].phone@ == k;
            self.lemma_table_at(i);
        }
    }

    /// An empty registry.
    pub fn new() -> (r: WorkerRegistry)
        ensures
            r.wf(),
            r.table() == Map::<Seq<char>, WorkerView>::empty(),
    {
        let r = WorkerRegistry { entries: Vec::new() };
        assert(r.table() =~= Map::<Seq<char>, WorkerView>::empty());
        r
    }

    fn find(&self, tenant: &str) -> (r: Option<usize>)
        requires
            self.wf(),
        ensures
            match r {
                Some(i) => i < self.entries@.len() && self.entries@[i as int].phone@ == tenant@,
                None => !self.table().contains_key(tenant@),
            },
    {
        let mut i: usize = 0;
        while i < self.entries.len()
            invariant
                i <= self.entries@.len(),
                forall|j: int| 0 <= j < i ==> self.entries@[j].phone@ != tenant@,
            decreases self.entries@.len() - i,
        {
            if text_eq(self.entries[i].phone.as_str(), tenant) {
                return Some(i);
            }
            i = i + 1;
        }
        None
    }

    /// Files `w` under its tenant, replacing any earlier entry of that tenant.
    pub fn put(&mut self, w: WorkerInfo)
        requires
            old(self).wf(),
            consistent(w@),
        ensures
            final(self).wf(),
            final(self).table() == old(self).table().insert(w@.phone, w@),
    {
        let ghost before = self.table();
        let ghost k = w@.phone;
        let ghost mut pos: int = 0;
        match self.find(w.phone.as_str()) {
            Some(i) => {
                let ghost old_entries = self.entries@;
                proof {
                    self.lemma_table_at(i as int);
                }
                let _ = self.entries.remove(i);
                self.entries.insert(i, w);
                assert(self.entries@ =~= old_entries.update(i as int, w));
                proof {
                    pos = i as int;
                }
            },
            None => {
                self.entries.push(w);
                proof {
                    pos = self.entries@.len() - 1;
                }
            },
        }
        proof {
            let n = self.entries@.len();
            assert forall|k2: Seq<char>| #[trigger] self.table().contains_key(k2) == before.insert(k, w@).contains_key(k2)
                by {
                if self.table().contains_key(k2) {
                    let j = choose|j: int| 0 <= j < n && self.entries@[j].phone@ == k2;
                    if k2 != k {
                        assert(old(self).entries@[j].phone@ == k2);
                        assert(old(self).table().contains_key(k2));
                    }
                }
                if before.insert(k, w@).contains_key(k2) && k2 != k {
                    let j = choose|j: int| 0 <= j < old(self).entries@.len() && old(self).entries@[j].phone@ == k2;
                    assert(self.entries@[j].phone@ == k2);
                }
                if k2 == k {
                    assert(self.entries@[pos].phone@ == k);
                }
            }
            assert forall|i: int, j: int|
                0 <= i < n && 0 <= j < n && i != j implies self.entries@[i].phone@ != self.entries@[j].phone@ by {
            }
            assert(self.wf());
            assert forall|k2: Seq<char>| #[trigger] self.table().contains_key(k2) implies self.table()[k2]
                == before.insert(k, w@)[k2] by {
                let j = choose|j: int| 0 <= j < n && self.entries@[j].phone@ == k2;
                self.lemma_table_at(j);
                if k2 != k {
                    assert(old(self).entries@[j] == self.entries@[j]);
                    old(self).lemma_table_at(j);
                }
            }
            assert(self.table() =~= before.insert(k, w@));
        }
    }
    /// The entry of `tenant`, if any.
    pub fn get(&self, tenant: &str) -> (r: Option<WorkerInfo>)
        requires
            self.wf(),
        ensures
            r.is_some() == self.table().contains_key(tenant@),
            r.is_some() ==> r.unwrap()@ == self.table()[tenant@],
    {
        match self.find(tenant) {
            Some(i) => {
                proof {
                    self.lemma_table_at(i as int);
                }
                Some(self.entries[i].copy())
            },
            None => None,
        }
    }

    /// Every entry of the table, each once.
    pub fn list(&self) -> (r: Vec<WorkerInfo>)
        requires
            self.wf(),
        ensures
            forall|i: int| 0 <= i < r@.len() ==> self.table().contains_key(#[trigger] r@[i]@.phone)
                && self.table()[r@[i]@.phone] == r@[i]@,
            forall|k: Seq<char>| #[trigger] self.table().contains_key(k) ==> exists|i: int|
                0 <= i < r@.len() && r@[i]@.phone == k,
            forall|i: int, j: int| 0 <= i < r@.len() && 0 <= j < r@.len() && i != j
                ==> r@[i]@.phone != r@[j]@.phone,
    {
        let mut out: Vec<WorkerInfo> = Vec::new();
        let mut i: usize = 0;
        while i < self.entries.len()
            invariant
                self.wf(),
                i <= self.entries@.len(),
                out@.len() == i,
                forall|j: int| 0 <= j < i ==> (#[trigger] out@[j])@ == self.entries@[j]@,
            decreases self.entries@.len() - i,
        {
            out.push(self.entries[i].copy());
            i = i + 1;
        }
        proof {
            assert forall|j: int| 0 <= j < out@.len() implies self.table().contains_key(#[trigger] out@[j]@.phone)
                && self.table()[out@[j]@.phone] == out@[j]@ by {
                self.lemma_table_at(j);
            }
            assert forall|k: Seq<char>| #[trigger] self.table().contains_key(k) implies exists|j: int|
                0 <= j < out@.len() && out@[j]@.phone == k by {
                let j = choose|j: int| 0 <= j < self.entries@.len() && self.entries@[j].phone@ == k;
                assert(out@[j]@.phone == k);
            }
            assert forall|a: int, b: int| 0 <= a < out@.len() && 0 <= b < out@.len() && a != b
                implies out@[a]@.phone != out@[b]@.phone by {
                assert(out@[a]@ == self.entries@[a]@);
                assert(out@[b]@ == self.entries@[b]@);
            }
        }
        out
    }

    /// Records that the child of `tenant` was spawned as `pid`: the tenant is
    /// running, with status "starting".
    pub fn record_start(&mut self, tenant: &str, pid: u32)
        requires
            old(self).wf(),
        ensures
            final(self).wf(),
            final(self).table() == old(self).table().insert(tenant@, launched(old(self).table(), tenant@, pid)),
    {
        let pairing_code = match self.find(tenant) {
            Some(i) => {
                proof {
                    self.lemma_table_at(i as int);
                }
                copy_opt(&self.entries[i].pairing_code)
            },
            None => None,
        };
        let w = WorkerInfo { phone: owned(tenant), status: owned("starting"), pairing_code, is_running: true, pid: Some(pid) };
        self.put(w);
    }

    /// Records `tenant` as known but paused, with no child.
    pub fn register_paused(&mut self, tenant: &str)
        requires
            old(self).wf(),
        ensures
            final(self).wf(),
            final(self).table() == old(self).table().insert(tenant@, parked(tenant@)),
    {
        let w = WorkerInfo { phone: owned(tenant), status: owned("paused"), pairing_code: None, is_running: false, pid: None };
        self.put(w);
    }

    /// Replaces the status of `tenant`; a tenant without an entry is left out.
    pub fn set_status(&mut self, tenant: &str, status: &str)
        requires
            old(self).wf(),
        ensures
            final(self).wf(),
            final(self).table() == status_set(old(self).table(), tenant@, status@),
    {
        if let Some(i) = self.find(tenant) {
            proof {
                self.lemma_table_at(i as int);
            }
            let mut w = self.entries[i].copy();
            w.status = owned(status);
            self.put(w);
        }
    }

    /// Records that `tenant` has no running child, with the given status; a
    /// tenant without an entry is left out.
    pub fn mark_stopped(&mut self, tenant: &str, status: &str)
        requires
            old(self).wf(),
        ensures
            final(self).wf(),
            final(self).table() == stopped(old(self).table(), tenant@, status@),
    {
        if let Some(i) = self.find(tenant) {
            proof {
                self.lemma_table_at(i as int);
            }
            let mut w = self.entries[i].copy();
            w.status = owned(status);
            w.is_running = false;
            w.pid = None;
            self.put(w);
        }
    }

    /// Records that `tenant` has no running child; its status is kept. A
    /// tenant without an entry is left out.
    pub fn release(&mut self, tenant: &str)
        requires
            old(self).wf(),
        ensures
            final(self).wf(),
            final(self).table() == released(old(self).table(), tenant@),
    {
        if let Some(i) = self.find(tenant) {
            proof {
                self.lemma_table_at(i as int);
            }
            let mut w = self.entries[i].copy();
            w.is_running = false;
            w.pid = None;
            self.put(w);
        }
    }

    /// Applies a connection update to the entry of `tenant`: its status, and
    /// its pairing code when the update carries one. A tenant without an entry
    /// is left out.
    pub fn apply_connection(&mut self, tenant: &str, status: &str, pairing: Option<&str>)
        requires
            old(self).wf(),
        ensures
            final(self).wf(),
            final(self).table() == connection_applied(
                old(self).table(),
                tenant@,
                status@,
                match pairing {
                    Some(p) => Some(p@),
                    None => None,
                },
            ),
    {
        if let Some(i) = self.find(tenant) {
            proof {
                self.lemma_table_at(i as int);
            }
            let mut w = self.entries[i].copy();
            w.status = owned(status);
            if let Some(p) = pairing {
                w.pairing_code = Some(owned(p));
            }
            self.put(w);
        }
    }
}

} // verus!
