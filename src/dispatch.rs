//! What a decoded worker event does to shared state, and session teardown.
use vstd::prelude::*;
use crate::control::{control_message, message_spec, Command};
use crate::event::{decode_event, decode_spec, Event, EventView, WorkerEvent};
use crate::registry::{connection_applied, stopped, WorkerRegistry, WorkerView};
use crate::text::{joined, owned, text_eq};

verus! {

/// What handling one event asks of the caller.
#[derive(Debug)]
pub enum Dispatch {
    /// The message carried no event.
    Ignored,
    /// A log line for the observability feed; nothing else changes.
    Log(String),
    /// The tenant logged out: run the teardown plan of this tenant.
    Teardown(String),
    /// The registry entry was updated; `true` when the new status is
    /// "connected", a transition worth announcing.
    Updated(bool),
}

/// The pairing code that a connection update carries: its pairing code when
/// present, else its QR payload when present.
pub open spec fn pairing_of(pairing_code: Seq<char>, qr: Seq<char>) -> Option<Seq<char>> {
    if pairing_code.len() > 0 {
        Some(pairing_code)
    } else if qr.len() > 0 {
        Some(qr)
    } else {
        None
    }
}

/// The registry table once `tenant` is torn down: no running child, status
/// "logged_out".
pub open spec fn torn_down(t: Map<Seq<char>, WorkerView>, tenant: Seq<char>) -> Map<Seq<char>, WorkerView> {
    stopped(t, tenant, "logged_out"@)
}

/// The registry table after an event.
pub open spec fn dispatch_table(t: Map<Seq<char>, WorkerView>, e: Option<EventView>) -> Map<
    Seq<char>,
    WorkerView,
> {
    match e {
        Some(EventView::Connection(c)) => if c.status == "logged_out"@ {
            torn_down(t, c.phone)
        } else {
            connection_applied(t, c.phone, c.status, pairing_of(c.pairing_code, c.qr))
        },
        _ => t,
    }
}

/// What the caller is asked to do after an event.
pub open spec fn dispatch_answer(e: Option<EventView>, r: Dispatch) -> bool {
    match (e, r) {
        (None, Dispatch::Ignored) => true,
        (Some(EventView::RawLog(t)), Dispatch::Log(l)) => l@ == t,
        (Some(EventView::Connection(c)), Dispatch::Teardown(p)) => c.status == "logged_out"@ && p@ == c.phone,
        (Some(EventView::Connection(c)), Dispatch::Updated(connected)) => c.status != "logged_out"@ && connected
            == (c.status == "connected"@),
        _ => false,
    }
}

/// Applies one decoded event: a log line changes nothing; a "logged_out"
/// update tears the tenant down; any other update sets the status of the
/// tenant's entry and, when it carries one, its pairing code (the pairing code
/// before the QR payload).
pub fn handle_event(registry: &mut WorkerRegistry, event: WorkerEvent) -> (r: Dispatch)
    requires
        old(registry).wf(),
    ensures
        final(registry).wf(),
        final(registry).table() == dispatch_table(old(registry).table(), event@),
        dispatch_answer(event@, r),
{
    match event.event {
        None => Dispatch::Ignored,
        Some(Event::RawLog(line)) => Dispatch::Log(line),
        Some(Event::Connection(c)) => {
            if text_eq(c.status.as_str(), "logged_out") {
                registry.mark_stopped(c.phone.as_str(), "logged_out");
                Dispatch::Teardown(c.phone)
            } else {
                let pairing: Option<&str> = if !c.pairing_code.as_str().is_empty() {
                    Some(c.pairing_code.as_str())
                } else if !c.qr.as_str().is_empty() {
                    Some(c.qr.as_str())
                } else {
                    None
                };
                registry.apply_connection(c.phone.as_str(), c.status.as_str(), pairing);
                Dispatch::Updated(text_eq(c.status.as_str(), "connected"))
            }
        },
    }
}

/// What reading one frame payload led to.
#[derive(Debug)]
pub enum Ingest {
    /// The payload did not decode: it is dropped and the connection stays open.
    Dropped,
    /// The payload decoded and its event was handled.
    Handled(Dispatch),
}

/// Decodes a frame payload and handles its event. A payload that does not
/// decode is dropped with the registry untouched.
pub fn ingest_payload(registry: &mut WorkerRegistry, payload: &[u8]) -> (r: Ingest)
    requires
        old(registry).wf(),
    ensures
        final(registry).wf(),
        match decode_spec(payload@) {
            None => r is Dropped && final(registry).table() == old(registry).table(),
            Some(e) => match r {
                Ingest::Handled(d) => dispatch_answer(e, d) && final(registry).table() == dispatch_table(
                    old(registry).table(),
                    e,
                ),
                Ingest::Dropped => false,
            },
        },
{
    match decode_event(payload) {
        None => Ingest::Dropped,
        Some(e) => Ingest::Handled(handle_event(registry, e)),
    }
}

/// What the caller performs to tear a tenant's session down.
#[derive(Debug)]
pub struct TeardownPlan {
    /// The control message that stops the tenant's supervisor, which kills
    /// and reaps the process tree.
    pub stop_message: String,
    /// The cache keys under the tenant's namespace, as a key pattern.
    pub cache_pattern: String,
    /// The tenant whose durable records are deleted.
    pub tenant: String,
}

/// The pattern of the cache keys under a tenant's namespace.
pub open spec fn cache_pattern_spec(tenant: Seq<char>) -> Seq<char> {
    "session:"@ + tenant + ":*"@
}

/// Tears a tenant down in the registry (no running child, status
/// "logged_out") and returns what the caller performs next: stop the
/// supervisor, purge the cache namespace, delete the durable records.
pub fn teardown(registry: &mut WorkerRegistry, tenant: &str) -> (r: TeardownPlan)
    requires
        old(registry).wf(),
    ensures
        final(registry).wf(),
        final(registry).table() == torn_down(old(registry).table(), tenant@),
        r.stop_message@ == message_spec(tenant@, Command::Stop),
        r.cache_pattern@ == cache_pattern_spec(tenant@),
        r.tenant@ == tenant@,
{
    registry.mark_stopped(tenant, "logged_out");
    let head = joined("session:", tenant);
    TeardownPlan {
        stop_message: control_message(tenant, Command::Stop),
        cache_pattern: joined(head.as_str(), ":*"),
        tenant: owned(tenant),
    }
}

/// Why a teardown failed.
#[derive(Debug, PartialEq, Eq, Structural)]
pub enum TeardownError {
    /// The durable records could not be deleted.
    RecordsNotDeleted,
}

/// The outcome of a teardown once its steps were performed: process kill and
/// cache purge are best effort, so only the deletion of the durable records
/// decides.
pub fn teardown_outcome(killed: bool, purged: bool, records_deleted: bool) -> (r: Result<(), TeardownError>)
    ensures
        r is Ok <==> records_deleted,
        r is Err ==> r == Err::<(), TeardownError>(TeardownError::RecordsNotDeleted),
{
    if records_deleted {
        Ok(())
    } else {
        Err(TeardownError::RecordsNotDeleted)
    }
}

/// Teardown is idempotent: a second teardown of the same tenant leaves the
/// registry as the first one did. (The steps it asks for depend on the tenant
/// alone, so they are the same too.)
pub proof fn lemma_teardown_idempotent(t: Map<Seq<char>, WorkerView>, tenant: Seq<char>)
    ensures
        torn_down(torn_down(t, tenant), tenant) == torn_down(t, tenant),
{
    assert(torn_down(torn_down(t, tenant), tenant) =~= torn_down(t, tenant));
}

/// A "logged_out" update tears its tenant down, whether it was running or
/// paused: afterwards the registry records no running child for it.
pub proof fn lemma_logout_leaves_no_child(t: Map<Seq<char>, WorkerView>, c_phone: Seq<char>, e: Option<EventView>)
    requires
        e matches Some(EventView::Connection(c)) && c.status == "logged_out"@ && c.phone == c_phone,
    ensures
        dispatch_table(t, e) == torn_down(t, c_phone),
        !(dispatch_table(t, e).contains_key(c_phone) && dispatch_table(t, e)[c_phone].is_running),
        dispatch_table(t, e).contains_key(c_phone) ==> dispatch_table(t, e)[c_phone].pid.is_none(),
{
}

} // verus!
