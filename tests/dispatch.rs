use prost::encoding::{encode_key, encode_varint, string, WireType};
use whatsaly::dispatch::{handle_event, ingest_payload, teardown, teardown_outcome, Dispatch, Ingest, TeardownError};
use whatsaly::event::{ConnectionEvent, Event, WorkerEvent};
use whatsaly::registry::WorkerRegistry;

fn connection(phone: &str, status: &str, pairing_code: &str, qr: &str) -> WorkerEvent {
    WorkerEvent {
        event: Some(Event::Connection(ConnectionEvent {
            phone: phone.to_string(),
            status: status.to_string(),
            pairing_code: pairing_code.to_string(),
            qr: qr.to_string(),
        })),
    }
}

fn snapshot(r: &WorkerRegistry) -> Vec<(String, String, Option<String>, bool, Option<u32>)> {
    let mut v: Vec<_> = r
        .list()
        .into_iter()
        .map(|w| (w.phone, w.status, w.pairing_code, w.is_running, w.pid))
        .collect();
    v.sort();
    v
}

#[test]
fn log_line_changes_nothing() {
    let mut r = WorkerRegistry::new();
    r.record_start("1", 5);
    let before = snapshot(&r);
    let d = handle_event(&mut r, WorkerEvent { event: Some(Event::RawLog("boot".to_string())) });
    assert!(matches!(d, Dispatch::Log(ref l) if l == "boot"));
    assert_eq!(snapshot(&r), before);
    let d = handle_event(&mut r, WorkerEvent { event: None });
    assert!(matches!(d, Dispatch::Ignored));
    assert_eq!(snapshot(&r), before);
}

#[test]
fn pairing_code_before_qr() {
    let mut r = WorkerRegistry::new();
    r.record_start("1", 5);
    handle_event(&mut r, connection("1", "pairing", "CODE", "QR"));
    assert_eq!(r.get("1").unwrap().pairing_code.as_deref(), Some("CODE"));
    handle_event(&mut r, connection("1", "qr", "", "QR2"));
    assert_eq!(r.get("1").unwrap().pairing_code.as_deref(), Some("QR2"));
    let d = handle_event(&mut r, connection("1", "open", "", ""));
    assert!(matches!(d, Dispatch::Updated(false)));
    let w = r.get("1").unwrap();
    assert_eq!(w.status, "open");
    assert_eq!(w.pairing_code.as_deref(), Some("QR2"));
}

#[test]
fn connected_is_announced() {
    let mut r = WorkerRegistry::new();
    r.record_start("1", 5);
    assert!(matches!(handle_event(&mut r, connection("1", "connected", "", "")), Dispatch::Updated(true)));
    assert_eq!(r.get("1").unwrap().status, "connected");
}

#[test]
fn update_for_unknown_tenant_changes_nothing() {
    let mut r = WorkerRegistry::new();
    r.record_start("1", 5);
    let before = snapshot(&r);
    assert!(matches!(handle_event(&mut r, connection("2", "connected", "X", "")), Dispatch::Updated(true)));
    assert_eq!(snapshot(&r), before);
}

#[test]
fn logged_out_tears_down_running_tenant() {
    let mut r = WorkerRegistry::new();
    r.record_start("5511999", 5);
    let d = handle_event(&mut r, connection("5511999", "logged_out", "", ""));
    assert!(matches!(d, Dispatch::Teardown(ref t) if t == "5511999"));
    let w = r.get("5511999").unwrap();
    assert!(!w.is_running);
    assert_eq!(w.pid, None);
    assert_eq!(w.status, "logged_out");
}

#[test]
fn logged_out_tears_down_paused_tenant() {
    let mut r = WorkerRegistry::new();
    r.register_paused("7");
    let d = handle_event(&mut r, connection("7", "logged_out", "", ""));
    assert!(matches!(d, Dispatch::Teardown(ref t) if t == "7"));
    let w = r.get("7").unwrap();
    assert!(!w.is_running);
    assert_eq!(w.status, "logged_out");
}

#[test]
fn teardown_plan_names_every_store() {
    let mut r = WorkerRegistry::new();
    r.record_start("5511999", 9);
    let plan = teardown(&mut r, "5511999");
    assert_eq!(plan.stop_message, "5511999:stop");
    assert_eq!(plan.cache_pattern, "session:5511999:*");
    assert_eq!(plan.tenant, "5511999");
    assert!(!r.get("5511999").unwrap().is_running);
}

#[test]
fn teardown_twice_is_teardown_once() {
    let mut once = WorkerRegistry::new();
    once.record_start("1", 9);
    once.record_start("2", 10);
    let mut twice = WorkerRegistry::new();
    twice.record_start("1", 9);
    twice.record_start("2", 10);
    let plan_once = teardown(&mut once, "1");
    let q1 = teardown(&mut twice, "1");
    let q2 = teardown(&mut twice, "1");
    assert_eq!(snapshot(&once), snapshot(&twice));
    assert_eq!(plan_once.stop_message, q2.stop_message);
    assert_eq!(q1.cache_pattern, q2.cache_pattern);
    assert_eq!(teardown_outcome(true, true, true), Ok(()));
    assert_eq!(teardown_outcome(true, true, true), Ok(()));
}

#[test]
fn teardown_of_unknown_tenant_succeeds() {
    let mut r = WorkerRegistry::new();
    let plan = teardown(&mut r, "42");
    assert_eq!(plan.stop_message, "42:stop");
    assert!(r.get("42").is_none());
}

#[test]
fn only_record_deletion_failure_is_reported() {
    assert_eq!(teardown_outcome(false, false, true), Ok(()));
    assert_eq!(teardown_outcome(true, false, true), Ok(()));
    assert_eq!(teardown_outcome(true, true, false), Err(TeardownError::RecordsNotDeleted));
    assert_eq!(teardown_outcome(false, false, false), Err(TeardownError::RecordsNotDeleted));
}

#[test]
fn malformed_payload_leaves_registry_unchanged() {
    let mut r = WorkerRegistry::new();
    r.record_start("1", 5);
    r.set_status("1", "connected");
    let before = snapshot(&r);
    let mut bad = Vec::new();
    encode_key(1, WireType::LengthDelimited, &mut bad);
    encode_varint(40, &mut bad);
    bad.extend_from_slice(b"short");
    assert!(matches!(ingest_payload(&mut r, &bad), Ingest::Dropped));
    assert!(matches!(ingest_payload(&mut r, &[0xff]), Ingest::Dropped));
    assert_eq!(snapshot(&r), before);
}

#[test]
fn well_formed_payload_is_handled() {
    let mut r = WorkerRegistry::new();
    r.record_start("1", 5);
    let mut inner = Vec::new();
    string::encode(1, &"1".to_string(), &mut inner);
    string::encode(2, &"connected".to_string(), &mut inner);
    let mut p = Vec::new();
    encode_key(1, WireType::LengthDelimited, &mut p);
    encode_varint(inner.len() as u64, &mut p);
    p.extend(inner);
    assert!(matches!(ingest_payload(&mut r, &p), Ingest::Handled(Dispatch::Updated(true))));
    assert_eq!(r.get("1").unwrap().status, "connected");
}
