use whatsaly::control::Command;
use whatsaly::dispatch::{handle_event, Dispatch};
use whatsaly::event::{ConnectionEvent, Event, WorkerEvent};
use whatsaly::registry::{WorkerInfo, WorkerRegistry};
use whatsaly::supervisor::{
    persisted_text, Effect, Persisted, Phase, RestartPolicy, Supervisor, SupervisorEvent,
};

fn connection(phone: &str, status: &str, pairing_code: &str, qr: &str) -> WorkerEvent {
    WorkerEvent {
        event: Some(Event::Connection(ConnectionEvent {
            phone: phone.to_string(),
            status: status.to_string(),
            pairing_code: pairing_code.to_string(),
            qr: qr.to_string(),
        })),
    }
}

fn entry(r: &WorkerRegistry, t: &str) -> WorkerInfo {
    r.get(t).expect("entry")
}

#[test]
fn registry_starts_empty() {
    let r = WorkerRegistry::new();
    assert!(r.get("1").is_none());
    assert!(r.list().is_empty());
}

#[test]
fn registry_records_and_updates() {
    let mut r = WorkerRegistry::new();
    r.record_start("1", 10);
    r.record_start("2", 20);
    let w = entry(&r, "1");
    assert_eq!(w.status, "starting");
    assert!(w.is_running);
    assert_eq!(w.pid, Some(10));
    assert_eq!(w.pairing_code, None);
    r.set_status("1", "connected");
    assert_eq!(entry(&r, "1").status, "connected");
    r.set_status("3", "connected");
    assert!(r.get("3").is_none());
    r.mark_stopped("2", "paused");
    let w = entry(&r, "2");
    assert_eq!(w.status, "paused");
    assert!(!w.is_running);
    assert_eq!(w.pid, None);
    r.record_start("1", 11);
    assert_eq!(entry(&r, "1").pid, Some(11));
    assert_eq!(r.list().len(), 2);
    r.register_paused("9");
    let w = entry(&r, "9");
    assert_eq!(w.status, "paused");
    assert!(!w.is_running);
    assert_eq!(r.list().len(), 3);
}

#[test]
fn registry_release_keeps_status() {
    let mut r = WorkerRegistry::new();
    r.record_start("1", 10);
    r.set_status("1", "connected");
    r.release("1");
    let w = entry(&r, "1");
    assert_eq!(w.status, "connected");
    assert!(!w.is_running);
    assert_eq!(w.pid, None);
}

#[test]
fn registry_keeps_pairing_code_across_restart() {
    let mut r = WorkerRegistry::new();
    r.record_start("1", 10);
    r.apply_connection("1", "pairing", Some("ABCD-1234"));
    r.mark_stopped("1", "crashed");
    r.record_start("1", 11);
    assert_eq!(entry(&r, "1").pairing_code.as_deref(), Some("ABCD-1234"));
}

#[test]
fn standard_policy() {
    let p = RestartPolicy::standard();
    assert_eq!(p.backoff_secs, 5);
    assert_eq!(p.max_restarts, None);
    assert_eq!(p.pause_limit_secs, None);
}

#[test]
fn bounded_pause_resumes_by_itself() {
    let mut r = WorkerRegistry::new();
    let policy = RestartPolicy { backoff_secs: 5, max_restarts: None, pause_limit_secs: Some(60) };
    let mut s = Supervisor::new("t", policy);
    s.step(&mut r, SupervisorEvent::Spawned(3));
    assert_eq!(
        s.step(&mut r, SupervisorEvent::Command(Command::Pause)),
        vec![Effect::TerminateTree(3), Effect::Persist(Persisted::Paused), Effect::Wait(60)]
    );
    assert_eq!(
        s.step(&mut r, SupervisorEvent::BackoffElapsed),
        vec![Effect::Persist(Persisted::Starting), Effect::Spawn]
    );
    assert_eq!(s.phase, Phase::Starting);
    assert_eq!(entry(&r, "t").status, "starting");
}

#[test]
fn unbounded_pause_ignores_timers() {
    let mut r = WorkerRegistry::new();
    let mut s = Supervisor::new("t", RestartPolicy::standard());
    s.step(&mut r, SupervisorEvent::Spawned(3));
    s.step(&mut r, SupervisorEvent::Command(Command::Pause));
    assert!(s.step(&mut r, SupervisorEvent::BackoffElapsed).is_empty());
    assert_eq!(s.phase, Phase::Paused);
}

#[test]
fn persisted_words() {
    assert_eq!(persisted_text(Persisted::Starting), "starting");
    assert_eq!(persisted_text(Persisted::Paused), "paused");
    assert_eq!(persisted_text(Persisted::Crashed), "crashed");
}

#[test]
fn pause_terminates_tree_and_records_paused() {
    let mut r = WorkerRegistry::new();
    let mut s = Supervisor::new("t", RestartPolicy::standard());
    assert!(s.step(&mut r, SupervisorEvent::Spawned(42)).is_empty());
    assert_eq!(s.phase, Phase::Running(42));
    let fx = s.step(&mut r, SupervisorEvent::Command(Command::Pause));
    assert_eq!(fx, vec![Effect::TerminateTree(42), Effect::Persist(Persisted::Paused)]);
    assert_eq!(s.phase, Phase::Paused);
    let w = entry(&r, "t");
    assert!(!w.is_running);
    assert_eq!(w.status, "paused");
    assert_eq!(w.pid, None);
}

#[test]
fn resume_spawns_a_new_child() {
    let mut r = WorkerRegistry::new();
    let mut s = Supervisor::new("t", RestartPolicy::standard());
    s.step(&mut r, SupervisorEvent::Spawned(42));
    s.step(&mut r, SupervisorEvent::Command(Command::Pause));
    let fx = s.step(&mut r, SupervisorEvent::Command(Command::Resume));
    assert_eq!(fx, vec![Effect::Persist(Persisted::Starting), Effect::Spawn]);
    assert_eq!(s.phase, Phase::Starting);
    assert_eq!(entry(&r, "t").status, "starting");
    assert!(s.step(&mut r, SupervisorEvent::Spawned(43)).is_empty());
    let w = entry(&r, "t");
    assert!(w.is_running);
    assert_eq!(w.pid, Some(43));
}

#[test]
fn paused_supervisor_waits_only_for_resume_or_stop() {
    let mut r = WorkerRegistry::new();
    let mut s = Supervisor::new("t", RestartPolicy::standard());
    s.step(&mut r, SupervisorEvent::Spawned(42));
    s.step(&mut r, SupervisorEvent::Command(Command::Pause));
    assert!(s.step(&mut r, SupervisorEvent::Command(Command::Pause)).is_empty());
    assert!(s.step(&mut r, SupervisorEvent::ChildExited).is_empty());
    assert!(s.step(&mut r, SupervisorEvent::BackoffElapsed).is_empty());
    assert_eq!(s.phase, Phase::Paused);
    assert_eq!(s.step(&mut r, SupervisorEvent::Command(Command::Stop)), vec![Effect::Exit]);
    assert_eq!(s.phase, Phase::Stopped);
}

#[test]
fn end_to_end_connect_pause_resume() {
    let mut r = WorkerRegistry::new();
    let mut s = Supervisor::new("5511999", RestartPolicy::standard());
    s.step(&mut r, SupervisorEvent::Spawned(1000));
    let d = handle_event(&mut r, connection("5511999", "connected", "", ""));
    assert!(matches!(d, Dispatch::Updated(true)));
    let w = entry(&r, "5511999");
    assert_eq!(w.status, "connected");
    assert!(w.is_running);

    let fx = s.step(&mut r, SupervisorEvent::Command(Command::Pause));
    assert_eq!(fx, vec![Effect::TerminateTree(1000), Effect::Persist(Persisted::Paused)]);
    let w = entry(&r, "5511999");
    assert_eq!(w.status, "paused");
    assert!(!w.is_running);

    let fx = s.step(&mut r, SupervisorEvent::Command(Command::Resume));
    assert_eq!(fx, vec![Effect::Persist(Persisted::Starting), Effect::Spawn]);
    assert_eq!(entry(&r, "5511999").status, "starting");
    s.step(&mut r, SupervisorEvent::Spawned(1001));
    let w = entry(&r, "5511999");
    assert_eq!(w.status, "starting");
    assert!(w.is_running);
    assert_eq!(w.pid, Some(1001));
}

#[test]
fn crash_backs_off_then_respawns() {
    let mut r = WorkerRegistry::new();
    let mut s = Supervisor::new("t", RestartPolicy::standard());
    s.step(&mut r, SupervisorEvent::Spawned(7));
    s.step(&mut r, SupervisorEvent::Command(Command::Resume));
    assert_eq!(s.phase, Phase::Running(7));
    let fx = s.step(&mut r, SupervisorEvent::ChildExited);
    assert_eq!(fx, vec![Effect::Persist(Persisted::Crashed), Effect::Wait(5)]);
    assert_eq!(s.phase, Phase::Backoff);
    let w = entry(&r, "t");
    assert_eq!(w.status, "crashed");
    assert!(!w.is_running);
    assert_eq!(s.step(&mut r, SupervisorEvent::BackoffElapsed), vec![Effect::Spawn]);
    assert_eq!(s.phase, Phase::Starting);
    s.step(&mut r, SupervisorEvent::Spawned(8));
    assert_eq!(s.phase, Phase::Running(8));
    let w = entry(&r, "t");
    assert!(w.is_running);
    assert_eq!(w.pid, Some(8));
    assert_eq!(s.crashes, 1);
}

#[test]
fn crashes_never_give_up_by_default() {
    let mut r = WorkerRegistry::new();
    let mut s = Supervisor::new("t", RestartPolicy::standard());
    for pid in 1..50u32 {
        s.step(&mut r, SupervisorEvent::Spawned(pid));
        s.step(&mut r, SupervisorEvent::ChildExited);
        assert_eq!(s.step(&mut r, SupervisorEvent::BackoffElapsed), vec![Effect::Spawn]);
    }
    assert_eq!(s.crashes, 49);
}

#[test]
fn restart_cap_stops_supervisor() {
    let mut r = WorkerRegistry::new();
    let policy = RestartPolicy { backoff_secs: 2, max_restarts: Some(1), pause_limit_secs: None };
    let mut s = Supervisor::new("t", policy);
    s.step(&mut r, SupervisorEvent::Spawned(1));
    assert_eq!(
        s.step(&mut r, SupervisorEvent::ChildExited),
        vec![Effect::Persist(Persisted::Crashed), Effect::Wait(2)]
    );
    s.step(&mut r, SupervisorEvent::BackoffElapsed);
    s.step(&mut r, SupervisorEvent::Spawned(2));
    assert_eq!(
        s.step(&mut r, SupervisorEvent::ChildExited),
        vec![Effect::Persist(Persisted::Crashed), Effect::Exit]
    );
    assert_eq!(s.phase, Phase::Stopped);
}

#[test]
fn stop_preempts_backoff_and_running() {
    let mut r = WorkerRegistry::new();
    let mut s = Supervisor::new("t", RestartPolicy::standard());
    s.step(&mut r, SupervisorEvent::Spawned(5));
    s.step(&mut r, SupervisorEvent::ChildExited);
    assert_eq!(s.step(&mut r, SupervisorEvent::Command(Command::Stop)), vec![Effect::Exit]);
    assert_eq!(s.phase, Phase::Stopped);
    assert!(s.step(&mut r, SupervisorEvent::BackoffElapsed).is_empty());

    let mut s = Supervisor::new("u", RestartPolicy::standard());
    s.step(&mut r, SupervisorEvent::Spawned(6));
    assert_eq!(
        s.step(&mut r, SupervisorEvent::Command(Command::Stop)),
        vec![Effect::TerminateTree(6), Effect::Exit]
    );
    let w = entry(&r, "u");
    assert!(!w.is_running);
    assert_eq!(w.pid, None);
}

#[test]
fn pause_during_backoff() {
    let mut r = WorkerRegistry::new();
    let mut s = Supervisor::new("t", RestartPolicy::standard());
    s.step(&mut r, SupervisorEvent::Spawned(5));
    s.step(&mut r, SupervisorEvent::ChildExited);
    assert_eq!(
        s.step(&mut r, SupervisorEvent::Command(Command::Pause)),
        vec![Effect::Persist(Persisted::Paused)]
    );
    assert_eq!(s.phase, Phase::Paused);
    assert_eq!(entry(&r, "t").status, "paused");
}

#[test]
fn spawn_failure_ends_supervisor() {
    let mut r = WorkerRegistry::new();
    let mut s = Supervisor::new("t", RestartPolicy::standard());
    assert_eq!(s.step(&mut r, SupervisorEvent::SpawnFailed), vec![Effect::Exit]);
    assert_eq!(s.phase, Phase::Stopped);
    assert!(r.get("t").is_none());
}

#[test]
fn one_running_child_per_tenant() {
    let mut r = WorkerRegistry::new();
    let mut s = Supervisor::new("t", RestartPolicy::standard());
    s.step(&mut r, SupervisorEvent::Spawned(1));
    s.step(&mut r, SupervisorEvent::Spawned(2));
    assert_eq!(s.phase, Phase::Running(1));
    let running: Vec<_> = r.list().into_iter().filter(|w| w.phone == "t" && w.is_running).collect();
    assert_eq!(running.len(), 1);
    assert_eq!(running[0].pid, Some(1));
}
