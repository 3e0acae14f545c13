use server_launcher::error::SupervisorError;
use server_launcher::registry::{Registry, WaitReport};
use server_launcher::servers::{
    new_notice, ServerHandle, ServerLifecycleEvent, WaitOutcome,
};

fn exited(name: &str) -> ServerLifecycleEvent {
    ServerLifecycleEvent::Exited { name: name.to_string() }
}

fn process(name: &str, pid: u32) -> ServerHandle {
    ServerHandle { child: Some(pid), name: name.to_string(), running: true }
}

fn simulation(name: &str) -> ServerHandle {
    ServerHandle { child: None, name: name.to_string(), running: true }
}

fn stopped(mut handle: ServerHandle) -> ServerHandle {
    handle.running = false;
    handle
}

fn report(name: &str, outcome: WaitOutcome) -> WaitReport {
    WaitReport { name: name.to_string(), outcome }
}

fn registry_of(handles: Vec<ServerHandle>) -> Registry {
    let mut registry = Registry::new();
    for handle in handles {
        assert_eq!(registry.insert(handle), None);
    }
    registry
}

#[test]
fn new_registry_is_empty() {
    let registry = Registry::new();
    assert_eq!(registry.len(), 0);
    assert!(!registry.contains_key("web"));
    assert_eq!(registry.get("web"), None);
    assert!(registry.poll_targets().is_empty());
    registry.one_handle_per_name();
}

#[test]
fn insert_registers_under_the_name() {
    let mut registry = Registry::new();
    assert_eq!(registry.insert(process("web", 1)), None);
    assert_eq!(registry.insert(simulation("sim")), None);
    assert_eq!(registry.len(), 2);
    assert!(registry.contains_key("web"));
    assert!(registry.contains_key("sim"));
    assert!(!registry.contains_key("we"));
    assert_eq!(registry.get("web"), Some(&process("web", 1)));
    assert_eq!(registry.get("sim"), Some(&simulation("sim")));
}

#[test]
fn insert_under_a_registered_name_displaces() {
    let mut registry = registry_of(vec![process("a", 1), process("web", 2), process("z", 3)]);
    assert_eq!(registry.insert(process("web", 20)), Some(process("web", 2)));
    assert_eq!(registry.len(), 3);
    assert_eq!(registry.get("web"), Some(&process("web", 20)));
    assert_eq!(registry.poll_targets(), vec!["a".to_string(), "web".to_string(), "z".to_string()]);
}

#[test]
fn registry_holds_at_most_one_handle_per_name() {
    let mut registry = Registry::new();
    for pid in 0..10 {
        registry.insert(process("web", pid));
    }
    assert_eq!(registry.len(), 1);
    assert_eq!(registry.get("web"), Some(&process("web", 9)));
}

#[test]
fn exit_event_stops_the_named_run_only() {
    let mut registry = registry_of(vec![process("a", 1), simulation("b"), process("c", 3)]);
    assert!(registry.mark_exited("b"));
    assert_eq!(registry.get("a"), Some(&process("a", 1)));
    assert_eq!(registry.get("b"), Some(&stopped(simulation("b"))));
    assert_eq!(registry.get("c"), Some(&process("c", 3)));
    assert_eq!(registry.len(), 3);
}

#[test]
fn exit_event_for_an_absent_name_is_a_no_op() {
    let mut registry = registry_of(vec![process("a", 1), simulation("b")]);
    assert!(!registry.mark_exited("gone"));
    assert_eq!(registry.len(), 2);
    assert_eq!(registry.get("a"), Some(&process("a", 1)));
    assert_eq!(registry.get("b"), Some(&simulation("b")));
    let mut empty = Registry::new();
    assert!(!empty.mark_exited("gone"));
    assert_eq!(empty.len(), 0);
}

#[test]
fn duplicate_exit_events_change_nothing_more() {
    let mut registry = registry_of(vec![process("web", 1), process("db", 2)]);
    assert!(registry.mark_exited("web"));
    assert!(registry.mark_exited("web"));
    assert_eq!(registry.get("web"), Some(&stopped(process("web", 1))));
    assert_eq!(registry.get("db"), Some(&process("db", 2)));
    registry.remove_stopped();
    assert!(!registry.contains_key("web"));
    assert!(!registry.mark_exited("web"));
    assert_eq!(registry.len(), 1);
    assert_eq!(registry.get("db"), Some(&process("db", 2)));
}

#[test]
fn remove_stopped_keeps_the_running_in_order() {
    let mut registry =
        registry_of(vec![process("a", 1), process("b", 2), process("c", 3), process("d", 4), process("e", 5)]);
    registry.mark_exited("b");
    registry.mark_exited("e");
    registry.mark_exited("a");
    registry.remove_stopped();
    assert_eq!(registry.len(), 2);
    assert_eq!(registry.poll_targets(), vec!["c".to_string(), "d".to_string()]);
}

#[test]
fn poll_targets_are_the_running_processes() {
    let mut registry =
        registry_of(vec![process("a", 1), simulation("sim"), process("b", 2), process("c", 3)]);
    registry.mark_exited("b");
    assert_eq!(registry.poll_targets(), vec!["a".to_string(), "c".to_string()]);
}

#[test]
fn reconcile_flips_what_the_reports_say_ended() {
    let mut registry =
        registry_of(vec![process("a", 1), process("b", 2), simulation("sim"), process("c", 3)]);
    let notices = registry.reconcile(&vec![
        report("c", WaitOutcome::Failed("no child".to_string())),
        report("a", WaitOutcome::Exited),
        report("b", WaitOutcome::StillRunning),
        report("sim", WaitOutcome::Exited),
        report("unknown", WaitOutcome::Exited),
    ]);
    assert_eq!(
        notices,
        vec![
            new_notice("Server a process has exited.".to_string()),
            new_notice(
                "Error checking status for server c: no child. Marking as not running."
                    .to_string()
            ),
        ]
    );
    assert_eq!(registry.len(), 4);
    assert_eq!(registry.get("a"), Some(&stopped(process("a", 1))));
    assert_eq!(registry.get("b"), Some(&process("b", 2)));
    assert_eq!(registry.get("sim"), Some(&simulation("sim")));
    assert_eq!(registry.get("c"), Some(&stopped(process("c", 3))));
}

#[test]
fn the_first_report_of_a_name_counts() {
    let mut registry = registry_of(vec![process("a", 1)]);
    let notices = registry
        .reconcile(&vec![report("a", WaitOutcome::StillRunning), report("a", WaitOutcome::Exited)]);
    assert!(notices.is_empty());
    assert_eq!(registry.get("a"), Some(&process("a", 1)));
}

#[test]
fn a_run_without_a_report_is_taken_to_run_on() {
    let mut registry = registry_of(vec![process("a", 1), process("b", 2)]);
    let notices = registry.on_tick(&vec![report("b", WaitOutcome::Exited)]);
    assert_eq!(notices, vec![new_notice("Server b process has exited.".to_string())]);
    assert_eq!(registry.len(), 1);
    assert_eq!(registry.get("a"), Some(&process("a", 1)));
}

#[test]
fn tick_never_removes_a_live_run() {
    let mut registry = registry_of(vec![process("live", 1), simulation("sim"), process("dead", 2)]);
    for _ in 0..3 {
        registry.on_tick(&vec![
            report("live", WaitOutcome::StillRunning),
            report("sim", WaitOutcome::Exited),
            report("dead", WaitOutcome::Exited),
        ]);
        assert_eq!(registry.get("live"), Some(&process("live", 1)));
        assert_eq!(registry.get("sim"), Some(&simulation("sim")));
        assert!(!registry.contains_key("dead"));
    }
    assert_eq!(registry.len(), 2);
}

#[test]
fn tick_removes_what_an_event_or_a_kill_stopped() {
    let mut registry = registry_of(vec![simulation("sim"), process("web", 4), process("db", 5)]);
    let mut events = Vec::new();
    registry.mark_exited("sim");
    assert_eq!(registry.kill_process("web", Ok(()), &mut events), Some(Ok(())));
    let notices = registry.on_tick(&Vec::new());
    assert!(notices.is_empty());
    assert_eq!(registry.len(), 1);
    assert!(registry.contains_key("db"));
    assert_eq!(events, vec![exited("web")]);
}

#[test]
fn kill_through_the_registry() {
    let mut registry = registry_of(vec![process("web", 4), simulation("sim")]);
    let mut events = Vec::new();
    assert_eq!(registry.kill_process("nobody", Ok(()), &mut events), None);
    assert!(events.is_empty());
    assert_eq!(
        registry.kill_process("web", Err("denied".to_string()), &mut events),
        Some(Err(SupervisorError::KillFailed {
            name: "web".to_string(),
            cause: "denied".to_string(),
        }))
    );
    assert!(events.is_empty());
    assert_eq!(registry.get("web"), Some(&process("web", 4)));
    assert_eq!(registry.kill_process("sim", Err("unused".to_string()), &mut events), Some(Ok(())));
    assert_eq!(registry.get("sim"), Some(&stopped(simulation("sim"))));
    assert_eq!(registry.kill_process("web", Ok(()), &mut events), Some(Ok(())));
    assert_eq!(registry.get("web"), Some(&stopped(process("web", 4))));
    assert_eq!(events, vec![exited("sim"), exited("web")]);
}

#[test]
fn a_name_can_be_launched_again_after_removal() {
    let mut registry = registry_of(vec![process("web", 4)]);
    registry.mark_exited("web");
    registry.remove_stopped();
    assert_eq!(registry.insert(process("web", 5)), None);
    assert_eq!(registry.get("web"), Some(&process("web", 5)));
}
