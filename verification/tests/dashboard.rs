use server_launcher::command::build_command;
use server_launcher::dashboard::{build_sample_servers, wrap_index, App, LaunchStep};
use server_launcher::db::{DisplayColor, Server};
use server_launcher::registry::WaitReport;
use server_launcher::servers::{
    new_notice, CaptureTask, MessageChannel, ServerHandle, ServerLifecycleEvent, ServerMessage,
    SpawnOutcome, WaitOutcome,
};

fn strings(parts: &[&str]) -> Vec<String> {
    parts.iter().map(|p| p.to_string()).collect()
}

fn exited(name: &str) -> ServerLifecycleEvent {
    ServerLifecycleEvent::Exited { name: name.to_string() }
}

fn notice(text: &str) -> ServerMessage {
    new_notice(text.to_string())
}

fn definitions() -> Vec<Server> {
    vec![
        Server::default().id(1).name("sim").test_server(true),
        Server::default().id(2).name("web").path("/srv/web").executable("./run"),
        Server::default().id(3).name("db").path("/srv/db").executable("./db"),
    ]
}

fn log_texts(app: &App) -> Vec<String> {
    app.logs.iter().map(|m| m.contents.clone()).collect()
}

fn spawned(pid: u32) -> SpawnOutcome {
    SpawnOutcome::Spawned { pid, stdout_piped: true, stderr_piped: true }
}

#[test]
fn new_app_offers_the_sample_definitions() {
    let app = App::new();
    assert_eq!(app.counter, 0);
    assert_eq!(app.selected_server, 0);
    assert_eq!(app.allocated_servers.len(), 0);
    assert_eq!(app.logs.len(), 1);
    assert_eq!(app.logs[0], notice("Log Panel Initialized"));
    assert_eq!(app.available_servers, build_sample_servers());
    assert_eq!(app.available_servers.len(), 4);
    let first = &app.available_servers[0];
    assert_eq!(first.id, 1);
    assert_eq!(first.name, "Server 1");
    assert_eq!(first.path, "/C");
    assert_eq!(first.executable, "server.jar");
    assert!(first.test_server);
    assert_eq!(first.display_color, DisplayColor::Rgb(30, 230, 180));
    let second = &app.available_servers[1];
    assert_eq!(second.id, 2);
    assert_eq!(second.name, "Timer 1");
    assert_eq!(second.executable, "python3");
    assert_eq!(second.args, strings(&["-u", "timer.py", "8"]));
    assert!(!second.test_server);
    let third = &app.available_servers[2];
    assert_eq!(third.id, 3);
    assert_eq!(third.name, "Ascii Image");
    assert_eq!(third.args, strings(&["-u", "ascii_image.py"]));
    assert!(third.autostart);
    let fourth = &app.available_servers[3];
    assert_eq!(fourth.id, 6);
    assert_eq!(fourth.name, "Minecraft Server");
    assert_eq!(fourth.path, "/Users/student/Downloads/MinecraftServer");
    assert_eq!(fourth.executable, "./start_Server.sh");
    assert_eq!(fourth.display_color, DisplayColor::White);
}

#[test]
fn with_servers_starts_on_the_first() {
    let app = App::with_servers(definitions());
    assert_eq!(app.selected_server, 0);
    assert_eq!(app.selected().map(|s| s.name.clone()), Some("sim".to_string()));
    assert_eq!(log_texts(&app), strings(&["Log Panel Initialized"]));
}

#[test]
fn selection_of_an_empty_list_is_none() {
    let mut app = App::with_servers(Vec::new());
    assert!(app.selected().is_none());
    app.select_next();
    assert_eq!(app.selected_server, 0);
    app.select_previous();
    assert_eq!(app.selected_server, 0);
    assert!(matches!(app.launch_selected("linux"), LaunchStep::Unavailable));
    assert_eq!(app.finish_launch(spawned(5)), None);
    assert_eq!(app.selected_process(), None);
    let mut events = Vec::new();
    app.kill_selected(Ok(()), &mut events);
    assert!(events.is_empty());
    assert_eq!(log_texts(&app), strings(&["Log Panel Initialized"]));
}

#[test]
fn wrap_index_goes_around_both_ends() {
    assert_eq!(wrap_index(0, 3, 1), 1);
    assert_eq!(wrap_index(3, 3, 1), 0);
    assert_eq!(wrap_index(0, 3, -1), 3);
    assert_eq!(wrap_index(2, 3, -1), 1);
    assert_eq!(wrap_index(0, 0, 1), 0);
    assert_eq!(wrap_index(0, 0, -1), 0);
    assert_eq!(wrap_index(1, 3, 10), 3);
    assert_eq!(wrap_index(1, 3, -10), 3);
    assert_eq!(wrap_index(7, 3, 0), 3);
}

#[test]
fn selection_moves_around_the_list() {
    let mut app = App::with_servers(definitions());
    app.select_next();
    assert_eq!(app.selected_server, 1);
    app.select_next();
    assert_eq!(app.selected_server, 2);
    app.select_next();
    assert_eq!(app.selected_server, 0);
    app.select_previous();
    assert_eq!(app.selected_server, 2);
    app.move_selection(-2);
    assert_eq!(app.selected_server, 0);
    app.move_selection(7);
    assert_eq!(app.selected_server, 1);
}

#[test]
fn selection_stays_where_the_move_would_overflow() {
    let mut app = App::with_servers(definitions());
    app.selected_server = 2;
    app.move_selection(isize::MAX);
    assert_eq!(app.selected_server, 2);
    app.selected_server = usize::MAX;
    app.move_selection(-1);
    assert_eq!(app.selected_server, usize::MAX);
}

#[test]
fn launching_a_simulated_definition_registers_it_at_once() {
    let mut app = App::with_servers(definitions());
    match app.launch_selected("linux") {
        LaunchStep::Simulated(plan) => {
            assert_eq!(plan.name, "sim");
            assert_eq!(plan.notices, 15);
            assert_eq!(plan.interval_millis, 1000);
        }
        other => panic!("unexpected {:?}", other),
    }
    assert_eq!(
        app.allocated_servers.get("sim"),
        Some(&ServerHandle { child: None, name: "sim".to_string(), running: true })
    );
    assert_eq!(
        log_texts(&app),
        strings(&["Log Panel Initialized", "Server sim launched successfully."])
    );
    assert_eq!(app.selected_process(), None);
}

#[test]
fn launching_a_real_definition_takes_two_steps() {
    let mut app = App::with_servers(definitions());
    app.select_next();
    let expected = build_command(&app.available_servers[1], "linux").unwrap();
    match app.launch_selected("linux") {
        LaunchStep::Spawn(command) => assert_eq!(command, expected),
        other => panic!("unexpected {:?}", other),
    }
    assert_eq!(app.allocated_servers.len(), 0);
    assert_eq!(log_texts(&app), strings(&["Log Panel Initialized"]));
    let captures = app.finish_launch(spawned(4321));
    assert_eq!(
        captures,
        Some((
            CaptureTask { name: "web".to_string(), is_stderr: false },
            CaptureTask { name: "web".to_string(), is_stderr: true },
        ))
    );
    assert_eq!(
        app.allocated_servers.get("web"),
        Some(&ServerHandle { child: Some(4321), name: "web".to_string(), running: true })
    );
    assert_eq!(
        log_texts(&app),
        strings(&["Log Panel Initialized", "Server web launched successfully."])
    );
    assert_eq!(app.selected_process(), Some(4321));
}

#[test]
fn second_launch_under_a_registered_name_is_rejected() {
    let mut app = App::with_servers(definitions());
    assert!(matches!(app.launch_selected("linux"), LaunchStep::Simulated(_)));
    let logs_before = log_texts(&app);
    assert!(matches!(app.launch_selected("linux"), LaunchStep::AlreadyRunning));
    assert!(matches!(app.launch_selected("plan9"), LaunchStep::AlreadyRunning));
    assert_eq!(app.allocated_servers.len(), 1);
    assert_eq!(log_texts(&app), logs_before);
    app.select_next();
    assert!(matches!(app.launch_selected("linux"), LaunchStep::Spawn(_)));
    assert!(app.finish_launch(spawned(10)).is_some());
    assert!(matches!(app.launch_selected("linux"), LaunchStep::AlreadyRunning));
    assert_eq!(app.allocated_servers.len(), 2);
}

#[test]
fn launch_on_an_unknown_platform_is_logged() {
    let mut app = App::with_servers(definitions());
    app.select_next();
    assert!(matches!(app.launch_selected("plan9"), LaunchStep::Failed));
    assert_eq!(app.allocated_servers.len(), 0);
    assert_eq!(
        log_texts(&app),
        strings(&["Log Panel Initialized", "Failed to launch server web: Unsupported OS"])
    );
}

#[test]
fn failed_spawn_creates_no_registry_entry() {
    let mut app = App::with_servers(definitions());
    app.select_next();
    assert!(matches!(app.launch_selected("linux"), LaunchStep::Spawn(_)));
    let captures = app.finish_launch(SpawnOutcome::Failed { cause: "No such file".to_string() });
    assert_eq!(captures, None);
    assert_eq!(app.allocated_servers.len(), 0);
    assert_eq!(
        log_texts(&app),
        strings(&[
            "Log Panel Initialized",
            "Failed to launch server web: Failed to spawn server web: No such file",
        ])
    );
}

#[test]
fn spawn_without_a_pipe_creates_no_registry_entry() {
    let mut app = App::with_servers(definitions());
    app.select_next();
    let captures = app.finish_launch(SpawnOutcome::Spawned {
        pid: 3,
        stdout_piped: true,
        stderr_piped: false,
    });
    assert_eq!(captures, None);
    assert_eq!(app.allocated_servers.len(), 0);
    assert_eq!(
        log_texts(&app),
        strings(&["Log Panel Initialized", "Failed to launch server web: Could not capture stderr"])
    );
}

#[test]
fn kill_of_the_selected_run() {
    let mut app = App::with_servers(definitions());
    app.select_next();
    app.finish_launch(spawned(8));
    let mut events = Vec::new();
    app.kill_selected(Ok(()), &mut events);
    assert_eq!(events, vec![exited("web")]);
    assert_eq!(
        app.allocated_servers.get("web"),
        Some(&ServerHandle { child: Some(8), name: "web".to_string(), running: false })
    );
    assert_eq!(
        log_texts(&app).last().unwrap(),
        "Attempting to kill server: web. It will be removed from the list if successful."
    );
    app.on_tick(&Vec::new());
    assert!(!app.allocated_servers.contains_key("web"));
}

#[test]
fn failed_kill_leaves_the_entry_as_it_was() {
    let mut app = App::with_servers(definitions());
    app.select_next();
    app.finish_launch(spawned(8));
    let mut events = Vec::new();
    app.kill_selected(Err("Operation not permitted".to_string()), &mut events);
    assert!(events.is_empty());
    assert_eq!(
        app.allocated_servers.get("web"),
        Some(&ServerHandle { child: Some(8), name: "web".to_string(), running: true })
    );
    assert_eq!(
        log_texts(&app).last().unwrap(),
        "Failed to kill server web: failed to kill web: Operation not permitted"
    );
    app.on_tick(&vec![WaitReport { name: "web".to_string(), outcome: WaitOutcome::StillRunning }]);
    assert!(app.allocated_servers.contains_key("web"));
}

#[test]
fn kill_without_a_run_is_logged() {
    let mut app = App::with_servers(definitions());
    let mut events = Vec::new();
    app.kill_selected(Ok(()), &mut events);
    assert!(events.is_empty());
    assert_eq!(
        log_texts(&app).last().unwrap(),
        "Server sim is not currently running or allocated."
    );
}

#[test]
fn kill_of_a_simulated_run_converges_the_registry() {
    let mut app = App::with_servers(definitions());
    app.launch_selected("linux");
    let mut events = Vec::new();
    app.kill_selected(Ok(()), &mut events);
    assert_eq!(events, vec![exited("sim")]);
    app.on_tick(&Vec::new());
    assert_eq!(app.allocated_servers.len(), 0);
    for event in events {
        app.receive_event(event);
    }
    assert_eq!(app.allocated_servers.len(), 0);
}

#[test]
fn received_message_goes_into_the_log() {
    let mut app = App::with_servers(definitions());
    let message = ServerMessage {
        name: "web".to_string(),
        contents: "ready".to_string(),
        channel: MessageChannel::Stdout,
    };
    app.receive_message(message.clone());
    assert_eq!(app.logs.len(), 2);
    assert_eq!(app.logs[1], message);
}

#[test]
fn exit_event_stops_the_run_and_is_logged() {
    let mut app = App::with_servers(definitions());
    app.launch_selected("linux");
    app.receive_event(exited("sim"));
    assert_eq!(
        app.allocated_servers.get("sim"),
        Some(&ServerHandle { child: None, name: "sim".to_string(), running: false })
    );
    assert_eq!(log_texts(&app).last().unwrap(), "Server sim has Exited");
    app.on_tick(&Vec::new());
    assert_eq!(app.allocated_servers.len(), 0);
}

#[test]
fn duplicate_exit_events_are_no_ops_for_the_registry() {
    let mut app = App::with_servers(definitions());
    app.select_next();
    app.finish_launch(spawned(8));
    app.select_next();
    app.finish_launch(spawned(9));
    app.receive_event(exited("web"));
    app.on_tick(&Vec::new());
    assert!(!app.allocated_servers.contains_key("web"));
    assert_eq!(app.allocated_servers.len(), 1);
    app.receive_event(exited("web"));
    app.receive_event(exited("web"));
    app.on_tick(&Vec::new());
    assert_eq!(app.allocated_servers.len(), 1);
    assert_eq!(
        app.allocated_servers.get("db"),
        Some(&ServerHandle { child: Some(9), name: "db".to_string(), running: true })
    );
}

#[test]
fn tick_counts_and_logs_the_notices() {
    let mut app = App::with_servers(definitions());
    app.select_next();
    app.finish_launch(spawned(8));
    app.select_next();
    app.finish_launch(spawned(9));
    app.on_tick(&vec![
        WaitReport { name: "db".to_string(), outcome: WaitOutcome::Failed("ECHILD".to_string()) },
        WaitReport { name: "web".to_string(), outcome: WaitOutcome::Exited },
    ]);
    assert_eq!(app.counter, 1);
    assert_eq!(app.allocated_servers.len(), 0);
    let texts = log_texts(&app);
    assert_eq!(
        &texts[texts.len() - 2..],
        &strings(&[
            "Server web process has exited.",
            "Error checking status for server db: ECHILD. Marking as not running.",
        ])[..]
    );
}

#[test]
fn tick_counter_wraps() {
    let mut app = App::with_servers(Vec::new());
    app.counter = i32::MAX;
    app.on_tick(&Vec::new());
    assert_eq!(app.counter, i32::MIN);
    app.on_tick(&Vec::new());
    assert_eq!(app.counter, i32::MIN + 1);
}

#[test]
fn log_is_trimmed_to_the_panel() {
    let mut app = App::with_servers(Vec::new());
    app.clear_logs();
    for i in 0..10 {
        app.log(notice(&format!("line {}", i)));
    }
    app.trim_logs(20);
    assert_eq!(app.logs.len(), 10);
    app.trim_logs(12);
    assert_eq!(app.logs.len(), 10);
    app.trim_logs(6);
    assert_eq!(log_texts(&app), strings(&["line 6", "line 7", "line 8", "line 9"]));
    app.trim_logs(2);
    assert_eq!(app.logs.len(), 0);
    app.log(notice("again"));
    app.trim_logs(1);
    assert_eq!(app.logs.len(), 0);
    app.log(notice("again"));
    app.trim_logs(0);
    assert_eq!(app.logs.len(), 0);
}

#[test]
fn clear_and_popup() {
    let mut app = App::with_servers(definitions());
    app.note_popup();
    assert_eq!(
        log_texts(&app),
        strings(&["Log Panel Initialized", "Pressed Space should open popup"])
    );
    app.clear_logs();
    assert!(app.logs.is_empty());
}
