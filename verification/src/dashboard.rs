//! The state of the control loop: the definitions on offer, the one that
//! is selected, the registry of live runs, and the log that is shown. Each
//! method is one decision of the loop; the loop itself, with the spawning,
//! waiting and sending it does between them, belongs to the caller.

use std::collections::VecDeque;
use vstd::prelude::*;
use crate::command::{spec_command, spec_platform, CommandSpec};
use crate::db::{DisplayColor, Server, ServerView};
use crate::error::{error_text, ErrorView};
use crate::registry::{
    exit_entries, has_name, lookup, names_distinct, reconcile_notices, survives_tick,
    tick_entries, Registry, WaitReport,
};
use crate::servers::{
    default_simulation, emitted, finish_launch, kill_succeeds, launch, message_views,
    new_notice, notice, spawn_failure, started, CaptureTask, CaptureView, EventView, HandleView,
    LaunchPlan, MessageView, ServerLifecycleEvent, ServerMessage, SimulationPlan, SpawnOutcome,
};
use crate::text::enclose;

verus! {

/// The sequence of views of a sequence of definitions.
pub open spec fn server_views(servers: Seq<Server>) -> Seq<ServerView> {
    servers.map_values(|s: Server| s@)
}

/// What the control loop knows.
#[derive(Debug)]
pub struct App {
    /// Ticks so far, wrapping.
    pub counter: i32,
    /// The log that is shown, oldest line first.
    pub logs: VecDeque<ServerMessage>,
    pub available_servers: Vec<Server>,
    /// Index of the selected definition.
    pub selected_server: usize,
    /// The registry of live runs.
    pub allocated_servers: Registry,
}

/// What an [`App`] holds, as mathematical values.
pub struct AppView {
    pub counter: int,
    pub logs: Seq<MessageView>,
    pub available_servers: Seq<ServerView>,
    pub selected_server: nat,
    pub allocated_servers: Seq<HandleView>,
}

impl View for App {
    type V = AppView;

    open spec fn view(&self) -> AppView {
        AppView {
            counter: self.counter as int,
            logs: message_views(self.logs@),
            available_servers: server_views(self.available_servers@),
            selected_server: self.selected_server as nat,
            allocated_servers: self.allocated_servers@,
        }
    }
}

/// The definition that is selected, if the selection points at one.
pub open spec fn spec_selected(app: AppView) -> Option<ServerView> {
    if app.selected_server < app.available_servers.len() {
        Some(app.available_servers[app.selected_server as int])
    } else {
        None
    }
}

/// `app` with one more line at the end of its log.
pub open spec fn logged(app: AppView, message: MessageView) -> AppView {
    AppView { logs: app.logs.push(message), ..app }
}

/// The log line for a run that was launched.
pub open spec fn launched_text(name: Seq<char>) -> Seq<char> {
    "Server "@ + name + " launched successfully."@
}

/// The log line for a launch that failed.
pub open spec fn launch_failed_text(name: Seq<char>, error: ErrorView) -> Seq<char> {
    "Failed to launch server "@ + name + ": "@ + error_text(error)
}

/// The log line for a termination request that was accepted.
pub open spec fn kill_requested_text(name: Seq<char>) -> Seq<char> {
    "Attempting to kill server: "@ + name + ". It will be removed from the list if successful."@
}

/// The log line for a termination request that failed.
pub open spec fn kill_failed_text(name: Seq<char>, error: ErrorView) -> Seq<char> {
    "Failed to kill server "@ + name + ": "@ + error_text(error)
}

/// The log line for a termination request without a run to terminate.
pub open spec fn not_allocated_text(name: Seq<char>) -> Seq<char> {
    "Server "@ + name + " is not currently running or allocated."@
}

/// The log line for an exit event.
pub open spec fn exited_text(name: Seq<char>) -> Seq<char> {
    "Server "@ + name + " has Exited"@
}

/// The tick count after one more tick.
pub open spec fn next_tick(counter: int) -> int {
    if counter == i32::MAX {
        i32::MIN as int
    } else {
        counter + 1
    }
}

/// How many log lines fit into a panel of the given height: its frame
/// takes two.
pub open spec fn displayable_lines(panel_height: u16) -> nat {
    if panel_height >= 2 {
        (panel_height - 2) as nat
    } else {
        0
    }
}

/// The last `keep` lines of `logs`, or all of them where there are fewer.
pub open spec fn newest(logs: Seq<MessageView>, keep: nat) -> Seq<MessageView> {
    if logs.len() > keep {
        logs.skip(logs.len() - keep)
    } else {
        logs
    }
}

/// What the loop has to do after a launch was asked for.
#[derive(Debug, PartialEq, Eq)]
pub enum LaunchStep {
    /// No definition is selected.
    Unavailable,
    /// A run of the selected definition is registered already; nothing was
    /// done.
    AlreadyRunning,
    /// The launch failed and the failure was logged.
    Failed,
    /// A simulated run was registered; the simulated runner is to carry
    /// out the plan.
    Simulated(SimulationPlan),
    /// The command is to be spawned, and what came of it handed to
    /// `finish_launch`.
    Spawn(CommandSpec),
}

/// `app` after the launch of the run `handle` succeeded: the handle is the
/// registry's last entry, and the launch is logged.
pub open spec fn with_run(app: AppView, handle: HandleView) -> AppView {
    logged(
        AppView { allocated_servers: app.allocated_servers.push(handle), ..app },
        notice(launched_text(handle.name)),
    )
}

/// The process that a termination request for the selected definition has
/// to terminate: the one its registered run owns, if it owns one.
pub open spec fn spec_selected_process(app: AppView) -> Option<u32> {
    match spec_selected(app) {
        Some(server) => match lookup(app.allocated_servers, server.name) {
            Some(handle) => handle.child,
            None => None,
        },
        None => None,
    }
}

/// The index `delta` steps from `index` on a ring of `max_index + 1` places.
pub open spec fn spec_wrap_index(index: int, max_index: int, delta: int) -> int {
    (index + delta) % (max_index + 1)
}

/// Whether the selection can be moved by `delta`: there is a definition to
/// select, and the arithmetic stays within the machine's signed range.
pub open spec fn can_move(app: AppView, delta: int) -> bool {
    0 < app.available_servers.len() <= isize::MAX && app.selected_server <= isize::MAX
        && app.selected_server + delta <= isize::MAX
}

/// `app` with the selection moved by `delta` places around the list, or as
/// it is where the selection cannot be moved.
pub open spec fn moved(app: AppView, delta: int) -> AppView {
    if can_move(app, delta) {
        AppView {
            selected_server: spec_wrap_index(
                app.selected_server as int,
                app.available_servers.len() - 1,
                delta,
            ) as nat,
            ..app
        }
    } else {
        app
    }
}

/// Moves `index` by `delta` on a ring of `max_index + 1` places.
pub fn wrap_index(index: usize, max_index: usize, delta: isize) -> (wrapped: usize)
    requires
        max_index < isize::MAX,
        index <= isize::MAX,
        index + delta <= isize::MAX,
    ensures
        wrapped == spec_wrap_index(index as int, max_index as int, delta as int),
        wrapped <= max_index,
{
    let len = max_index + 1;
    let current_idx_signed = index as isize;
    let len_signed = len as isize;
    let new_idx_signed = current_idx_signed + delta;
    let result_signed = new_idx_signed.checked_rem_euclid(len_signed).unwrap();
    result_signed as usize
}

/// The definitions the loop offers when it is given none.
pub open spec fn sample_servers() -> Seq<ServerView> {
    seq![
        ServerView {
            id: 1,
            name: "Server 1"@,
            path: "/C"@,
            executable: "server.jar"@,
            test_server: true,
            display_color: DisplayColor::Rgb(30, 230, 180),
            ..Server::spec_default()
        },
        ServerView {
            id: 2,
            name: "Timer 1"@,
            path: "/Users/student/Projects/Server-Launcher/Server-Launcher/"@,
            executable: "python3"@,
            args: seq!["-u"@, "timer.py"@, "8"@],
            ..Server::spec_default()
        },
        ServerView {
            id: 3,
            name: "Ascii Image"@,
            path: "/Users/student/Projects/Server-Launcher/Server-Launcher/"@,
            executable: "python3"@,
            args: seq!["-u"@, "ascii_image.py"@],
            autostart: true,
            ..Server::spec_default()
        },
        ServerView {
            id: 6,
            name: "Minecraft Server"@,
            path: "/Users/student/Downloads/MinecraftServer"@,
            executable: "./start_Server.sh"@,
            ..Server::spec_default()
        },
    ]
}

/// Builds the definitions the loop offers when it is given none.
pub fn build_sample_servers() -> (servers: Vec<Server>)
    ensures
        server_views(servers@) == sample_servers(),
{
    let mut timer_args: Vec<String> = Vec::new();
    timer_args.push(String::from_str("-u"));
    timer_args.push(String::from_str("timer.py"));
    timer_args.push(String::from_str("8"));
    assert(crate::text::views(timer_args@) =~= seq!["-u"@, "timer.py"@, "8"@]);
    let mut image_args: Vec<String> = Vec::new();
    image_args.push(String::from_str("-u"));
    image_args.push(String::from_str("ascii_image.py"));
    assert(crate::text::views(image_args@) =~= seq!["-u"@, "ascii_image.py"@]);
    let mut servers: Vec<Server> = Vec::new();
    servers.push(
        Server::default().id(1).name("Server 1").path("/C").executable("server.jar").test_server(
            true,
        ).display_color(DisplayColor::Rgb(30, 230, 180)),
    );
    servers.push(
        Server::default().id(2).name("Timer 1").path(
            "/Users/student/Projects/Server-Launcher/Server-Launcher/",
        ).executable("python3").args(timer_args),
    );
    servers.push(
        Server::default().id(3).name("Ascii Image").path(
            "/Users/student/Projects/Server-Launcher/Server-Launcher/",
        ).executable("python3").args(image_args).autostart(true),
    );
    servers.push(
        Server::default().id(6).name("Minecraft Server").path(
            "/Users/student/Downloads/MinecraftServer",
        ).executable("./start_Server.sh"),
    );
    assert(server_views(servers@) =~= sample_servers());
    servers
}

impl App {
    /// The state the loop starts in when it is given no definitions: it
    /// offers the sample ones.
    pub fn new() -> (app: App)
        ensures
            app@ == (AppView {
                counter: 0,
                logs: seq![notice("Log Panel Initialized"@)],
                available_servers: sample_servers(),
                selected_server: 0,
                allocated_servers: Seq::empty(),
            }),
    {
        App::with_servers(build_sample_servers())
    }

    /// The state the loop starts in: the first definition selected, no run
    /// registered, one line in the log.
    pub fn with_servers(available_servers: Vec<Server>) -> (app: App)
        ensures
            app@ == (AppView {
                counter: 0,
                logs: seq![notice("Log Panel Initialized"@)],
                available_servers: server_views(available_servers@),
                selected_server: 0,
                allocated_servers: Seq::empty(),
            }),
    {
        let mut logs: VecDeque<ServerMessage> = VecDeque::new();
        logs.push_back(new_notice(String::from_str("Log Panel Initialized")));
        let app = App {
            counter: 0,
            logs,
            available_servers,
            selected_server: 0,
            allocated_servers: Registry::new(),
        };
        assert(app@.logs =~= seq![notice("Log Panel Initialized"@)]);
        app
    }

    /// The definition that is selected.
    pub fn selected(&self) -> (server: Option<&Server>)
        ensures
            match spec_selected(self@) {
                Some(view) => server is Some && server->Some_0@ == view,
                None => server is None,
            },
    {
        if self.selected_server < self.available_servers.len() {
            Some(&self.available_servers[self.selected_server])
        } else {
            None
        }
    }

    /// Appends a line to the log.
    pub fn log(&mut self, message: ServerMessage)
        ensures
            final(self)@ == logged(old(self)@, message@),
    {
        self.logs.push_back(message);
        assert(self@.logs =~= old(self)@.logs.push(message@));
    }

    /// Takes a message off the message channel into the log.
    pub fn receive_message(&mut self, message: ServerMessage)
        ensures
            final(self)@ == logged(old(self)@, message@),
    {
        self.log(message);
    }

    /// Consumes an event off the lifecycle channel: the exit is logged, and
    /// the run of that name, if one is registered, no longer runs. The
    /// registry takes an exit event for a name it does not hold as a no-op.
    pub fn receive_event(&mut self, event: ServerLifecycleEvent)
        ensures
            final(self)@ == logged(
                AppView {
                    allocated_servers: exit_entries(
                        old(self)@.allocated_servers,
                        event@->Exited_name,
                    ),
                    ..old(self)@
                },
                notice(exited_text(event@->Exited_name)),
            ),
            !has_name(old(self)@.allocated_servers, event@->Exited_name)
                ==> final(self)@.allocated_servers == old(self)@.allocated_servers,
            names_distinct(final(self)@.allocated_servers),
    {
        match event {
            ServerLifecycleEvent::Exited { name } => {
                self.log(new_notice(enclose("Server ", name.as_str(), " has Exited")));
                self.allocated_servers.mark_exited(name.as_str());
            },
        }
    }

    /// Empties the log.
    pub fn clear_logs(&mut self)
        ensures
            final(self)@ == (AppView { logs: Seq::empty(), ..old(self)@ }),
    {
        self.logs.clear();
        assert(self@.logs =~= Seq::<MessageView>::empty());
    }

    /// Logs that the pop-up was asked for.
    pub fn note_popup(&mut self)
        ensures
            final(self)@ == logged(old(self)@, notice("Pressed Space should open popup"@)),
    {
        self.log(new_notice(String::from_str("Pressed Space should open popup")));
    }

    /// Drops the oldest log lines until the log fits into a panel of the
    /// given height.
    pub fn trim_logs(&mut self, panel_height: u16)
        ensures
            final(self)@ == (AppView {
                logs: newest(old(self)@.logs, displayable_lines(panel_height)),
                ..old(self)@
            }),
    {
        let keep: usize = panel_height.saturating_sub(2) as usize;
        while self.logs.len() > keep
            invariant
                keep == displayable_lines(panel_height),
                self.logs@.len() <= old(self).logs@.len(),
                self.logs@.len() >= keep || self.logs@.len() == old(self).logs@.len(),
                self.logs@ == old(self).logs@.skip(old(self).logs@.len() - self.logs@.len()),
                self.counter == old(self).counter,
                self.available_servers == old(self).available_servers,
                self.selected_server == old(self).selected_server,
                self.allocated_servers == old(self).allocated_servers,
            decreases self.logs@.len(),
        {
            self.logs.pop_front();
        }
        assert(self@.logs =~= newest(old(self)@.logs, displayable_lines(panel_height)));
    }

    /// One tick: the counter advances, the reports of this tick's waits
    /// are reconciled into the registry, the notices this yields are
    /// logged, and the runs that have ended leave the registry. A run that
    /// [`survives_tick`] is still registered afterwards, unchanged.
    pub fn on_tick(&mut self, reports: &Vec<WaitReport>)
        ensures
            final(self)@ == (AppView {
                counter: next_tick(old(self)@.counter),
                logs: old(self)@.logs + reconcile_notices(old(self)@.allocated_servers, reports@),
                allocated_servers: tick_entries(old(self)@.allocated_servers, reports@),
                ..old(self)@
            }),
            names_distinct(final(self)@.allocated_servers),
            forall|i: int|
                0 <= i < old(self)@.allocated_servers.len() && survives_tick(
                    #[trigger] old(self)@.allocated_servers[i],
                    reports@,
                ) ==> final(self)@.allocated_servers.contains(old(self)@.allocated_servers[i]),
    {
        if self.counter == i32::MAX {
            self.counter = i32::MIN;
        } else {
            self.counter += 1;
        }
        let notices = self.allocated_servers.on_tick(reports);
        let ghost before = self.logs@;
        let ghost sent = notices@;
        for message in it: notices
            invariant
                it.seq() == sent,
                self.logs@ == before + sent.take(it.index()),
                self.counter == next_tick(old(self)@.counter),
                self.available_servers == old(self).available_servers,
                self.selected_server == old(self).selected_server,
                self.allocated_servers@ == tick_entries(old(self)@.allocated_servers, reports@),
        {
            self.logs.push_back(message);
            assert(sent.take(it.index() + 1) =~= sent.take(it.index()).push(message));
        }
        assert(sent.take(sent.len() as int) =~= sent);
        assert(message_views(before + sent) =~= message_views(before) + message_views(sent));
    }

    /// Decides what a request to launch the selected definition leads to.
    /// The registry is consulted first: while a run of that name is
    /// registered no second one is launched. A simulated run is registered
    /// at once; a real one only by `finish_launch`, once the command that
    /// is returned here has been spawned.
    pub fn launch_selected(&mut self, os: &str) -> (step: LaunchStep)
        ensures
            names_distinct(final(self)@.allocated_servers),
            match spec_selected(old(self)@) {
                None => step is Unavailable && final(self)@ == old(self)@,
                Some(server) => if has_name(old(self)@.allocated_servers, server.name) {
                    step is AlreadyRunning && final(self)@ == old(self)@
                } else if server.test_server {
                    step matches LaunchStep::Simulated(plan) && plan@ == default_simulation(
                        server.name,
                    ) && final(self)@ == with_run(old(self)@, started(server.name, None))
                } else {
                    match spec_platform(os@) {
                        Some(platform) => step matches LaunchStep::Spawn(command) && command@
                            == spec_command(server, platform) && final(self)@ == old(self)@,
                        None => step is Failed && final(self)@ == logged(
                            old(self)@,
                            notice(
                                launch_failed_text(server.name, ErrorView::UnsupportedPlatform),
                            ),
                        ),
                    }
                },
            },
    {
        if self.selected_server >= self.available_servers.len() {
            self.allocated_servers.one_handle_per_name();
            return LaunchStep::Unavailable;
        }
        let server = &self.available_servers[self.selected_server];
        if self.allocated_servers.contains_key(server.name.as_str()) {
            self.allocated_servers.one_handle_per_name();
            return LaunchStep::AlreadyRunning;
        }
        match launch(server, os) {
            Ok(LaunchPlan::Simulated { handle, plan }) => {
                let line = enclose("Server ", server.name.as_str(), " launched successfully.");
                self.allocated_servers.insert(handle);
                self.log(new_notice(line));
                LaunchStep::Simulated(plan)
            },
            Ok(LaunchPlan::Spawn { command }) => {
                self.allocated_servers.one_handle_per_name();
                LaunchStep::Spawn(command)
            },
            Err(error) => {
                let mut line = enclose("Failed to launch server ", server.name.as_str(), ": ");
                line.append(error.message().as_str());
                self.log(new_notice(line));
                self.allocated_servers.one_handle_per_name();
                LaunchStep::Failed
            },
        }
    }

    /// Completes the launch of the selected definition from what came of
    /// spawning its command. A run that started is registered and logged,
    /// and the two streams to capture are returned. A failure is logged
    /// and nothing is registered. Where a run of that name is registered
    /// by now, nothing is done: the registry is never made to hold a second
    /// handle of one name. Whenever `None` is returned the caller has to
    /// dispose of the process, if one was started.
    pub fn finish_launch(&mut self, spawned: SpawnOutcome) -> (captures: Option<
        (CaptureTask, CaptureTask),
    >)
        ensures
            names_distinct(final(self)@.allocated_servers),
            match spec_selected(old(self)@) {
                None => captures is None && final(self)@ == old(self)@,
                Some(server) => if has_name(old(self)@.allocated_servers, server.name) {
                    captures is None && final(self)@ == old(self)@
                } else {
                    match spawn_failure(server.name, spawned) {
                        Some(error) => captures is None && final(self)@ == logged(
                            old(self)@,
                            notice(launch_failed_text(server.name, error)),
                        ),
                        None => captures is Some && captures->Some_0.0@ == (CaptureView {
                            name: server.name,
                            is_stderr: false,
                        }) && captures->Some_0.1@ == (CaptureView {
                            name: server.name,
                            is_stderr: true,
                        }) && final(self)@ == with_run(
                            old(self)@,
                            started(server.name, Some(spawned->pid)),
                        ),
                    }
                },
            },
    {
        if self.selected_server >= self.available_servers.len() {
            self.allocated_servers.one_handle_per_name();
            return None;
        }
        let server = &self.available_servers[self.selected_server];
        if self.allocated_servers.contains_key(server.name.as_str()) {
            self.allocated_servers.one_handle_per_name();
            return None;
        }
        match finish_launch(server, spawned) {
            Ok(launched) => {
                let line = enclose("Server ", server.name.as_str(), " launched successfully.");
                self.allocated_servers.insert(launched.handle);
                self.log(new_notice(line));
                Some((launched.stdout, launched.stderr))
            },
            Err(error) => {
                let mut line = enclose("Failed to launch server ", server.name.as_str(), ": ");
                line.append(error.message().as_str());
                self.log(new_notice(line));
                self.allocated_servers.one_handle_per_name();
                None
            },
        }
    }

    /// The process that a termination request for the selected definition
    /// has to terminate.
    pub fn selected_process(&self) -> (process: Option<u32>)
        ensures
            process == spec_selected_process(self@),
    {
        match self.selected() {
            Some(server) => match self.allocated_servers.get(server.name.as_str()) {
                Some(handle) => handle.child,
                None => None,
            },
            None => None,
        }
    }

    /// Ends the run of the selected definition on the operator's demand
    /// and logs what came of it. `termination` is what the operating system
    /// answered to the request to terminate the process named by
    /// `selected_process`; it is consulted only where there is one.
    pub fn kill_selected(
        &mut self,
        termination: Result<(), String>,
        events: &mut Vec<ServerLifecycleEvent>,
    )
        ensures
            names_distinct(final(self)@.allocated_servers),
            match spec_selected(old(self)@) {
                None => final(self)@ == old(self)@ && *final(events) == *old(events),
                Some(server) => match lookup(old(self)@.allocated_servers, server.name) {
                    None => final(self)@ == logged(
                        old(self)@,
                        notice(not_allocated_text(server.name)),
                    ) && *final(events) == *old(events),
                    Some(handle) => if kill_succeeds(handle, termination) {
                        final(self)@ == logged(
                            AppView {
                                allocated_servers: exit_entries(
                                    old(self)@.allocated_servers,
                                    server.name,
                                ),
                                ..old(self)@
                            },
                            notice(kill_requested_text(server.name)),
                        ) && emitted(
                            old(events)@,
                            final(events)@,
                            EventView::Exited { name: server.name },
                        )
                    } else {
                        final(self)@ == logged(
                            old(self)@,
                            notice(
                                kill_failed_text(
                                    server.name,
                                    ErrorView::KillFailed {
                                        name: server.name,
                                        cause: termination->Err_0@,
                                    },
                                ),
                            ),
                        ) && *final(events) == *old(events)
                    },
                },
            },
    {
        if self.selected_server >= self.available_servers.len() {
            self.allocated_servers.one_handle_per_name();
            return;
        }
        let server = &self.available_servers[self.selected_server];
        let line = match self.allocated_servers.kill_process(
            server.name.as_str(),
            termination,
            events,
        ) {
            Some(Ok(())) => enclose(
                "Attempting to kill server: ",
                server.name.as_str(),
                ". It will be removed from the list if successful.",
            ),
            Some(Err(error)) => {
                let mut line = enclose("Failed to kill server ", server.name.as_str(), ": ");
                line.append(error.message().as_str());
                line
            },
            None => enclose(
                "Server ",
                server.name.as_str(),
                " is not currently running or allocated.",
            ),
        };
        self.log(new_notice(line));
    }

    /// Moves the selection by `delta` places, around the ends of the list.
    /// Where there is nothing to select the selection stays.
    pub fn move_selection(&mut self, delta: isize)
        ensures
            final(self)@ == moved(old(self)@, delta as int),
    {
        let count = self.available_servers.len();
        if count == 0 || count > isize::MAX as usize {
            return;
        }
        let fits = if delta >= 0 {
            self.selected_server <= isize::MAX as usize && self.selected_server
                <= (isize::MAX - delta) as usize
        } else {
            self.selected_server <= isize::MAX as usize
        };
        if fits {
            self.selected_server = wrap_index(self.selected_server, count - 1, delta);
        }
    }

    /// Selects the next definition.
    pub fn select_next(&mut self)
        ensures
            final(self)@ == moved(old(self)@, 1),
    {
        self.move_selection(1);
    }

    /// Selects the previous definition.
    pub fn select_previous(&mut self)
        ensures
            final(self)@ == moved(old(self)@, -1),
    {
        self.move_selection(-1);
    }
}

} // verus!
