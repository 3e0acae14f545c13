//! Process supervisor: the handle of one supervised run, how it is
//! launched, terminated and reconciled, and the messages and lifecycle
//! events that report on it.

use vstd::prelude::*;
use crate::command::{build_command, spec_command, spec_platform, CommandSpec};
use crate::db::Server;
use crate::error::{ErrorView, SupervisorError};

verus! {

/// Where a message comes from.
#[derive(Clone, Copy, Debug, PartialEq, Eq, Structural)]
pub enum MessageChannel {
    /// A line the process wrote to its standard output.
    Stdout,
    /// A line the process wrote to its standard error.
    Stderr,
    /// No stream: a notice written by the supervisor itself.
    Notice,
}

/// One line of captured output, or a notice.
#[derive(Debug, PartialEq, Eq)]
pub struct ServerMessage {
    /// The run the message is about; empty for notices of the control loop.
    pub name: String,
    pub contents: String,
    pub channel: MessageChannel,
}

/// What a [`ServerMessage`] holds, as mathematical values.
pub struct MessageView {
    pub name: Seq<char>,
    pub contents: Seq<char>,
    pub channel: MessageChannel,
}

impl View for ServerMessage {
    type V = MessageView;

    open spec fn view(&self) -> MessageView {
        MessageView { name: self.name@, contents: self.contents@, channel: self.channel }
    }
}

impl Clone for ServerMessage {
    fn clone(&self) -> (copy: Self)
        ensures
            copy@ == self@,
    {
        ServerMessage {
            name: self.name.clone(),
            contents: self.contents.clone(),
            channel: self.channel,
        }
    }
}

/// What happens to a supervised run.
#[derive(Debug, PartialEq, Eq)]
pub enum ServerLifecycleEvent {
    /// The run has ended. It may be reported more than once for one run.
    Exited { name: String },
}

/// What a [`ServerLifecycleEvent`] holds, as mathematical values.
pub enum EventView {
    Exited { name: Seq<char> },
}

impl View for ServerLifecycleEvent {
    type V = EventView;

    open spec fn view(&self) -> EventView {
        match self {
            ServerLifecycleEvent::Exited { name } => EventView::Exited { name: name@ },
        }
    }
}

impl Clone for ServerLifecycleEvent {
    fn clone(&self) -> (copy: Self)
        ensures
            copy@ == self@,
    {
        match self {
            ServerLifecycleEvent::Exited { name } => ServerLifecycleEvent::Exited {
                name: name.clone(),
            },
        }
    }
}

/// The sequence of views of a sequence of messages.
pub open spec fn message_views(messages: Seq<ServerMessage>) -> Seq<MessageView> {
    messages.map_values(|m: ServerMessage| m@)
}

/// The lifecycle sink `after` holds what `before` held, and `event` behind
/// it.
pub open spec fn emitted(
    before: Seq<ServerLifecycleEvent>,
    after: Seq<ServerLifecycleEvent>,
    event: EventView,
) -> bool {
    after.len() == before.len() + 1 && after.drop_last() == before && after.last()@ == event
}

/// One thing a background task sends: a message into the message sink, or
/// an event into the lifecycle sink.
#[derive(Debug, PartialEq, Eq)]
pub enum Emission {
    Message(ServerMessage),
    Lifecycle(ServerLifecycleEvent),
}

/// What an [`Emission`] holds, as mathematical values.
pub enum EmissionView {
    Message(MessageView),
    Lifecycle(EventView),
}

impl View for Emission {
    type V = EmissionView;

    open spec fn view(&self) -> EmissionView {
        match self {
            Emission::Message(message) => EmissionView::Message(message@),
            Emission::Lifecycle(event) => EmissionView::Lifecycle(event@),
        }
    }
}

/// The sequence of views of a sequence of emissions.
pub open spec fn emission_views(emissions: Seq<Emission>) -> Seq<EmissionView> {
    emissions.map_values(|e: Emission| e@)
}

/// The event with which every background task of the run `name` ends.
pub open spec fn exit_emission(name: Seq<char>) -> EmissionView {
    EmissionView::Lifecycle(EventView::Exited { name })
}

/// What a non-blocking wait on a process found.
#[derive(Debug, PartialEq, Eq)]
pub enum WaitOutcome {
    /// The process has exited.
    Exited,
    /// The process is still running.
    StillRunning,
    /// The wait itself failed, for the reason given.
    Failed(String),
}

/// What a [`WaitOutcome`] holds, as mathematical values.
pub enum WaitView {
    Exited,
    StillRunning,
    Failed(Seq<char>),
}

impl View for WaitOutcome {
    type V = WaitView;

    open spec fn view(&self) -> WaitView {
        match self {
            WaitOutcome::Exited => WaitView::Exited,
            WaitOutcome::StillRunning => WaitView::StillRunning,
            WaitOutcome::Failed(cause) => WaitView::Failed(cause@),
        }
    }
}

/// The record of one supervised run.
#[derive(Debug, PartialEq, Eq)]
pub struct ServerHandle {
    /// Identifier of the operating-system process; `None` for a simulated
    /// run.
    pub child: Option<u32>,
    pub name: String,
    pub running: bool,
}

/// What a [`ServerHandle`] holds, as mathematical values.
pub struct HandleView {
    pub child: Option<u32>,
    pub name: Seq<char>,
    pub running: bool,
}

impl View for ServerHandle {
    type V = HandleView;

    open spec fn view(&self) -> HandleView {
        HandleView { child: self.child, name: self.name@, running: self.running }
    }
}

/// The handle of a run that has just started.
pub open spec fn started(name: Seq<char>, child: Option<u32>) -> HandleView {
    HandleView { child, name, running: true }
}

/// `handle` once its run has ended.
pub open spec fn stopped(handle: HandleView) -> HandleView {
    HandleView { running: false, ..handle }
}

/// Whether a termination request for `handle` that ended as `termination`
/// counts as done: always for a simulated run, and for a process when the
/// operating system accepted the request.
pub open spec fn kill_succeeds(handle: HandleView, termination: Result<(), String>) -> bool {
    handle.child is None || termination is Ok
}

/// Whether reconciliation waits on the process of `handle`: only running
/// handles that own a process are polled.
pub open spec fn polled(handle: HandleView) -> bool {
    handle.running && handle.child is Some
}

/// `handle` after a wait on its process found `outcome`.
pub open spec fn reconciled(handle: HandleView, outcome: WaitView) -> HandleView {
    if polled(handle) && !(outcome is StillRunning) {
        stopped(handle)
    } else {
        handle
    }
}

/// A notice of the control loop.
pub open spec fn notice(contents: Seq<char>) -> MessageView {
    MessageView { name: Seq::empty(), contents, channel: MessageChannel::Notice }
}

/// The notice that reports what a wait on the process of `handle` found,
/// if it found the run ended.
pub open spec fn reconcile_notice(handle: HandleView, outcome: WaitView) -> Option<MessageView> {
    if !polled(handle) {
        None
    } else {
        match outcome {
            WaitView::Exited => Some(notice("Server "@ + handle.name + " process has exited."@)),
            WaitView::StillRunning => None,
            WaitView::Failed(cause) => Some(
                notice(
                    "Error checking status for server "@ + handle.name + ": "@ + cause
                        + ". Marking as not running."@,
                ),
            ),
        }
    }
}

/// Builds a notice of the control loop.
pub fn new_notice(contents: String) -> (message: ServerMessage)
    ensures
        message@ == notice(contents@),
{
    ServerMessage { name: String::new(), contents, channel: MessageChannel::Notice }
}

impl ServerHandle {
    /// Ends the run on the operator's demand. `termination` is what the
    /// operating system answered to the request to terminate the process;
    /// it is consulted only where the handle owns one.
    ///
    /// Where the request counts as done the handle stops running and one
    /// `Exited` event goes into `events`. Where it failed, handle and sink
    /// stay as they were and the failure is returned.
    pub fn kill_process(
        &mut self,
        termination: Result<(), String>,
        events: &mut Vec<ServerLifecycleEvent>,
    ) -> (killed: Result<(), SupervisorError>)
        ensures
            killed is Ok <==> kill_succeeds(old(self)@, termination),
            killed is Ok ==> final(self)@ == stopped(old(self)@) && emitted(
                old(events)@,
                final(events)@,
                EventView::Exited { name: old(self)@.name },
            ),
            killed is Err ==> *final(self) == *old(self) && *final(events) == *old(events)
                && killed->Err_0@ == (ErrorView::KillFailed {
                name: old(self)@.name,
                cause: termination->Err_0@,
            }),
    {
        if self.child.is_some() {
            if let Err(cause) = termination {
                return Err(SupervisorError::KillFailed { name: self.name.clone(), cause });
            }
        }
        self.running = false;
        events.push(ServerLifecycleEvent::Exited { name: self.name.clone() });
        assert(events@.drop_last() =~= old(events)@);
        Ok(())
    }

    /// Whether reconciliation has to wait on this handle's process.
    pub fn needs_poll(&self) -> (needed: bool)
        ensures
            needed == polled(self@),
    {
        self.running && self.child.is_some()
    }

    /// Takes in what a non-blocking wait on the handle's process found. A
    /// process that has exited, and a wait that failed, both end the run
    /// and yield a notice; a handle that is not polled stays as it is.
    pub fn reconcile(&mut self, outcome: &WaitOutcome) -> (report: Option<ServerMessage>)
        ensures
            final(self)@ == reconciled(old(self)@, outcome@),
            match reconcile_notice(old(self)@, outcome@) {
                Some(message) => report is Some && report->Some_0@ == message,
                None => report is None,
            },
    {
        if !self.needs_poll() {
            return None;
        }
        match outcome {
            WaitOutcome::Exited => {
                let mut contents = String::from_str("Server ");
                contents.append(self.name.as_str());
                contents.append(" process has exited.");
                self.running = false;
                Some(new_notice(contents))
            },
            WaitOutcome::StillRunning => None,
            WaitOutcome::Failed(cause) => {
                let mut contents = String::from_str("Error checking status for server ");
                contents.append(self.name.as_str());
                contents.append(": ");
                contents.append(cause.as_str());
                contents.append(". Marking as not running.");
                self.running = false;
                Some(new_notice(contents))
            },
        }
    }
}

/// A handle never starts to run again, and nothing that happens to it
/// changes its name or the process it owns: a kill, an exit event and a
/// wait can only end the run.
pub proof fn lemma_handle_only_stops(handle: HandleView, outcome: WaitView)
    ensures
        !stopped(handle).running,
        stopped(handle).name == handle.name && stopped(handle).child == handle.child,
        reconciled(handle, outcome).running ==> handle.running,
        reconciled(handle, outcome).name == handle.name && reconciled(handle, outcome).child
            == handle.child,
        !handle.running ==> reconciled(handle, outcome) == handle && stopped(handle) == handle,
{
}

/// How many notices a simulated run sends unless its plan is changed.
pub const DUMMY_NOTICES: u32 = 15;

/// The pause after each notice of a simulated run, in milliseconds, unless
/// its plan is changed.
pub const DUMMY_INTERVAL_MILLIS: u64 = 1000;

/// What the simulated runner is to do for one run: `notices` notices under
/// `name`, a pause of `interval_millis` after each, then the exit event.
#[derive(Debug, PartialEq, Eq)]
pub struct SimulationPlan {
    pub name: String,
    pub notices: u32,
    pub interval_millis: u64,
}

/// What a [`SimulationPlan`] holds, as mathematical values.
pub struct SimulationView {
    pub name: Seq<char>,
    pub notices: nat,
    pub interval_millis: nat,
}

impl View for SimulationPlan {
    type V = SimulationView;

    open spec fn view(&self) -> SimulationView {
        SimulationView {
            name: self.name@,
            notices: self.notices as nat,
            interval_millis: self.interval_millis as nat,
        }
    }
}

/// The plan a simulated run of the definition called `name` starts with.
pub open spec fn default_simulation(name: Seq<char>) -> SimulationView {
    SimulationView {
        name,
        notices: DUMMY_NOTICES as nat,
        interval_millis: DUMMY_INTERVAL_MILLIS as nat,
    }
}

/// One output stream of one run that is to be captured.
#[derive(Debug, PartialEq, Eq)]
pub struct CaptureTask {
    pub name: String,
    pub is_stderr: bool,
}

/// What a [`CaptureTask`] holds, as mathematical values.
pub struct CaptureView {
    pub name: Seq<char>,
    pub is_stderr: bool,
}

impl View for CaptureTask {
    type V = CaptureView;

    open spec fn view(&self) -> CaptureView {
        CaptureView { name: self.name@, is_stderr: self.is_stderr }
    }
}

/// What `launch` decided: the mode of the run is chosen here, once.
#[derive(Debug, PartialEq, Eq)]
pub enum LaunchPlan {
    /// A simulated run: its handle exists already, and the simulated
    /// runner is to carry out `plan` in the background.
    Simulated { handle: ServerHandle, plan: SimulationPlan },
    /// A real run: `command` is to be spawned, and what came of it handed
    /// to `finish_launch`.
    Spawn { command: CommandSpec },
}

/// What came of spawning a command.
#[derive(Debug, PartialEq, Eq)]
pub enum SpawnOutcome {
    /// The process runs under `pid`; the flags say which of its output
    /// pipes could be taken.
    Spawned { pid: u32, stdout_piped: bool, stderr_piped: bool },
    /// The operating system refused, for the reason given.
    Failed { cause: String },
}

/// A real run that has started: its handle, and the two streams to capture.
#[derive(Debug, PartialEq, Eq)]
pub struct Launched {
    pub handle: ServerHandle,
    pub stdout: CaptureTask,
    pub stderr: CaptureTask,
}

/// Starts a simulated run of `server`: no process is created, the handle
/// runs at once, and the plan says what the runner will send.
pub fn dummy_launch(server: &Server) -> (run: (ServerHandle, SimulationPlan))
    ensures
        run.0@ == started(server@.name, None),
        run.1@ == default_simulation(server@.name),
{
    let handle = ServerHandle { child: None, name: server.name.clone(), running: true };
    let plan = SimulationPlan {
        name: server.name.clone(),
        notices: DUMMY_NOTICES,
        interval_millis: DUMMY_INTERVAL_MILLIS,
    };
    (handle, plan)
}

/// Decides how `server` is started on the host whose platform identifier
/// is `os`. A definition marked for simulation goes to the simulated
/// runner whatever the platform; any other gets the command to spawn, or
/// `UnsupportedPlatform` where the host has no known shell dialect.
pub fn launch(server: &Server, os: &str) -> (plan: Result<LaunchPlan, SupervisorError>)
    ensures
        server@.test_server ==> (plan matches Ok(LaunchPlan::Simulated { handle, plan: script })
            && handle@ == started(server@.name, None) && script@ == default_simulation(
            server@.name,
        )),
        !server@.test_server ==> match spec_platform(os@) {
            Some(platform) => (plan matches Ok(LaunchPlan::Spawn { command }) && command@
                == spec_command(server@, platform)),
            None => (plan matches Err(error) && error@ == ErrorView::UnsupportedPlatform),
        },
{
    if server.test_server {
        let (handle, plan) = dummy_launch(server);
        return Ok(LaunchPlan::Simulated { handle, plan });
    }
    match build_command(server, os) {
        Ok(command) => Ok(LaunchPlan::Spawn { command }),
        Err(error) => Err(error),
    }
}

/// What `finish_launch` makes of a spawn: the failure, if it is one.
pub open spec fn spawn_failure(name: Seq<char>, spawned: SpawnOutcome) -> Option<ErrorView> {
    match spawned {
        SpawnOutcome::Failed { cause } => Some(ErrorView::SpawnFailed { name, cause: cause@ }),
        SpawnOutcome::Spawned { pid, stdout_piped, stderr_piped } => if !stdout_piped {
            Some(ErrorView::StreamCaptureUnavailable { is_stderr: false })
        } else if !stderr_piped {
            Some(ErrorView::StreamCaptureUnavailable { is_stderr: true })
        } else {
            None
        },
    }
}

/// Completes the launch of a real run from what came of spawning its
/// command. A refused spawn is `SpawnFailed`; a process without both of
/// its output pipes is `StreamCaptureUnavailable`, standard output looked
/// at first, and the caller has to dispose of the child. Otherwise the
/// handle owns the process and runs, and both streams are to be captured
/// under the definition's name.
pub fn finish_launch(server: &Server, spawned: SpawnOutcome) -> (launched: Result<
    Launched,
    SupervisorError,
>)
    ensures
        match spawn_failure(server@.name, spawned) {
            Some(error) => launched is Err && launched->Err_0@ == error,
            None => launched is Ok && launched->Ok_0.handle@ == started(
                server@.name,
                Some(spawned->pid),
            ) && launched->Ok_0.stdout@ == (CaptureView { name: server@.name, is_stderr: false })
                && launched->Ok_0.stderr@ == (CaptureView {
                name: server@.name,
                is_stderr: true,
            }),
        },
{
    match spawned {
        SpawnOutcome::Failed { cause } => Err(
            SupervisorError::SpawnFailed { name: server.name.clone(), cause },
        ),
        SpawnOutcome::Spawned { pid, stdout_piped, stderr_piped } => {
            if !stdout_piped {
                Err(SupervisorError::StreamCaptureUnavailable { is_stderr: false })
            } else if !stderr_piped {
                Err(SupervisorError::StreamCaptureUnavailable { is_stderr: true })
            } else {
                Ok(
                    Launched {
                        handle: ServerHandle {
                            child: Some(pid),
                            name: server.name.clone(),
                            running: true,
                        },
                        stdout: CaptureTask { name: server.name.clone(), is_stderr: false },
                        stderr: CaptureTask { name: server.name.clone(), is_stderr: true },
                    },
                )
            }
        },
    }
}

} // verus!
