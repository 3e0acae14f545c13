//! Registry: the handles of the runs that are alive, keyed by name.

use vstd::prelude::*;
use crate::error::{ErrorView, SupervisorError};
use crate::servers::{
    emitted, kill_succeeds, message_views, polled, reconcile_notice, reconciled, stopped,
    EventView, HandleView, MessageView, ServerHandle, ServerLifecycleEvent, ServerMessage,
    WaitOutcome, WaitView,
};

verus! {

/// The sequence of views of a sequence of handles.
pub open spec fn handle_views(handles: Seq<ServerHandle>) -> Seq<HandleView> {
    handles.map_values(|h: ServerHandle| h@)
}

/// No two entries have the same name.
pub open spec fn names_distinct(entries: Seq<HandleView>) -> bool {
    forall|i: int, j: int|
        0 <= i < j < entries.len() ==> (#[trigger] entries[i]).name != (#[trigger] entries[j]).name
}

/// Whether an entry is kept under `name`.
pub open spec fn has_name(entries: Seq<HandleView>, name: Seq<char>) -> bool {
    exists|i: int| 0 <= i < entries.len() && (#[trigger] entries[i]).name == name
}

/// Where the entry kept under `name` stands.
pub open spec fn position(entries: Seq<HandleView>, name: Seq<char>) -> int {
    choose|i: int| 0 <= i < entries.len() && (#[trigger] entries[i]).name == name
}

/// The entry kept under `name`, if there is one.
pub open spec fn lookup(entries: Seq<HandleView>, name: Seq<char>) -> Option<HandleView> {
    if has_name(entries, name) {
        Some(entries[position(entries, name)])
    } else {
        None
    }
}

/// What a non-blocking wait on the process of the run `name` found.
#[derive(Debug, PartialEq, Eq)]
pub struct WaitReport {
    pub name: String,
    pub outcome: WaitOutcome,
}

/// What the reports say of the run `name`: the outcome of the first report
/// that bears the name, and `StillRunning` where none does.
pub open spec fn outcome_for(reports: Seq<WaitReport>, name: Seq<char>) -> WaitView
    decreases reports.len(),
{
    if reports.len() == 0 {
        WaitView::StillRunning
    } else if reports[0].name@ == name {
        reports[0].outcome@
    } else {
        outcome_for(reports.drop_first(), name)
    }
}

/// `entries` after an exit event for `name` was consumed: the entry under
/// that name, if there is one, no longer runs.
pub open spec fn exit_entries(entries: Seq<HandleView>, name: Seq<char>) -> Seq<HandleView> {
    Seq::new(
        entries.len(),
        |i: int|
            if entries[i].name == name {
                stopped(entries[i])
            } else {
                entries[i]
            },
    )
}

/// `entries` after each took in what the reports say of it.
pub open spec fn reconcile_entries(entries: Seq<HandleView>, reports: Seq<WaitReport>) -> Seq<
    HandleView,
> {
    Seq::new(
        entries.len(),
        |i: int| reconciled(entries[i], outcome_for(reports, entries[i].name)),
    )
}

/// The notice, if any, that reconciling one entry yields.
pub open spec fn notice_under(reports: Seq<WaitReport>) -> spec_fn(HandleView) -> Option<
    MessageView,
> {
    |handle: HandleView| reconcile_notice(handle, outcome_for(reports, handle.name))
}

/// The notices that reconciling `entries` yields, in the entries' order.
pub open spec fn reconcile_notices(entries: Seq<HandleView>, reports: Seq<WaitReport>) -> Seq<
    MessageView,
> {
    entries.filter_map(notice_under(reports))
}

/// Whether a handle still runs.
pub open spec fn still_running() -> spec_fn(HandleView) -> bool {
    |handle: HandleView| handle.running
}

/// Whether reconciliation waits on a handle's process.
pub open spec fn is_polled() -> spec_fn(HandleView) -> bool {
    |handle: HandleView| polled(handle)
}

/// The names of the entries whose processes reconciliation waits on, in
/// the entries' order.
pub open spec fn polled_names(entries: Seq<HandleView>) -> Seq<Seq<char>> {
    entries.filter(is_polled()).map_values(|handle: HandleView| handle.name)
}

proof fn lemma_polled_names_push(entries: Seq<HandleView>, handle: HandleView)
    ensures
        polled_names(entries.push(handle)) == if polled(handle) {
            polled_names(entries).push(handle.name)
        } else {
            polled_names(entries)
        },
{
    entries.lemma_filter_push(handle, is_polled());
    if polled(handle) {
        assert(polled_names(entries.push(handle)) =~= polled_names(entries).push(handle.name));
    }
}

/// The entries that still run, in their order.
pub open spec fn running_entries(entries: Seq<HandleView>) -> Seq<HandleView> {
    entries.filter(still_running())
}

/// `entries` after one tick of the control loop: reconciled against the
/// reports, then without those that no longer run.
pub open spec fn tick_entries(entries: Seq<HandleView>, reports: Seq<WaitReport>) -> Seq<
    HandleView,
> {
    running_entries(reconcile_entries(entries, reports))
}

/// An entry survives a tick unchanged when it runs and either owns no
/// process or its process was not found ended.
pub open spec fn survives_tick(handle: HandleView, reports: Seq<WaitReport>) -> bool {
    handle.running && (handle.child is None || outcome_for(reports, handle.name)
        is StillRunning)
}

/// `entries` after `handle` was registered: it takes the place of the
/// entry of its name, or comes last where there was none.
pub open spec fn insert_entry(entries: Seq<HandleView>, handle: HandleView) -> Seq<HandleView> {
    if has_name(entries, handle.name) {
        entries.update(position(entries, handle.name), handle)
    } else {
        entries.push(handle)
    }
}

/// The handles of the runs that are alive, at most one under each name,
/// in the order in which their names were first inserted.
#[derive(Debug)]
pub struct Registry {
    handles: Vec<ServerHandle>,
}

impl View for Registry {
    type V = Seq<HandleView>;

    closed spec fn view(&self) -> Seq<HandleView> {
        handle_views(self.handles@)
    }
}

impl Registry {
    #[verifier::type_invariant]
    spec fn names_are_keys(&self) -> bool {
        names_distinct(handle_views(self.handles@))
    }

    /// A registry without entries.
    pub fn new() -> (registry: Registry)
        ensures
            registry@ == Seq::<HandleView>::empty(),
    {
        let registry = Registry { handles: Vec::new() };
        assert(registry@ =~= Seq::<HandleView>::empty());
        registry
    }

    /// The registry holds at most one handle under each name, in every
    /// state it can be in. The call computes nothing; it tells a verified
    /// caller what the type guarantees.
    pub fn one_handle_per_name(&self)
        ensures
            names_distinct(self@),
    {
        proof {
            use_type_invariant(self);
        }
    }

    /// How many runs are registered.
    pub fn len(&self) -> (count: usize)
        ensures
            count == self@.len(),
    {
        self.handles.len()
    }

    /// Moves the handles out and leaves the registry empty, so that they
    /// can be changed in one piece.
    fn take_handles(&mut self) -> (handles: Vec<ServerHandle>)
        ensures
            handles == old(self).handles,
            final(self).handles@ == Seq::<ServerHandle>::empty(),
            names_distinct(handle_views(handles@)),
    {
        proof {
            use_type_invariant(&*self);
        }
        let mut handles: Vec<ServerHandle> = Vec::new();
        core::mem::swap(&mut self.handles, &mut handles);
        handles
    }

    /// Where the handle under `name` stands.
    fn find(&self, name: &String) -> (found: Option<usize>)
        ensures
            names_distinct(self@),
            match found {
                Some(i) => i < self@.len() && self@[i as int].name == name@ && has_name(
                    self@,
                    name@,
                ) && position(self@, name@) == i,
                None => !has_name(self@, name@),
            },
    {
        proof {
            use_type_invariant(self);
        }
        let mut i: usize = 0;
        while i < self.handles.len()
            invariant
                i <= self.handles.len(),
                names_distinct(self@),
                forall|k: int| 0 <= k < i ==> (#[trigger] self@[k]).name != name@,
            decreases self.handles.len() - i,
        {
            if self.handles[i].name == *name {
                assert(self@[i as int].name == name@);
                assert(self@[position(self@, name@)].name == name@);
                return Some(i);
            }
            i += 1;
        }
        None
    }

    /// Whether a run is registered under `name`.
    pub fn contains_key(&self, name: &str) -> (present: bool)
        ensures
            present == has_name(self@, name@),
    {
        let key = String::from_str(name);
        self.find(&key).is_some()
    }

    /// The handle registered under `name`.
    pub fn get(&self, name: &str) -> (found: Option<&ServerHandle>)
        ensures
            match lookup(self@, name@) {
                Some(handle) => found is Some && found->Some_0@ == handle,
                None => found is None,
            },
    {
        let key = String::from_str(name);
        match self.find(&key) {
            Some(i) => Some(&self.handles[i]),
            None => None,
        }
    }

    /// Registers `handle` under its name. A handle that was registered
    /// under that name gives way and is returned: the registry never holds
    /// two handles of one name.
    pub fn insert(&mut self, handle: ServerHandle) -> (displaced: Option<ServerHandle>)
        ensures
            names_distinct(final(self)@),
            final(self)@ == insert_entry(old(self)@, handle@),
            match lookup(old(self)@, handle@.name) {
                Some(previous) => displaced is Some && displaced->Some_0@ == previous,
                None => displaced is None,
            },
    {
        let found = self.find(&handle.name);
        let mut handles = self.take_handles();
        match found {
            Some(i) => {
                let mut incoming = handle;
                core::mem::swap(&mut handles[i], &mut incoming);
                assert(handle_views(handles@) =~= old(self)@.update(i as int, handle@));
                self.handles = handles;
                Some(incoming)
            },
            None => {
                handles.push(handle);
                assert(handle_views(handles@) =~= old(self)@.push(handle@));
                self.handles = handles;
                None
            },
        }
    }

    /// Consumes an exit event for `name`: the handle under that name, if
    /// there is one, no longer runs. For a name that is not registered
    /// nothing changes, so a second event for a run that is gone is a
    /// no-op. Returns whether a handle was registered under the name.
    pub fn mark_exited(&mut self, name: &str) -> (present: bool)
        ensures
            present == has_name(old(self)@, name@),
            final(self)@ == exit_entries(old(self)@, name@),
            !present ==> final(self)@ == old(self)@,
            names_distinct(final(self)@),
    {
        let key = String::from_str(name);
        let found = self.find(&key);
        let mut handles = self.take_handles();
        let present = match found {
            Some(i) => {
                handles[i].running = false;
                true
            },
            None => false,
        };
        assert(handle_views(handles@) =~= exit_entries(old(self)@, name@));
        self.handles = handles;
        present
    }

    /// Ends the run registered under `name` on the operator's demand, as
    /// [`ServerHandle::kill_process`] does; `None` where no run is
    /// registered under the name, and then nothing changes.
    pub fn kill_process(
        &mut self,
        name: &str,
        termination: Result<(), String>,
        events: &mut Vec<ServerLifecycleEvent>,
    ) -> (killed: Option<Result<(), SupervisorError>>)
        ensures
            names_distinct(final(self)@),
            killed is Some <==> has_name(old(self)@, name@),
            killed matches Some(Ok(_)) <==> (lookup(old(self)@, name@) matches Some(handle)
                && kill_succeeds(handle, termination)),
            killed matches Some(Ok(_)) ==> final(self)@ == exit_entries(old(self)@, name@)
                && emitted(old(events)@, final(events)@, EventView::Exited { name: name@ }),
            killed matches Some(Err(error)) ==> error@ == (ErrorView::KillFailed {
                name: name@,
                cause: termination->Err_0@,
            }),
            !(killed matches Some(Ok(_))) ==> final(self)@ == old(self)@ && *final(events) == *old(
                events,
            ),
    {
        let key = String::from_str(name);
        let found = self.find(&key);
        match found {
            Some(i) => {
                let mut handles = self.take_handles();
                let killed = handles[i].kill_process(termination, events);
                proof {
                    if killed is Ok {
                        assert(handle_views(handles@) =~= exit_entries(old(self)@, name@));
                    } else {
                        assert(handle_views(handles@) =~= old(self)@);
                    }
                }
                self.handles = handles;
                Some(killed)
            },
            None => None,
        }
    }

    /// The names of the runs whose processes reconciliation has to wait
    /// on, in the registry's order.
    pub fn poll_targets(&self) -> (names: Vec<String>)
        ensures
            crate::text::views(names@) == polled_names(self@),
    {
        let mut names: Vec<String> = Vec::new();
        let mut i: usize = 0;
        proof {
            reveal(Seq::filter);
            assert(crate::text::views(names@) =~= polled_names(self@.take(0)));
        }
        while i < self.handles.len()
            invariant
                i <= self.handles.len(),
                crate::text::views(names@) == polled_names(self@.take(i as int)),
            decreases self.handles.len() - i,
        {
            proof {
                assert(self@.take(i + 1) =~= self@.take(i as int).push(self@[i as int]));
                lemma_polled_names_push(self@.take(i as int), self@[i as int]);
            }
            if self.handles[i].needs_poll() {
                names.push(self.handles[i].name.clone());
                assert(crate::text::views(names@) =~= polled_names(self@.take(i + 1)));
            }
            i += 1;
        }
        proof {
            assert(self@.take(self@.len() as int) =~= self@);
        }
        names
    }

    /// Takes in what the waits of this tick found: every handle is
    /// reconciled against what the reports say of its name, and the notices
    /// this yields are returned in the registry's order. No handle is
    /// removed here.
    pub fn reconcile(&mut self, reports: &Vec<WaitReport>) -> (notices: Vec<ServerMessage>)
        ensures
            final(self)@ == reconcile_entries(old(self)@, reports@),
            message_views(notices@) == reconcile_notices(old(self)@, reports@),
            names_distinct(final(self)@),
    {
        let mut handles = self.take_handles();
        let mut notices: Vec<ServerMessage> = Vec::new();
        let mut i: usize = 0;
        proof {
            assert(message_views(notices@) =~= reconcile_notices(old(self)@.take(0), reports@));
        }
        while i < handles.len()
            invariant
                i <= handles.len(),
                handles@.len() == old(self)@.len(),
                forall|k: int|
                    0 <= k < i ==> (#[trigger] handles@[k])@ == reconciled(
                        old(self)@[k],
                        outcome_for(reports@, old(self)@[k].name),
                    ),
                forall|k: int| i <= k < handles@.len() ==> (#[trigger] handles@[k])@ == old(self)@[k],
                message_views(notices@) == reconcile_notices(old(self)@.take(i as int), reports@),
            decreases handles.len() - i,
        {
            let report = match outcome_of(reports, &handles[i].name) {
                Some(outcome) => handles[i].reconcile(outcome),
                None => handles[i].reconcile(&WaitOutcome::StillRunning),
            };
            proof {
                old(self)@.lemma_filter_map_take_succ(notice_under(reports@), i as int);
            }
            if let Some(message) = report {
                notices.push(message);
                assert(message_views(notices@) =~= reconcile_notices(
                    old(self)@.take(i + 1),
                    reports@,
                ));
            }
            i += 1;
        }
        proof {
            assert(old(self)@.take(old(self)@.len() as int) =~= old(self)@);
            assert(handle_views(handles@) =~= reconcile_entries(old(self)@, reports@));
        }
        self.handles = handles;
        notices
    }

    /// Removes the handles that no longer run; the rest keep their order.
    pub fn remove_stopped(&mut self)
        ensures
            final(self)@ == running_entries(old(self)@),
            names_distinct(final(self)@),
    {
        let handles = self.take_handles();
        let mut kept: Vec<ServerHandle> = Vec::new();
        let ghost mut origin: Seq<int> = Seq::empty();
        proof {
            reveal(Seq::filter);
            assert(handle_views(kept@) =~= running_entries(old(self)@.take(0)));
        }
        for handle in it: handles
            invariant
                it.seq() == old(self).handles@,
                names_distinct(old(self)@),
                handle_views(kept@) == running_entries(old(self)@.take(it.index())),
                origin.len() == kept@.len(),
                forall|a: int|
                    0 <= a < origin.len() ==> 0 <= (#[trigger] origin[a]) < it.index()
                        && kept@[a]@ == old(self)@[origin[a]],
                forall|a: int, b: int|
                    0 <= a < b < origin.len() ==> (#[trigger] origin[a]) < (#[trigger] origin[b]),
        {
            proof {
                let i = it.index();
                assert(old(self)@.take(i + 1) =~= old(self)@.take(i).push(old(self)@[i]));
                old(self)@.take(i).lemma_filter_push(old(self)@[i], still_running());
            }
            if handle.running {
                kept.push(handle);
                proof {
                    origin = origin.push(it.index());
                    assert(handle_views(kept@) =~= running_entries(
                        old(self)@.take(it.index() + 1),
                    ));
                }
            }
        }
        proof {
            assert(old(self)@.take(old(self)@.len() as int) =~= old(self)@);
            assert forall|a: int, b: int| 0 <= a < b < kept@.len() implies (#[trigger] handle_views(
                kept@,
            )[a]).name != (#[trigger] handle_views(kept@)[b]).name by {
                assert(kept@[a]@ == old(self)@[origin[a]]);
                assert(kept@[b]@ == old(self)@[origin[b]]);
            }
        }
        self.handles = kept;
    }

    /// One tick of the control loop: the reports of this tick's waits are
    /// taken in, then the handles that no longer run are removed. Returns
    /// the notices of the reconciliation.
    ///
    /// A handle that runs is removed only where a report says that its
    /// process has ended or that the wait on it failed: a handle that
    /// [`survives_tick`] is still registered afterwards, unchanged.
    pub fn on_tick(&mut self, reports: &Vec<WaitReport>) -> (notices: Vec<ServerMessage>)
        ensures
            final(self)@ == tick_entries(old(self)@, reports@),
            message_views(notices@) == reconcile_notices(old(self)@, reports@),
            names_distinct(final(self)@),
            forall|i: int|
                0 <= i < old(self)@.len() && survives_tick(#[trigger] old(self)@[i], reports@)
                    ==> final(self)@.contains(old(self)@[i]),
    {
        let notices = self.reconcile(reports);
        let ghost reconciled_entries = self@;
        self.remove_stopped();
        proof {
            assert forall|i: int|
                0 <= i < old(self)@.len() && survives_tick(
                    #[trigger] old(self)@[i],
                    reports@,
                ) implies self@.contains(old(self)@[i]) by {
                lemma_tick_keeps_live(old(self)@, reports@, i);
            }
        }
        notices
    }
}

/// The outcome the reports give for `name`, if a report bears the name.
fn outcome_of<'a>(reports: &'a Vec<WaitReport>, name: &String) -> (found: Option<&'a WaitOutcome>)
    ensures
        match found {
            Some(outcome) => outcome@ == outcome_for(reports@, name@),
            None => outcome_for(reports@, name@) == WaitView::StillRunning,
        },
{
    let mut i: usize = 0;
    proof {
        assert(reports@.skip(0) == reports@);
    }
    while i < reports.len()
        invariant
            i <= reports.len(),
            outcome_for(reports@.skip(i as int), name@) == outcome_for(reports@, name@),
        decreases reports.len() - i,
    {
        proof {
            assert(reports@.skip(i as int).drop_first() == reports@.skip(i + 1));
        }
        if reports[i].name == *name {
            return Some(&reports[i].outcome);
        }
        i += 1;
    }
    None
}

/// Reconciliation never removes a handle that runs and whose process has
/// not ended: an entry that survives the tick is among the entries after
/// it, as it was.
pub proof fn lemma_tick_keeps_live(entries: Seq<HandleView>, reports: Seq<WaitReport>, i: int)
    requires
        0 <= i < entries.len(),
        survives_tick(entries[i], reports),
    ensures
        tick_entries(entries, reports).contains(entries[i]),
{
    let after = reconcile_entries(entries, reports);
    assert(after[i] == entries[i]);
    after.lemma_filter_contains(still_running(), i);
}

/// An exit event for a name that is not registered changes nothing.
pub proof fn lemma_exit_of_absent_is_noop(entries: Seq<HandleView>, name: Seq<char>)
    requires
        !has_name(entries, name),
    ensures
        exit_entries(entries, name) == entries,
{
    assert(exit_entries(entries, name) =~= entries);
}

/// Consuming the same exit event twice leaves the registry as consuming it
/// once does.
pub proof fn lemma_exit_is_idempotent(entries: Seq<HandleView>, name: Seq<char>)
    ensures
        exit_entries(exit_entries(entries, name), name) == exit_entries(entries, name),
{
    assert(exit_entries(exit_entries(entries, name), name) =~= exit_entries(entries, name));
}

/// Once an exit event for `name` was consumed, the next tick removes the
/// run of that name, whatever the waits of that tick report; every later
/// exit event for the name is then a no-op.
pub proof fn lemma_exited_run_is_removed(
    entries: Seq<HandleView>,
    name: Seq<char>,
    reports: Seq<WaitReport>,
)
    ensures
        !has_name(tick_entries(exit_entries(entries, name), reports), name),
        exit_entries(tick_entries(exit_entries(entries, name), reports), name) == tick_entries(
            exit_entries(entries, name),
            reports,
        ),
{
    let marked = reconcile_entries(exit_entries(entries, name), reports);
    let left = running_entries(marked);
    assert forall|k: int| 0 <= k < left.len() implies (#[trigger] left[k]).name != name by {
        marked.lemma_filter_pred(still_running(), k);
        marked.lemma_filter_contains_rev(still_running(), left[k]);
        let j = choose|j: int| 0 <= j < marked.len() && marked[j] == left[k];
        assert(marked[j].running);
    }
    lemma_exit_of_absent_is_noop(left, name);
}

} // verus!
