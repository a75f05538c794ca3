use crate::batch::processed_by;
use crate::coordinator::{CoordinatorView, FileProcessingThread};
use crate::state::ThreadState;
use vstd::prelude::*;

verus! {

/// One step in the history of a coordinator.
pub enum Event {
    /// `set_file_list` with these files.
    SetFileList(Seq<String>),
    /// `run`.
    Run,
    /// `publish_results` with these outcomes.
    PublishResults(Seq<Result<(), String>>),
    /// The coordinator is thrown away and a new one takes its place.
    Replace,
}

impl CoordinatorView {
    /// Whether the step may be taken here: a run starts from `Initialized`
    /// only, every other step may be taken anywhere.
    pub open spec fn accepts(self, event: Event) -> bool {
        event is Run ==> self.state == ThreadState::Initialized
    }

    /// The coordinator after the step.
    pub open spec fn after(self, event: Event) -> CoordinatorView {
        match event {
            Event::SetFileList(files) => self.with_files(files),
            Event::Run => self.started(),
            Event::PublishResults(outcomes) => self.published(outcomes),
            Event::Replace => CoordinatorView::fresh(),
        }
    }

    /// The coordinator after all of `events`, taken in order.
    pub open spec fn after_all(self, events: Seq<Event>) -> CoordinatorView
        decreases events.len(),
    {
        if events.len() == 0 {
            self
        } else {
            self.after_all(events.drop_last()).after(events.last())
        }
    }

    /// Every step of `events` may be taken where the steps before it lead.
    pub open spec fn admits(self, events: Seq<Event>) -> bool {
        forall|k: int|
            0 <= k < events.len() ==> (#[trigger] self.after_all(events.take(k))).accepts(
                events[k],
            )
    }
}

/// `events` is the history of one run at most: the coordinator is never
/// replaced, and files are staged only while no run has started.
pub open spec fn within_one_run(start: CoordinatorView, events: Seq<Event>) -> bool {
    forall|k: int|
        0 <= k < events.len() ==> {
            let before = #[trigger] start.after_all(events.take(k));
            &&& !(events[k] is Replace)
            &&& events[k] is SetFileList ==> before.state.rank() <= ThreadState::Initialized.rank()
        }
}

/// A history's prefix of a prefix is the shorter prefix, and the step after a
/// prefix leads to the next prefix.
proof fn lemma_after_all_step(start: CoordinatorView, events: Seq<Event>, k: int)
    requires
        0 <= k < events.len(),
    ensures
        start.after_all(events.take(k + 1)) == start.after_all(events.take(k)).after(events[k]),
{
    assert(events.take(k + 1).drop_last() == events.take(k));
}

/// Within one run the flag never goes back: of two moments of a history, the
/// later one finds the flag where the earlier one found it, or further on in
/// the order `Uninitialized`, `Initialized`, `Running`, `Done`.
pub proof fn lemma_flag_never_goes_back(
    start: CoordinatorView,
    events: Seq<Event>,
    earlier: int,
    later: int,
)
    requires
        start.admits(events),
        within_one_run(start, events),
        0 <= earlier <= later <= events.len(),
    ensures
        start.after_all(events.take(earlier)).state.rank() <= start.after_all(
            events.take(later),
        ).state.rank(),
    decreases later - earlier,
{
    if earlier < later {
        lemma_flag_never_goes_back(start, events, earlier, later - 1);
        lemma_after_all_step(start, events, later - 1);
        let before = start.after_all(events.take(later - 1));
        assert(before.accepts(events[later - 1]));
    }
}

/// Until the flag has been at `Done`, nothing is published: a coordinator
/// that started out new, or as the replacement of another, has no outcomes as
/// long as no moment of its history found the flag at `Done`.
pub proof fn lemma_no_results_before_done(events: Seq<Event>)
    requires
        forall|k: int|
            0 <= k <= events.len() ==> (#[trigger] CoordinatorView::fresh().after_all(
                events.take(k),
            )).state != ThreadState::Done,
    ensures
        CoordinatorView::fresh().after_all(events).results.len() == 0,
    decreases events.len(),
{
    let fresh = CoordinatorView::fresh();
    if events.len() > 0 {
        let shorter = events.drop_last();
        assert forall|k: int| 0 <= k <= shorter.len() implies (#[trigger] fresh.after_all(
            shorter.take(k),
        )).state != ThreadState::Done by {
            assert(shorter.take(k) == events.take(k));
        }
        lemma_no_results_before_done(shorter);
        assert(events.take(events.len() as int) == events);
    }
}

/// A batch comes back whole and in order: once files are staged, the run is
/// started, the snapshot is processed and the outcomes are published, the
/// flag is at `Done` and the coordinator holds exactly one outcome per staged
/// file, each at the position of its file and each one that `process` gave
/// for that file. What the coordinator held before plays no part.
pub proof fn lemma_results_mirror_files<F: Fn(&String) -> Result<(), String>>(
    before: CoordinatorView,
    files: Seq<String>,
    process: F,
    outcomes: Seq<Result<(), String>>,
)
    requires
        processed_by(process, files, outcomes),
    ensures
        before.with_files(files).accepts(Event::Run),
        ({
            let done = before.with_files(files).started().published(outcomes);
            &&& done.state == ThreadState::Done
            &&& done.files == files
            &&& done.results.len() == files.len()
            &&& forall|i: int|
                0 <= i < files.len() ==> call_ensures(
                    process,
                    (&done.files[i],),
                    #[trigger] done.results[i],
                )
        }),
{
}

/// Nothing of an earlier batch reaches a later one: whatever `first` did to a
/// coordinator, once it is replaced the new one shows no outcomes while the
/// second batch is staged and running, and exactly the second batch's
/// outcomes once they are published.
pub proof fn lemma_batches_do_not_leak(
    first: Seq<Event>,
    files: Seq<String>,
    outcomes: Seq<Result<(), String>>,
)
    ensures
        ({
            let replaced = CoordinatorView::fresh().after_all(first).after(Event::Replace);
            let staged = replaced.after(Event::SetFileList(files));
            let running = staged.after(Event::Run);
            let done = running.after(Event::PublishResults(outcomes));
            &&& replaced == CoordinatorView::fresh()
            &&& staged.accepts(Event::Run)
            &&& staged.results.len() == 0
            &&& running.results.len() == 0
            &&& done.results == outcomes
        }),
{
}

/// Reading is repeatable: two calls of `get_state` on one coordinator return
/// the same flag, and two calls of `get_results` the same outcomes, as long
/// as nothing changes the coordinator in between.
pub proof fn lemma_reads_repeat(
    coordinator: FileProcessingThread,
    first_state: ThreadState,
    second_state: ThreadState,
    first_results: Vec<Result<(), String>>,
    second_results: Vec<Result<(), String>>,
)
    requires
        call_ensures(FileProcessingThread::get_state, (&coordinator,), first_state),
        call_ensures(FileProcessingThread::get_state, (&coordinator,), second_state),
        call_ensures(FileProcessingThread::get_results, (&coordinator,), first_results),
        call_ensures(FileProcessingThread::get_results, (&coordinator,), second_results),
    ensures
        first_state == second_state,
        first_results@ == second_results@,
{
}

} // verus!
