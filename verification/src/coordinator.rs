use crate::state::ThreadState;
use vstd::prelude::*;

verus! {

/// What a coordinator holds, as mathematical values. Every contract of
/// [`FileProcessingThread`] is stated over this view.
#[verifier::ext_equal]
pub struct CoordinatorView {
    /// The state flag.
    pub state: ThreadState,
    /// The staged files, in the order in which they were handed in.
    pub files: Seq<String>,
    /// The published outcomes, one per file of the run that produced them.
    pub results: Seq<Result<(), String>>,
}

impl CoordinatorView {
    /// A coordinator that has not been given anything yet.
    pub open spec fn fresh() -> CoordinatorView {
        CoordinatorView {
            state: ThreadState::Uninitialized,
            files: Seq::empty(),
            results: Seq::empty(),
        }
    }

    /// Staging `files`: the earlier list is dropped as a whole and a run may
    /// start. The published outcomes are not touched.
    pub open spec fn with_files(self, files: Seq<String>) -> CoordinatorView {
        CoordinatorView { state: ThreadState::Initialized, files, results: self.results }
    }

    /// Starting a run: only the flag moves.
    pub open spec fn started(self) -> CoordinatorView {
        CoordinatorView { state: ThreadState::Running, files: self.files, results: self.results }
    }

    /// Publishing `outcomes`: the outcomes and the flag change together.
    pub open spec fn published(self, outcomes: Seq<Result<(), String>>) -> CoordinatorView {
        CoordinatorView { state: ThreadState::Done, files: self.files, results: outcomes }
    }
}

/// Coordinates one batch of files: it holds the state flag, the staged files
/// and the published outcomes.
///
/// The coordinator takes no step by itself. [`FileProcessingThread::run`] hands
/// out the batch, the caller has it processed wherever it likes, and
/// [`FileProcessingThread::publish_results`] takes the outcomes back. A caller
/// that shares a coordinator between threads puts it behind one lock, so that
/// every step below is seen as a whole.
pub struct FileProcessingThread {
    state: ThreadState,
    files_to_process: Vec<String>,
    processing_results: Vec<Result<(), String>>,
}

impl View for FileProcessingThread {
    type V = CoordinatorView;

    closed spec fn view(&self) -> CoordinatorView {
        CoordinatorView {
            state: self.state,
            files: self.files_to_process@,
            results: self.processing_results@,
        }
    }
}

impl FileProcessingThread {
    /// A coordinator in state `Uninitialized`, with no files and no outcomes.
    pub fn new() -> (coordinator: Self)
        ensures
            coordinator@ == CoordinatorView::fresh(),
    {
        FileProcessingThread {
            state: ThreadState::Uninitialized,
            files_to_process: Vec::new(),
            processing_results: Vec::new(),
        }
    }

    /// Stages `file_list` in place of whatever was staged before and moves the
    /// flag to `Initialized`, whatever it was.
    pub fn set_file_list(&mut self, file_list: Vec<String>)
        ensures
            final(self)@ == old(self)@.with_files(file_list@),
    {
        self.files_to_process = file_list;
        self.state = ThreadState::Initialized;
    }

    /// Whether the flag is `state`.
    pub fn is_in_state(&self, state: ThreadState) -> (matches: bool)
        ensures
            matches == (self@.state == state),
    {
        self.get_state() == state
    }

    /// Starts a run: moves the flag from `Initialized` to `Running` and returns
    /// a snapshot of the staged files for the caller to process. Later changes
    /// of the staged list do not reach the snapshot.
    ///
    /// A run can only start from `Initialized`; starting from any other state
    /// is a mistake of the caller.
    pub fn run(&mut self) -> (batch: Vec<String>)
        requires
            old(self)@.state == ThreadState::Initialized,
        ensures
            final(self)@ == old(self)@.started(),
            batch@ == old(self)@.files,
    {
        self.state = ThreadState::Running;
        let mut batch: Vec<String> = Vec::new();
        let mut i: usize = 0;
        while i < self.files_to_process.len()
            invariant
                i <= self.files_to_process.len(),
                batch@ == self.files_to_process@.take(i as int),
                self@ == old(self)@.started(),
            decreases self.files_to_process.len() - i,
        {
            batch.push(self.files_to_process[i].clone());
            i += 1;
        }
        batch
    }

    /// Publishes the outcomes of a run and moves the flag to `Done`, in one
    /// step: nobody sees the flag at `Done` without these outcomes.
    pub fn publish_results(&mut self, outcomes: Vec<Result<(), String>>)
        ensures
            final(self)@ == old(self)@.published(outcomes@),
    {
        self.processing_results = outcomes;
        self.state = ThreadState::Done;
    }

    /// The flag, as it is now.
    pub fn get_state(&self) -> (state: ThreadState)
        ensures
            state == self@.state,
    {
        self.state
    }

    /// A copy of the published outcomes, in the order of the files of their
    /// run. Before anything has been published the copy is empty. The
    /// coordinator keeps its outcomes.
    pub fn get_results(&self) -> (results: Vec<Result<(), String>>)
        ensures
            results@ == self@.results,
    {
        let mut results: Vec<Result<(), String>> = Vec::new();
        let mut i: usize = 0;
        while i < self.processing_results.len()
            invariant
                i <= self.processing_results.len(),
                results@ == self.processing_results@.take(i as int),
            decreases self.processing_results.len() - i,
        {
            let copy: Result<(), String> = match &self.processing_results[i] {
                Ok(done) => Ok(*done),
                Err(message) => Err(message.clone()),
            };
            results.push(copy);
            i += 1;
        }
        results
    }
}

} // verus!
