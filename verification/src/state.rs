use vstd::prelude::*;

verus! {

/// The coarse state of a coordinator, as a poller sees it.
#[derive(Clone, Copy, Debug, PartialEq, Eq, Structural)]
pub enum ThreadState {
    /// No file list has been staged yet.
    Uninitialized,
    /// A file list is staged and a run may start.
    Initialized,
    /// A run has started and its outcomes are not published yet.
    Running,
    /// The outcomes of the run are published.
    Done,
}

impl ThreadState {
    /// The position of a state in the order in which one run passes through
    /// the states.
    pub open spec fn rank(self) -> nat {
        match self {
            ThreadState::Uninitialized => 0,
            ThreadState::Initialized => 1,
            ThreadState::Running => 2,
            ThreadState::Done => 3,
        }
    }
}

} // verus!
