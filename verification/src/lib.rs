//! A coordinator for one batch of files that is processed off the caller's
//! thread.
//!
//! The caller stages a list of files, starts the run, and then polls a coarse
//! state flag until the outcomes, one per file and in the order of the files,
//! can be collected. The coordinator itself is a plain state machine: the
//! caller decides on which thread each step is taken.

pub mod batch;
pub mod coordinator;
pub mod lifecycle;
pub mod state;
pub mod summary;

pub use batch::process_files;
pub use coordinator::{CoordinatorView, FileProcessingThread};
pub use state::ThreadState;
pub use summary::result_message;
