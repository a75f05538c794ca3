use crate::coordinator::FileProcessingThread;
use rayon::iter::{IntoParallelRefIterator, ParallelIterator};
use vstd::prelude::*;
use vstd::string::*;

verus! {

/// `outcomes` is what `process` gave for `files`: one outcome per file, at the
/// file's own position.
pub open spec fn processed_by<F: Fn(&String) -> Result<(), String>>(
    process: F,
    files: Seq<String>,
    outcomes: Seq<Result<(), String>>,
) -> bool {
    &&& outcomes.len() == files.len()
    &&& forall|i: int|
        0 <= i < files.len() ==> call_ensures(process, (&files[i],), #[trigger] outcomes[i])
}

/// Hands the files to rayon: `par_iter().map(process).collect()` on a `Vec`.
///
/// Not proved, taken from rayon: the parallel iterator over a `Vec` is an
/// indexed one, `map` calls `process` once on each item, and collecting an
/// indexed iterator into a `Vec` puts each result at the position of its
/// item, whichever worker finished first.
#[verifier::external_body]
fn par_map<F>(files: &Vec<String>, process: F) -> (outcomes: Vec<Result<(), String>>) where
    F: Fn(&String) -> Result<(), String> + Sync + Send,

    requires
        forall|i: int| 0 <= i < files.len() ==> call_requires(process, (&files[i],)),
    ensures
        outcomes.len() == files.len(),
        forall|i: int|
            0 <= i < files.len() ==> call_ensures(process, (&files[i],), #[trigger] outcomes[i]),
{
    files.par_iter().map(process).collect()
}

/// Processes every file of a batch with `process`, on a pool of workers, and
/// returns the outcomes in the order of the files. A file that fails does not
/// stop the others: its error is its outcome.
pub fn process_files<F>(files: &Vec<String>, process: F) -> (outcomes: Vec<Result<(), String>>) where
    F: Fn(&String) -> Result<(), String> + Sync + Send,

    requires
        forall|i: int| 0 <= i < files.len() ==> call_requires(process, (&files[i],)),
    ensures
        processed_by(process, files@, outcomes@),
{
    par_map(files, process)
}

/// The text that `{:?}` writes for a string with these characters: the
/// characters between double quotes, with those escaped that would not read
/// as themselves.
pub uninterp spec fn debug_text(text: Seq<char>) -> Seq<char>;

/// The message with which the placeholder strategy fails for `file`.
pub open spec fn failure_message(file: Seq<char>) -> Seq<char> {
    "Slept thread for 1 second for file "@ + debug_text(file)
}

/// Formats a file name with `{:?}`: std's `Debug` for `String`, called
/// through `format!`.
///
/// Not proved, taken from std: the text that comes out depends on the
/// characters of the string and on nothing else.
#[verifier::external_body]
fn quoted(file: &String) -> (text: String)
    ensures
        text@ == debug_text(file@),
{
    format!("{:?}", file)
}

impl FileProcessingThread {
    /// The placeholder strategy for one file: it fails for every file, with a
    /// message that names the file. The wait that the message speaks of is the
    /// caller's to make, before the call.
    pub fn process_file(file: &String) -> (outcome: Result<(), String>)
        ensures
            outcome matches Err(message) && message@ == failure_message(file@),
    {
        let mut message = String::from_str("Slept thread for 1 second for file ");
        let name = quoted(file);
        message.append(name.as_str());
        Err(message)
    }
}

} // verus!
