use vstd::prelude::*;
use vstd::string::*;

verus! {

/// The error messages among `results`, in the order of the results.
pub open spec fn error_lines(results: Seq<Result<(), String>>) -> Seq<Seq<char>>
    decreases results.len(),
{
    if results.len() == 0 {
        Seq::empty()
    } else {
        let earlier = error_lines(results.drop_last());
        match results.last() {
            Ok(_) => earlier,
            Err(message) => earlier.push(message@),
        }
    }
}

/// `lines` with one line feed between each two neighbours.
pub open spec fn joined(lines: Seq<Seq<char>>) -> Seq<char>
    decreases lines.len(),
{
    if lines.len() == 0 {
        Seq::empty()
    } else if lines.len() == 1 {
        lines[0]
    } else {
        joined(lines.drop_last()) + seq!['\n'] + lines.last()
    }
}

/// What a batch is summed up as: the word of success where no file failed,
/// else the error messages, one per line.
pub open spec fn summary(results: Seq<Result<(), String>>) -> Seq<char> {
    let lines = error_lines(results);
    if lines.len() == 0 {
        "Success!"@
    } else {
        joined(lines)
    }
}

/// A batch is summed up as a success exactly when none of its outcomes is an
/// error.
pub proof fn lemma_success_means_no_error(results: Seq<Result<(), String>>)
    ensures
        error_lines(results).len() == 0 <==> forall|i: int|
            0 <= i < results.len() ==> (#[trigger] results[i]) is Ok,
    decreases results.len(),
{
    if results.len() > 0 {
        let earlier = results.drop_last();
        lemma_success_means_no_error(earlier);
        if error_lines(results).len() == 0 {
            assert forall|i: int| 0 <= i < results.len() implies (#[trigger] results[i]) is Ok by {
                if i < earlier.len() {
                    assert(earlier[i] is Ok);
                }
            }
        } else if results.last() is Ok {
            let i = choose|i: int| 0 <= i < earlier.len() && !(#[trigger] earlier[i] is Ok);
            assert(!(results[i] is Ok));
        }
    }
}

/// The message to show for the outcomes of a batch: `Success!` if every file
/// succeeded (also where there was no file at all), else the error messages
/// in the order of the files, separated by line feeds.
pub fn result_message(results: &Vec<Result<(), String>>) -> (message: String)
    ensures
        message@ == summary(results@),
{
    let mut lines = String::new();
    let mut failed = false;
    let mut i: usize = 0;
    while i < results.len()
        invariant
            i <= results.len(),
            failed == (error_lines(results@.take(i as int)).len() > 0),
            lines@ == joined(error_lines(results@.take(i as int))),
        decreases results.len() - i,
    {
        proof {
            assert(results@.take(i + 1).drop_last() == results@.take(i as int));
        }
        match &results[i] {
            Ok(_) => {},
            Err(message) => {
                if failed {
                    proof {
                        reveal_strlit("\n");
                        assert("\n"@ == seq!['\n']);
                    }
                    lines.append("\n");
                }
                lines.append(message.as_str());
                failed = true;
                proof {
                    let now = error_lines(results@.take(i + 1));
                    assert(now.drop_last() == error_lines(results@.take(i as int)));
                }
            },
        }
        i += 1;
    }
    proof {
        assert(results@.take(i as int) == results@);
    }
    if failed {
        lines
    } else {
        String::from_str("Success!")
    }
}

} // verus!
