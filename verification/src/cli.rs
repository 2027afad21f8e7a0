//! The command-line surface: what the user may type, and how an
//! invocation ends.

use crate::errors::{outcome_view, Failure, PeekError};
use vstd::prelude::*;
use vstd::string::*;

verus! {

/// The arguments of one invocation.
#[derive(Debug, PartialEq, Eq)]
pub struct Cli {
    /// File, directory, or search pattern to open. A path that does not
    /// exist is searched for in the current directory; without a path the
    /// current directory is opened.
    pub path: Option<String>,
}

/// How an invocation ends: the exit code, and the one line that is written,
/// to the error stream after a failure and to the output stream otherwise.
#[derive(Debug, PartialEq, Eq)]
pub struct Ending {
    pub code: u8,
    pub line: String,
    pub on_error_stream: bool,
}

/// An `Ending` with its line as a sequence of characters.
pub struct EndingView {
    pub code: u8,
    pub line: Seq<char>,
    pub on_error_stream: bool,
}

impl View for Ending {
    type V = EndingView;

    open spec fn view(&self) -> EndingView {
        EndingView { code: self.code, line: self.line@, on_error_stream: self.on_error_stream }
    }
}

/// The ending that belongs to an outcome: code 0 and the report of what was
/// opened after a success; code 1 and the word `Error`, a colon and the
/// failure's description after a failure.
pub open spec fn ending_of(outcome: Result<Seq<char>, Failure>) -> EndingView {
    match outcome {
        Ok(line) => EndingView { code: 0, line, on_error_stream: false },
        Err(failure) => EndingView {
            code: 1,
            line: "Error: "@ + failure.message(),
            on_error_stream: true,
        },
    }
}

/// How the invocation ends after `outcome`.
pub fn ending(outcome: &Result<String, PeekError>) -> (end: Ending)
    ensures
        end@ == ending_of(outcome_view(*outcome)),
{
    match outcome {
        Ok(line) => Ending { code: 0, line: line.clone(), on_error_stream: false },
        Err(failure) => {
            let message = failure.message();
            Ending {
                code: 1,
                line: String::from_str("Error: ").concat(message.as_str()),
                on_error_stream: true,
            }
        },
    }
}

} // verus!
