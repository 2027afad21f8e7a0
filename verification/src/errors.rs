//! The failures that end an invocation.

use vstd::prelude::*;
use vstd::string::*;

verus! {

/// Why an invocation failed. Each variant carries the detail that the
/// one-line report shows after the variant's own words.
#[derive(Debug, PartialEq, Eq)]
pub enum PeekError {
    /// The input names no existing entry and matches none.
    FileNotFound(String),
    /// No way of opening the target launched a process.
    BrowserError(String),
    /// A call to the operating system failed.
    IoError(String),
    /// The target could not be brought into canonical form.
    InvalidPath(String),
}

/// What a `PeekError` is, with each text as a sequence of characters.
pub enum Failure {
    FileNotFound(Seq<char>),
    BrowserError(Seq<char>),
    IoError(Seq<char>),
    InvalidPath(Seq<char>),
}

impl Failure {
    /// The words that open the report of this kind of failure.
    pub open spec fn heading(self) -> Seq<char> {
        match self {
            Failure::FileNotFound(_) => "File or Directory not found: "@,
            Failure::BrowserError(_) => "Failled to open in browser: "@,
            Failure::IoError(_) => "IO error: "@,
            Failure::InvalidPath(_) => "Invalid Path: "@,
        }
    }

    /// The detail carried by the failure.
    pub open spec fn detail(self) -> Seq<char> {
        match self {
            Failure::FileNotFound(d) => d,
            Failure::BrowserError(d) => d,
            Failure::IoError(d) => d,
            Failure::InvalidPath(d) => d,
        }
    }

    /// The one-line report: the heading, then the detail.
    pub open spec fn message(self) -> Seq<char> {
        self.heading() + self.detail()
    }
}

impl View for PeekError {
    type V = Failure;

    open spec fn view(&self) -> Failure {
        match self {
            PeekError::FileNotFound(d) => Failure::FileNotFound(d@),
            PeekError::BrowserError(d) => Failure::BrowserError(d@),
            PeekError::IoError(d) => Failure::IoError(d@),
            PeekError::InvalidPath(d) => Failure::InvalidPath(d@),
        }
    }
}

/// An answer of the operating system that holds a text or its error, with
/// both as sequences of characters.
pub open spec fn text_outcome(outcome: Result<String, String>) -> Result<Seq<char>, Seq<char>> {
    match outcome {
        Ok(text) => Ok(text@),
        Err(error) => Err(error@),
    }
}

/// The result of a component, with its text or its failure as a view.
pub open spec fn outcome_view(outcome: Result<String, PeekError>) -> Result<Seq<char>, Failure> {
    match outcome {
        Ok(text) => Ok(text@),
        Err(error) => Err(error@),
    }
}

impl PeekError {
    /// The one-line report of this failure.
    pub fn message(&self) -> (line: String)
        ensures
            line@ == self@.message(),
    {
        match self {
            PeekError::FileNotFound(d) => {
                String::from_str("File or Directory not found: ").concat(d.as_str())
            },
            PeekError::BrowserError(d) => {
                String::from_str("Failled to open in browser: ").concat(d.as_str())
            },
            PeekError::IoError(d) => String::from_str("IO error: ").concat(d.as_str()),
            PeekError::InvalidPath(d) => String::from_str("Invalid Path: ").concat(d.as_str()),
        }
    }
}

} // verus!
