//! What the library asks of its host, and what the host answers. The
//! library reads no file and starts no process: it says what it needs to
//! know or wants done, and decides on the answer.

use crate::errors::text_outcome;
use crate::file_search::{listing_view, Candidate, CandidateView};
use vstd::prelude::*;

verus! {

/// The kind of system the host is.
#[derive(Debug, Clone, Copy, PartialEq, Eq, Structural)]
pub enum Platform {
    /// Linux.
    Linux,
    /// Another Unix-like system.
    Unix,
    /// Windows.
    Windows,
    /// Any other system.
    Other,
}

/// One thing that the host is asked to find out or to do.
#[derive(Debug, PartialEq, Eq)]
pub enum Request {
    /// Report the current working directory.
    CurrentDir,
    /// Say whether the path names an existing entry.
    Exists(String),
    /// List the directory, one level deep, in the order of enumeration.
    ListDir(String),
    /// Bring the path into canonical form.
    Canonicalize(String),
    /// Start `program` with `url` as its argument, detached and with its
    /// standard streams discarded.
    Launch { program: String, url: String },
    /// Hand the path to the system's default application.
    OpenDefault(String),
    /// Say whether the path names a directory.
    IsDir(String),
}

/// A `Request` with its texts as sequences of characters.
pub enum RequestView {
    CurrentDir,
    Exists(Seq<char>),
    ListDir(Seq<char>),
    Canonicalize(Seq<char>),
    Launch { program: Seq<char>, url: Seq<char> },
    OpenDefault(Seq<char>),
    IsDir(Seq<char>),
}

impl View for Request {
    type V = RequestView;

    open spec fn view(&self) -> RequestView {
        match self {
            Request::CurrentDir => RequestView::CurrentDir,
            Request::Exists(path) => RequestView::Exists(path@),
            Request::ListDir(dir) => RequestView::ListDir(dir@),
            Request::Canonicalize(path) => RequestView::Canonicalize(path@),
            Request::Launch { program, url } => RequestView::Launch {
                program: program@,
                url: url@,
            },
            Request::OpenDefault(path) => RequestView::OpenDefault(path@),
            Request::IsDir(path) => RequestView::IsDir(path@),
        }
    }
}

/// The host's answer to a request. Where the system may refuse, the answer
/// holds the text of its error.
#[derive(Debug, PartialEq, Eq)]
pub enum Reply {
    /// The current working directory.
    CurrentDir(Result<String, String>),
    /// Whether the path names an existing entry.
    Exists(bool),
    /// What the listing gave, in the order of enumeration: the directory
    /// itself at depth 0, if the enumeration reports it, and each entry
    /// that could be read.
    Entries(Vec<Candidate>),
    /// The canonical form of the path.
    Canonical(Result<String, String>),
    /// Whether the program was started.
    Launched(bool),
    /// Whether the default application was started.
    Opened(Result<(), String>),
    /// Whether the path names a directory.
    IsDir(bool),
}

/// A `Reply` with its texts as sequences of characters.
pub enum ReplyView {
    CurrentDir(Result<Seq<char>, Seq<char>>),
    Exists(bool),
    Entries(Seq<CandidateView>),
    Canonical(Result<Seq<char>, Seq<char>>),
    Launched(bool),
    Opened(Result<(), Seq<char>>),
    IsDir(bool),
}

/// The answer of the default application's launch, with the error as a
/// sequence of characters.
pub open spec fn unit_outcome(outcome: Result<(), String>) -> Result<(), Seq<char>> {
    match outcome {
        Ok(_) => Ok(()),
        Err(error) => Err(error@),
    }
}

impl View for Reply {
    type V = ReplyView;

    open spec fn view(&self) -> ReplyView {
        match self {
            Reply::CurrentDir(outcome) => ReplyView::CurrentDir(text_outcome(*outcome)),
            Reply::Exists(exists) => ReplyView::Exists(*exists),
            Reply::Entries(entries) => ReplyView::Entries(listing_view(entries@)),
            Reply::Canonical(outcome) => ReplyView::Canonical(text_outcome(*outcome)),
            Reply::Launched(launched) => ReplyView::Launched(*launched),
            Reply::Opened(outcome) => ReplyView::Opened(unit_outcome(*outcome)),
            Reply::IsDir(is_dir) => ReplyView::IsDir(*is_dir),
        }
    }
}

/// A host that answers every request the same way each time it is asked:
/// a file system and a set of programs that stay as they are while the
/// library works.
pub struct World {
    /// The current working directory, or the error of asking for it.
    pub current_dir: Result<Seq<char>, Seq<char>>,
    /// Whether a path names an existing entry.
    pub exists: spec_fn(Seq<char>) -> bool,
    /// The listing of a directory.
    pub listing: spec_fn(Seq<char>) -> Seq<CandidateView>,
    /// The canonical form of a path, or the error of asking for it.
    pub canonical: spec_fn(Seq<char>) -> Result<Seq<char>, Seq<char>>,
    /// Whether a program starts when given a URL.
    pub launches: spec_fn(Seq<char>, Seq<char>) -> bool,
    /// Whether the default application starts for a path.
    pub opens: spec_fn(Seq<char>) -> Result<(), Seq<char>>,
    /// Whether a path names a directory.
    pub is_dir: spec_fn(Seq<char>) -> bool,
}

impl World {
    /// A law of file systems, which a host may or may not obey: what is the
    /// canonical form of some path names an existing entry and is its own
    /// canonical form.
    pub open spec fn canonical_paths_are_fixed(self) -> bool {
        forall|path: Seq<char>|
            (#[trigger] (self.canonical)(path)) matches Ok(canonical) ==> {
                &&& (self.exists)(canonical)
                &&& (self.canonical)(canonical) == Ok::<Seq<char>, Seq<char>>(canonical)
            }
    }

    /// The answer of this host to `request`.
    pub open spec fn answer(self, request: RequestView) -> ReplyView {
        match request {
            RequestView::CurrentDir => ReplyView::CurrentDir(self.current_dir),
            RequestView::Exists(path) => ReplyView::Exists((self.exists)(path)),
            RequestView::ListDir(dir) => ReplyView::Entries((self.listing)(dir)),
            RequestView::Canonicalize(path) => ReplyView::Canonical((self.canonical)(path)),
            RequestView::Launch { program, url } => ReplyView::Launched(
                (self.launches)(program, url),
            ),
            RequestView::OpenDefault(path) => ReplyView::Opened((self.opens)(path)),
            RequestView::IsDir(path) => ReplyView::IsDir((self.is_dir)(path)),
        }
    }
}

} // verus!
