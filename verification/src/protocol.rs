//! What an engine and its driver say to each other. The engine asks for one
//! operation on the file system at a time; the driver carries it out and
//! replies.

use vstd::prelude::*;
use crate::record::{Move, MoveView};

verus! {

/// An operation that an engine asks its driver to carry out.
#[derive(Debug, Clone, PartialEq, Eq)]
pub enum Request {
    /// Resolve `path` to its absolute form, with symbolic links followed.
    /// The reply's detail is the resolved path.
    Canonicalize { path: String },
    /// Say whether anything exists at `path`. The reply succeeds where
    /// something does.
    Exists { path: String },
    /// Rename `from` to `to`.
    Rename { from: String, to: String },
    /// Create the directory `path` and every missing directory above it.
    CreateDirAll { path: String },
    /// Remove the directory `path` with all it holds.
    RemoveDirAll { path: String },
    /// Write `records`, in their order, as the whole content of the log at
    /// `path`.
    WriteLog { path: String, records: Vec<Move> },
    /// The run is over.
    Finish,
    /// The run cannot go on.
    Abort { reason: String },
}

pub enum RequestView {
    Canonicalize { path: Seq<char> },
    Exists { path: Seq<char> },
    Rename { from: Seq<char>, to: Seq<char> },
    CreateDirAll { path: Seq<char> },
    RemoveDirAll { path: Seq<char> },
    WriteLog { path: Seq<char>, records: Seq<MoveView> },
    Finish,
    Abort { reason: Seq<char> },
}

impl View for Request {
    type V = RequestView;

    open spec fn view(&self) -> RequestView {
        match self {
            Request::Canonicalize { path } => RequestView::Canonicalize { path: path@ },
            Request::Exists { path } => RequestView::Exists { path: path@ },
            Request::Rename { from, to } => RequestView::Rename { from: from@, to: to@ },
            Request::CreateDirAll { path } => RequestView::CreateDirAll { path: path@ },
            Request::RemoveDirAll { path } => RequestView::RemoveDirAll { path: path@ },
            Request::WriteLog { path, records } => RequestView::WriteLog {
                path: path@,
                records: records.deep_view(),
            },
            Request::Finish => RequestView::Finish,
            Request::Abort { reason } => RequestView::Abort { reason: reason@ },
        }
    }
}

impl RequestView {
    /// Whether the request ends the run.
    pub open spec fn is_last(self) -> bool {
        self is Finish || self is Abort
    }

    /// Whether carrying the request out can change the file system.
    pub open spec fn changes_files(self) -> bool {
        self is Rename || self is CreateDirAll || self is RemoveDirAll || self is WriteLog
    }
}

/// How the operation asked for went.
#[derive(Debug, Clone, PartialEq, Eq)]
pub struct Reply {
    /// The operation was carried out; for `Exists`, something is there.
    pub succeeded: bool,
    /// The resolved path after `Canonicalize`; the error text where the
    /// operation failed; of no account otherwise.
    pub detail: String,
}

pub struct ReplyView {
    pub succeeded: bool,
    pub detail: Seq<char>,
}

impl View for Reply {
    type V = ReplyView;

    open spec fn view(&self) -> ReplyView {
        ReplyView { succeeded: self.succeeded, detail: self.detail@ }
    }
}

impl Reply {
    /// The operation went through and there is nothing to add.
    pub fn done() -> (reply: Reply)
        ensures
            reply@ == (ReplyView { succeeded: true, detail: Seq::empty() }),
    {
        Reply { succeeded: true, detail: String::new() }
    }

    /// The operation went through with `detail` as its answer.
    pub fn with(detail: String) -> (reply: Reply)
        ensures
            reply@ == (ReplyView { succeeded: true, detail: detail@ }),
    {
        Reply { succeeded: true, detail }
    }

    /// The answer to `Exists`.
    pub fn found(exists: bool) -> (reply: Reply)
        ensures
            reply@ == (ReplyView { succeeded: exists, detail: Seq::empty() }),
    {
        Reply { succeeded: exists, detail: String::new() }
    }

    /// The operation failed with `error`.
    pub fn failed(error: String) -> (reply: Reply)
        ensures
            reply@ == (ReplyView { succeeded: false, detail: error@ }),
    {
        Reply { succeeded: false, detail: error }
    }
}

/// One turn of an engine: lines to show the user, and what to do next.
#[derive(Debug, Clone, PartialEq, Eq)]
pub struct Turn {
    pub say: Vec<String>,
    pub ask: Request,
}

pub struct TurnView {
    pub say: Seq<Seq<char>>,
    pub ask: RequestView,
}

impl View for Turn {
    type V = TurnView;

    open spec fn view(&self) -> TurnView {
        TurnView { say: self.say.deep_view(), ask: self.ask@ }
    }
}

/// The one line, or none where the run is quiet.
pub open spec fn unless(quiet: bool, line: Seq<char>) -> Seq<Seq<char>> {
    if quiet {
        Seq::empty()
    } else {
        seq![line]
    }
}

/// The one line where the run is verbose, else none.
pub open spec fn only_if(verbose: bool, line: Seq<char>) -> Seq<Seq<char>> {
    if verbose {
        seq![line]
    } else {
        Seq::empty()
    }
}

/// The line that shows a file going from one path to another.
pub open spec fn mapping_line(from: Seq<char>, to: Seq<char>) -> Seq<char> {
    from + " -> "@ + to
}

pub(crate) fn no_lines() -> (say: Vec<String>)
    ensures
        say.deep_view() == Seq::<Seq<char>>::empty(),
{
    let say: Vec<String> = Vec::new();
    assert(say.deep_view() =~= Seq::<Seq<char>>::empty());
    say
}

pub(crate) fn lines_unless(quiet: bool, line: String) -> (say: Vec<String>)
    ensures
        say.deep_view() == unless(quiet, line@),
{
    let mut say: Vec<String> = Vec::new();
    if !quiet {
        say.push(line);
    }
    assert(say.deep_view() =~= unless(quiet, line@));
    say
}

pub(crate) fn mapping_text(from: &str, to: &str) -> (line: String)
    ensures
        line@ == mapping_line(from@, to@),
{
    let mut line = from.to_owned();
    line.append(" -> ");
    line.append(to);
    line
}

} // verus!
