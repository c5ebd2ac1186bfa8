//! Why a run stopped.

use vstd::prelude::*;
use vstd::string::*;

verus! {

/// A failure that ends the run. None is retried and none is downgraded.
#[derive(Debug, Clone, PartialEq, Eq)]
pub enum BenchError {
    /// The old database file is there and could not be removed.
    Removal { path: String, reason: String },
    /// The storage engine could not open the new file or set up its schema.
    Schema { path: String, reason: String },
    /// The storage engine refused a worker's connection, setting or insert.
    Insert { reason: String },
    /// A worker ended without reporting back.
    Join { reason: String },
    /// The storage engine could not count the rows.
    Query { reason: String },
}

/// A failure as contracts see it.
pub enum ErrorView {
    Removal { path: Seq<char>, reason: Seq<char> },
    Schema { path: Seq<char>, reason: Seq<char> },
    Insert { reason: Seq<char> },
    Join { reason: Seq<char> },
    Query { reason: Seq<char> },
}

impl ErrorView {
    /// The line shown to the user: the reason, and for a failure of the
    /// bootstrap the path of the file it was working on.
    pub open spec fn message(self) -> Seq<char> {
        match self {
            ErrorView::Removal { path, reason } => reason + seq![':', ' '] + path,
            ErrorView::Schema { path, reason } => reason + seq![':', ' '] + path,
            ErrorView::Insert { reason } => reason,
            ErrorView::Join { reason } => reason,
            ErrorView::Query { reason } => reason,
        }
    }
}

impl View for BenchError {
    type V = ErrorView;

    open spec fn view(&self) -> ErrorView {
        match *self {
            BenchError::Removal { path, reason } => ErrorView::Removal {
                path: path@,
                reason: reason@,
            },
            BenchError::Schema { path, reason } => ErrorView::Schema {
                path: path@,
                reason: reason@,
            },
            BenchError::Insert { reason } => ErrorView::Insert { reason: reason@ },
            BenchError::Join { reason } => ErrorView::Join { reason: reason@ },
            BenchError::Query { reason } => ErrorView::Query { reason: reason@ },
        }
    }
}

fn located(reason: &String, path: &String) -> (s: String)
    ensures
        s@ == reason@ + seq![':', ' '] + path@,
{
    proof {
        reveal_strlit(": ");
    }
    let mut s = reason.clone();
    s.append(": ");
    s.append(path.as_str());
    assert(s@ =~= reason@ + seq![':', ' '] + path@);
    s
}

impl BenchError {
    /// The line shown to the user.
    pub fn message(&self) -> (s: String)
        ensures
            s@ == self@.message(),
    {
        match self {
            BenchError::Removal { path, reason } => located(reason, path),
            BenchError::Schema { path, reason } => located(reason, path),
            BenchError::Insert { reason } => reason.clone(),
            BenchError::Join { reason } => reason.clone(),
            BenchError::Query { reason } => reason.clone(),
        }
    }

    /// A second copy of the failure.
    pub fn duplicate(&self) -> (e: BenchError)
        ensures
            e@ == self@,
    {
        match self {
            BenchError::Removal { path, reason } => BenchError::Removal {
                path: path.clone(),
                reason: reason.clone(),
            },
            BenchError::Schema { path, reason } => BenchError::Schema {
                path: path.clone(),
                reason: reason.clone(),
            },
            BenchError::Insert { reason } => BenchError::Insert { reason: reason.clone() },
            BenchError::Join { reason } => BenchError::Join { reason: reason.clone() },
            BenchError::Query { reason } => BenchError::Query { reason: reason.clone() },
        }
    }
}

} // verus!
