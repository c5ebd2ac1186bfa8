//! Bringing up a fresh database file: remove what is there, open a
//! connection, turn on write-ahead logging, create the table and its index.

use crate::error::{BenchError, ErrorView};
use crate::protocol::{Action, ActionView, Pragma, Reply, ReplyView, Statement};
use vstd::prelude::*;
use vstd::string::*;

verus! {

/// How far the bootstrap has come. Each phase but the last two waits for the
/// reply to one action.
#[derive(Debug, Clone, PartialEq, Eq)]
pub enum BootPhase {
    /// Waiting for the old file to be removed.
    Removing,
    /// Waiting for the connection.
    Opening,
    /// Waiting for the journal mode to be set.
    Journaling,
    /// Waiting for the table.
    CreatingTable,
    /// Waiting for the index.
    CreatingIndex,
    /// The file holds the empty table and its index.
    Ready,
    /// The bootstrap has failed, and why.
    Failed(BenchError),
}

/// A phase as contracts see it.
pub enum BootPhaseView {
    Removing,
    Opening,
    Journaling,
    CreatingTable,
    CreatingIndex,
    Ready,
    Failed(ErrorView),
}

impl View for BootPhase {
    type V = BootPhaseView;

    open spec fn view(&self) -> BootPhaseView {
        match *self {
            BootPhase::Removing => BootPhaseView::Removing,
            BootPhase::Opening => BootPhaseView::Opening,
            BootPhase::Journaling => BootPhaseView::Journaling,
            BootPhase::CreatingTable => BootPhaseView::CreatingTable,
            BootPhase::CreatingIndex => BootPhaseView::CreatingIndex,
            BootPhase::Ready => BootPhaseView::Ready,
            BootPhase::Failed(e) => BootPhaseView::Failed(e@),
        }
    }
}

/// The bootstrap of one database file.
#[derive(Debug, Clone, PartialEq, Eq)]
pub struct Bootstrap {
    pub phase: BootPhase,
    pub path: String,
}

/// A bootstrap as contracts see it.
pub struct BootView {
    pub phase: BootPhaseView,
    pub path: Seq<char>,
}

impl View for Bootstrap {
    type V = BootView;

    open spec fn view(&self) -> BootView {
        BootView { phase: self.phase@, path: self.path@ }
    }
}

/// Whether a reply to the removal lets the bootstrap go on: the file was
/// removed, or there was none.
pub open spec fn removal_passed(reply: ReplyView) -> bool {
    match reply {
        ReplyView::Done => true,
        ReplyView::Failed { not_found, .. } => not_found,
    }
}

impl BootView {
    /// A bootstrap begins by removing the file.
    pub open spec fn start(path: Seq<char>) -> BootView {
        BootView { phase: BootPhaseView::Removing, path }
    }

    /// Whether the bootstrap has ended, well or not.
    pub open spec fn ended(self) -> bool {
        self.phase is Ready || self.phase is Failed
    }

    /// What the driver has to do in this phase.
    pub open spec fn action(self) -> ActionView {
        match self.phase {
            BootPhaseView::Removing => ActionView::RemoveFile,
            BootPhaseView::Opening => ActionView::Open,
            BootPhaseView::Journaling => ActionView::Pragma(Pragma::JournalModeWal),
            BootPhaseView::CreatingTable => ActionView::Execute(Statement::CreateTable),
            BootPhaseView::CreatingIndex => ActionView::Execute(Statement::CreateIndex),
            BootPhaseView::Ready => ActionView::Finish,
            BootPhaseView::Failed(e) => ActionView::Abort(e),
        }
    }

    /// The phase that follows this one when its action was carried out.
    pub open spec fn advanced(self) -> BootPhaseView {
        match self.phase {
            BootPhaseView::Removing => BootPhaseView::Opening,
            BootPhaseView::Opening => BootPhaseView::Journaling,
            BootPhaseView::Journaling => BootPhaseView::CreatingTable,
            BootPhaseView::CreatingTable => BootPhaseView::CreatingIndex,
            BootPhaseView::CreatingIndex => BootPhaseView::Ready,
            BootPhaseView::Ready => BootPhaseView::Ready,
            BootPhaseView::Failed(e) => BootPhaseView::Failed(e),
        }
    }

    /// The failure that a refused action of this phase amounts to.
    pub open spec fn failure(self, reason: Seq<char>) -> ErrorView {
        if self.phase is Removing {
            ErrorView::Removal { path: self.path, reason }
        } else {
            ErrorView::Schema { path: self.path, reason }
        }
    }

    /// The bootstrap after the reply to the action of this phase.
    ///
    /// A bootstrap that has ended stays as it is. A missing file is no
    /// failure of the removal; every other failure ends the bootstrap.
    pub open spec fn next(self, reply: ReplyView) -> BootView {
        if self.ended() {
            self
        } else {
            match reply {
                ReplyView::Done => BootView { phase: self.advanced(), path: self.path },
                ReplyView::Failed { not_found, reason } => {
                    if self.phase is Removing && not_found {
                        BootView { phase: self.advanced(), path: self.path }
                    } else {
                        BootView {
                            phase: BootPhaseView::Failed(self.failure(reason)),
                            path: self.path,
                        }
                    }
                },
            }
        }
    }

    /// The number of actions that are still to be carried out before the
    /// bootstrap is ready.
    pub open spec fn steps_left(self) -> nat {
        match self.phase {
            BootPhaseView::Removing => 5,
            BootPhaseView::Opening => 4,
            BootPhaseView::Journaling => 3,
            BootPhaseView::CreatingTable => 2,
            BootPhaseView::CreatingIndex => 1,
            BootPhaseView::Ready => 0,
            BootPhaseView::Failed(_) => 0,
        }
    }

    /// The bootstrap after a sequence of replies, oldest first.
    pub open spec fn run(self, replies: Seq<ReplyView>) -> BootView
        decreases replies.len(),
    {
        if replies.len() == 0 {
            self
        } else {
            self.run(replies.drop_last()).next(replies.last())
        }
    }
}

impl Bootstrap {
    /// Begins the bootstrap of the file at `path`.
    pub fn start(path: &str) -> (b: Bootstrap)
        ensures
            b@ == BootView::start(path@),
    {
        Bootstrap { phase: BootPhase::Removing, path: String::from_str(path) }
    }

    /// Whether the bootstrap has ended, well or not.
    pub fn ended(&self) -> (r: bool)
        ensures
            r == self@.ended(),
    {
        match &self.phase {
            BootPhase::Ready => true,
            BootPhase::Failed(_) => true,
            _ => false,
        }
    }

    /// What the driver has to do now.
    pub fn action(&self) -> (a: Action)
        ensures
            a@ == self@.action(),
    {
        match &self.phase {
            BootPhase::Removing => Action::RemoveFile,
            BootPhase::Opening => Action::Open,
            BootPhase::Journaling => Action::Pragma(Pragma::JournalModeWal),
            BootPhase::CreatingTable => Action::Execute(Statement::CreateTable),
            BootPhase::CreatingIndex => Action::Execute(Statement::CreateIndex),
            BootPhase::Ready => Action::Finish,
            BootPhase::Failed(e) => Action::Abort(e.duplicate()),
        }
    }

    /// Takes the reply to the current action and moves on.
    pub fn step(self, reply: Reply) -> (b: Bootstrap)
        ensures
            b@ == self@.next(reply@),
    {
        let path = self.path;
        let (removing, advanced) = match self.phase {
            BootPhase::Removing => (true, BootPhase::Opening),
            BootPhase::Opening => (false, BootPhase::Journaling),
            BootPhase::Journaling => (false, BootPhase::CreatingTable),
            BootPhase::CreatingTable => (false, BootPhase::CreatingIndex),
            BootPhase::CreatingIndex => (false, BootPhase::Ready),
            BootPhase::Ready => { return Bootstrap { phase: BootPhase::Ready, path }; },
            BootPhase::Failed(e) => { return Bootstrap { phase: BootPhase::Failed(e), path }; },
        };
        match reply {
            Reply::Done => Bootstrap { phase: advanced, path },
            Reply::Failed { not_found, reason } => {
                if removing && not_found {
                    Bootstrap { phase: advanced, path }
                } else if removing {
                    let e = BenchError::Removal { path: path.clone(), reason };
                    Bootstrap { phase: BootPhase::Failed(e), path }
                } else {
                    let e = BenchError::Schema { path: path.clone(), reason };
                    Bootstrap { phase: BootPhase::Failed(e), path }
                }
            },
        }
    }
}

/// A bootstrap asks for the removal of the file before anything else, and
/// it leaves that phase with the first reply. Where that reply is a failure
/// for another reason than a missing file, the bootstrap has failed on the
/// removal and stays so, whatever follows: the table is never created in a
/// file that an earlier run has left.
pub proof fn lemma_removal_comes_first(path: Seq<char>, replies: Seq<ReplyView>)
    ensures
        BootView::start(path).action() == ActionView::RemoveFile,
        BootView::start(path).run(replies).path == path,
        BootView::start(path).run(replies).phase is Removing <==> replies.len() == 0,
        replies.len() > 0 && !removal_passed(replies[0]) ==> BootView::start(path).run(
            replies,
        ).phase == BootPhaseView::Failed(
            ErrorView::Removal { path, reason: replies[0]->reason },
        ),
    decreases replies.len(),
{
    if replies.len() > 0 {
        let head = replies.drop_last();
        lemma_removal_comes_first(path, head);
        if head.len() > 0 {
            assert(head[0] == replies[0]);
        }
    }
}

/// When nothing fails, or only the removal for want of a file, the
/// bootstrap asks in turn for the removal, the connection, write-ahead
/// logging, the table and its unique index, and is then ready.
pub proof fn lemma_clean_bootstrap(path: Seq<char>, replies: Seq<ReplyView>)
    requires
        replies.len() == 5,
        removal_passed(replies[0]),
        forall|i: int| 1 <= i < 5 ==> replies[i] is Done,
    ensures
        BootView::start(path).run(replies.take(0)).action() == ActionView::RemoveFile,
        BootView::start(path).run(replies.take(1)).action() == ActionView::Open,
        BootView::start(path).run(replies.take(2)).action() == ActionView::Pragma(
            Pragma::JournalModeWal,
        ),
        BootView::start(path).run(replies.take(3)).action() == ActionView::Execute(
            Statement::CreateTable,
        ),
        BootView::start(path).run(replies.take(4)).action() == ActionView::Execute(
            Statement::CreateIndex,
        ),
        BootView::start(path).run(replies) == (BootView { phase: BootPhaseView::Ready, path }),
{
    let s = BootView::start(path);
    let r0 = replies.take(0);
    let r1 = replies.take(1);
    let r2 = replies.take(2);
    let r3 = replies.take(3);
    let r4 = replies.take(4);
    assert(r1.drop_last() =~= r0 && r1.last() == replies[0]);
    assert(r2.drop_last() =~= r1 && r2.last() == replies[1]);
    assert(r3.drop_last() =~= r2 && r3.last() == replies[2]);
    assert(r4.drop_last() =~= r3 && r4.last() == replies[3]);
    assert(replies.drop_last() =~= r4 && replies.last() == replies[4]);
    assert(s.run(r0) == s);
    assert(s.run(r1).phase == BootPhaseView::Opening);
    assert(s.run(r2).phase == BootPhaseView::Journaling);
    assert(s.run(r3).phase == BootPhaseView::CreatingTable);
    assert(s.run(r4).phase == BootPhaseView::CreatingIndex);
}

/// A bootstrap takes five actions at most: every reply brings it one action
/// nearer to its end, and after five replies it has ended, whatever they
/// were.
pub proof fn lemma_bootstrap_ends(path: Seq<char>, replies: Seq<ReplyView>)
    ensures
        BootView::start(path).run(replies).steps_left() + replies.len() <= 5 || BootView::start(
            path,
        ).run(replies).ended(),
        replies.len() >= 5 ==> BootView::start(path).run(replies).ended(),
    decreases replies.len(),
{
    if replies.len() > 0 {
        lemma_bootstrap_ends(path, replies.drop_last());
    }
}

/// Every failure but a missing file at the removal ends the bootstrap, with
/// a failure that names the file; after that no reply changes anything.
pub proof fn lemma_failure_is_final(b: BootView, reason: Seq<char>, not_found: bool, later: ReplyView)
    requires
        !b.ended(),
        !(b.phase is Removing && not_found),
    ensures
        b.next(ReplyView::Failed { not_found, reason }).phase == BootPhaseView::Failed(
            b.failure(reason),
        ),
        b.next(ReplyView::Failed { not_found, reason }).action() == ActionView::Abort(
            b.failure(reason),
        ),
        b.next(ReplyView::Failed { not_found, reason }).next(later) == b.next(
            ReplyView::Failed { not_found, reason },
        ),
{
}

} // verus!
