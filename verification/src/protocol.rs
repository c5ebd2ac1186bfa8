//! What passes between the library and the driver that does the outside
//! work: the library hands out an action, the driver performs it and hands
//! back a reply.

use crate::error::{BenchError, ErrorView};
use crate::record::{User, UserView};
use vstd::prelude::*;
use vstd::string::*;

verus! {

/// The path of the database file when none is configured.
pub fn default_path() -> (p: &'static str)
    ensures
        p@ == "db.sqlite"@,
{
    "db.sqlite"
}

/// A setting of the storage engine.
#[derive(Debug, Clone, Copy, PartialEq, Eq, Structural)]
pub enum Pragma {
    /// Journal through a write-ahead log.
    JournalModeWal,
    /// Do not wait for the disk on every write.
    SynchronousNormal,
}

impl Pragma {
    pub open spec fn name_text(self) -> Seq<char> {
        match self {
            Pragma::JournalModeWal => "journal_mode"@,
            Pragma::SynchronousNormal => "synchronous"@,
        }
    }

    pub open spec fn value_text(self) -> Seq<char> {
        match self {
            Pragma::JournalModeWal => "WAL"@,
            Pragma::SynchronousNormal => "NORMAL"@,
        }
    }

    /// The name of the setting.
    pub fn name(self) -> (s: &'static str)
        ensures
            s@ == self.name_text(),
    {
        match self {
            Pragma::JournalModeWal => "journal_mode",
            Pragma::SynchronousNormal => "synchronous",
        }
    }

    /// The value to give it.
    pub fn value(self) -> (s: &'static str)
        ensures
            s@ == self.value_text(),
    {
        match self {
            Pragma::JournalModeWal => "WAL",
            Pragma::SynchronousNormal => "NORMAL",
        }
    }
}

/// A statement of the benchmark.
#[derive(Debug, Clone, Copy, PartialEq, Eq, Structural)]
pub enum Statement {
    /// Creates the table: a primary key and two text columns, none nullable.
    CreateTable,
    /// Creates the unique index on the primary key.
    CreateIndex,
    /// Inserts one row; takes the three column values as parameters.
    InsertUser,
    /// Counts the rows of the table.
    CountUsers,
}

impl Statement {
    pub open spec fn sql_text(self) -> Seq<char> {
        match self {
            Statement::CreateTable =>
                "CREATE TABLE users(id BLOB PRIMARY KEY NOT NULL, created_at TEXT NOT NULL, username TEXT NOT NULL)"@,
            Statement::CreateIndex => "CREATE UNIQUE INDEX idx_users_on_id ON users(id)"@,
            Statement::InsertUser =>
                "INSERT INTO users(id, created_at, username) VALUES (?, ?, ?)"@,
            Statement::CountUsers => "SELECT count(*) from users"@,
        }
    }

    /// The statement's SQL.
    pub fn sql(self) -> (s: &'static str)
        ensures
            s@ == self.sql_text(),
    {
        match self {
            Statement::CreateTable =>
                "CREATE TABLE users(id BLOB PRIMARY KEY NOT NULL, created_at TEXT NOT NULL, username TEXT NOT NULL)",
            Statement::CreateIndex => "CREATE UNIQUE INDEX idx_users_on_id ON users(id)",
            Statement::InsertUser => "INSERT INTO users(id, created_at, username) VALUES (?, ?, ?)",
            Statement::CountUsers => "SELECT count(*) from users",
        }
    }
}

/// What the driver reports back after an action.
#[derive(Debug, Clone, PartialEq, Eq)]
pub enum Reply {
    /// The action was carried out.
    Done,
    /// It was not. `not_found` says that the cause was a file that does not
    /// exist; `reason` is the outside error's own text.
    Failed { not_found: bool, reason: String },
}

/// A reply as contracts see it.
pub enum ReplyView {
    Done,
    Failed { not_found: bool, reason: Seq<char> },
}

impl View for Reply {
    type V = ReplyView;

    open spec fn view(&self) -> ReplyView {
        match *self {
            Reply::Done => ReplyView::Done,
            Reply::Failed { not_found, reason } => ReplyView::Failed { not_found, reason: reason@ },
        }
    }
}

/// What the driver has to do next.
#[derive(Debug, Clone, PartialEq, Eq)]
pub enum Action {
    /// Delete the database file.
    RemoveFile,
    /// Open a connection to the database file.
    Open,
    /// Apply a setting on the open connection.
    Pragma(Pragma),
    /// Run a statement that takes no parameters.
    Execute(Statement),
    /// Insert this record with `Statement::InsertUser`.
    Insert(User),
    /// Nothing is left to do; close the connection.
    Finish,
    /// Stop the run with this failure.
    Abort(BenchError),
}

/// An action as contracts see it.
pub enum ActionView {
    RemoveFile,
    Open,
    Pragma(Pragma),
    Execute(Statement),
    Insert(UserView),
    Finish,
    Abort(ErrorView),
}

impl View for Action {
    type V = ActionView;

    open spec fn view(&self) -> ActionView {
        match *self {
            Action::RemoveFile => ActionView::RemoveFile,
            Action::Open => ActionView::Open,
            Action::Pragma(p) => ActionView::Pragma(p),
            Action::Execute(s) => ActionView::Execute(s),
            Action::Insert(u) => ActionView::Insert(u@),
            Action::Finish => ActionView::Finish,
            Action::Abort(e) => ActionView::Abort(e@),
        }
    }
}

} // verus!
