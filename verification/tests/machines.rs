use insert_bench::bootstrap::{BootPhase, Bootstrap};
use insert_bench::error::BenchError;
use insert_bench::protocol::{default_path, Action, Pragma, Reply, Statement};
use insert_bench::record::User;
use insert_bench::worker::Worker;

fn refused(reason: &str) -> Reply {
    Reply::Failed { not_found: false, reason: reason.to_string() }
}

fn missing() -> Reply {
    Reply::Failed { not_found: true, reason: "No such file or directory (os error 2)".to_string() }
}

#[test]
fn the_default_path() {
    assert_eq!(default_path(), "db.sqlite");
}

#[test]
fn pragmas_have_name_and_value() {
    assert_eq!(Pragma::JournalModeWal.name(), "journal_mode");
    assert_eq!(Pragma::JournalModeWal.value(), "WAL");
    assert_eq!(Pragma::SynchronousNormal.name(), "synchronous");
    assert_eq!(Pragma::SynchronousNormal.value(), "NORMAL");
}

#[test]
fn statements_have_their_sql() {
    assert_eq!(
        Statement::CreateTable.sql(),
        "CREATE TABLE users(id BLOB PRIMARY KEY NOT NULL, created_at TEXT NOT NULL, username TEXT NOT NULL)"
    );
    assert_eq!(
        Statement::CreateIndex.sql(),
        "CREATE UNIQUE INDEX idx_users_on_id ON users(id)"
    );
    assert_eq!(
        Statement::InsertUser.sql(),
        "INSERT INTO users(id, created_at, username) VALUES (?, ?, ?)"
    );
    assert_eq!(Statement::CountUsers.sql(), "SELECT count(*) from users");
}

#[test]
fn bootstrap_begins_with_the_removal() {
    let b = Bootstrap::start("db.sqlite");
    assert_eq!(b.phase, BootPhase::Removing);
    assert_eq!(b.path, "db.sqlite");
    assert_eq!(b.action(), Action::RemoveFile);
    assert!(!b.ended());
}

#[test]
fn bootstrap_goes_through_its_steps() {
    let b = Bootstrap::start("x.db");
    let b = b.step(Reply::Done);
    assert_eq!(b.action(), Action::Open);
    let b = b.step(Reply::Done);
    assert_eq!(b.action(), Action::Pragma(Pragma::JournalModeWal));
    let b = b.step(Reply::Done);
    assert_eq!(b.action(), Action::Execute(Statement::CreateTable));
    let b = b.step(Reply::Done);
    assert_eq!(b.action(), Action::Execute(Statement::CreateIndex));
    assert!(!b.ended());
    let b = b.step(Reply::Done);
    assert_eq!(b.action(), Action::Finish);
    assert_eq!(b.phase, BootPhase::Ready);
    assert_eq!(b.path, "x.db");
    assert!(b.ended());
}

#[test]
fn missing_file_is_no_failure_of_the_removal() {
    let b = Bootstrap::start("db.sqlite").step(missing());
    assert_eq!(b.phase, BootPhase::Opening);
    assert_eq!(b.action(), Action::Open);
}

#[test]
fn other_failure_of_the_removal_ends_the_bootstrap() {
    let b = Bootstrap::start("db.sqlite").step(refused("Permission denied (os error 13)"));
    let e = BenchError::Removal {
        path: "db.sqlite".to_string(),
        reason: "Permission denied (os error 13)".to_string(),
    };
    assert_eq!(b.phase, BootPhase::Failed(e.clone()));
    assert_eq!(b.action(), Action::Abort(e));
    assert!(b.ended());
}

#[test]
fn missing_counts_only_for_the_removal() {
    let b = Bootstrap::start("db.sqlite").step(Reply::Done).step(missing());
    let e = BenchError::Schema {
        path: "db.sqlite".to_string(),
        reason: "No such file or directory (os error 2)".to_string(),
    };
    assert_eq!(b.action(), Action::Abort(e));
}

#[test]
fn failure_of_any_later_step_is_a_schema_failure() {
    for steps in 1..5 {
        let mut b = Bootstrap::start("db.sqlite");
        for _ in 0..steps {
            b = b.step(Reply::Done);
        }
        let b = b.step(refused("table users already exists"));
        let e = BenchError::Schema {
            path: "db.sqlite".to_string(),
            reason: "table users already exists".to_string(),
        };
        assert_eq!(b.action(), Action::Abort(e));
    }
}

#[test]
fn ended_bootstrap_stays_as_it_is() {
    let mut ready = Bootstrap::start("db.sqlite");
    for _ in 0..5 {
        ready = ready.step(Reply::Done);
    }
    let again = ready.clone().step(refused("late")).step(Reply::Done);
    assert_eq!(again, ready);
    let failed = Bootstrap::start("db.sqlite").step(refused("first"));
    let again = failed.clone().step(Reply::Done).step(refused("second"));
    assert_eq!(again, failed);
}

fn is_insert(a: &Action) -> bool {
    matches!(a, Action::Insert(_))
}

#[test]
fn worker_sets_up_before_it_inserts() {
    let w = Worker::start(3);
    assert_eq!(w.target(), 3);
    assert_eq!(w.done(), 0);
    assert_eq!(w.action(), Action::Open);
    let w = w.step(Reply::Done);
    assert_eq!(w.action(), Action::Pragma(Pragma::SynchronousNormal));
    assert_eq!(w.done(), 0);
    let w = w.step(Reply::Done);
    assert!(is_insert(&w.action()));
    assert_eq!(w.done(), 0);
    assert!(!w.ended());
}

#[test]
fn worker_makes_exactly_its_inserts() {
    for target in [0u64, 1, 2, 7, 1000] {
        let mut w = Worker::start(target).step(Reply::Done).step(Reply::Done);
        let mut inserts = 0u64;
        while is_insert(&w.action()) {
            inserts += 1;
            w = w.step(Reply::Done);
            assert_eq!(w.done(), inserts);
        }
        assert_eq!(inserts, target);
        assert_eq!(w.action(), Action::Finish);
        assert!(w.ended());
        assert_eq!(w.done(), target);
        assert_eq!(w.failure(), None);
    }
}

#[test]
fn worker_without_inserts_finishes_after_setup() {
    let w = Worker::start(0).step(Reply::Done).step(Reply::Done);
    assert_eq!(w.action(), Action::Finish);
    assert!(w.ended());
    assert_eq!(w.done(), 0);
}

#[test]
fn worker_inserts_generated_records() {
    let w = Worker::start(2).step(Reply::Done).step(Reply::Done);
    let first = match w.action() {
        Action::Insert(u) => u,
        other => panic!("unexpected action {:?}", other),
    };
    let w = w.step(Reply::Done);
    let second = match w.action() {
        Action::Insert(u) => u,
        other => panic!("unexpected action {:?}", other),
    };
    assert_eq!(first.username, "Someone");
    assert_eq!(second.username, "Someone");
    assert_ne!(first.id, second.id);
}

#[test]
fn failed_insert_ends_the_worker() {
    let w = Worker::start(5).step(Reply::Done).step(Reply::Done).step(Reply::Done);
    assert_eq!(w.done(), 1);
    let w = w.step(refused("UNIQUE constraint failed: users.id"));
    let e = BenchError::Insert { reason: "UNIQUE constraint failed: users.id".to_string() };
    assert!(w.ended());
    assert_eq!(w.action(), Action::Abort(e.clone()));
    assert_eq!(w.failure(), Some(e.clone()));
    assert_eq!(w.done(), 1);
    let w = w.step(Reply::Done).step(Reply::Done);
    assert_eq!(w.action(), Action::Abort(e));
    assert_eq!(w.done(), 1);
}

#[test]
fn failed_setup_ends_the_worker() {
    let w = Worker::start(5).step(refused("unable to open database file"));
    let e = BenchError::Insert { reason: "unable to open database file".to_string() };
    assert_eq!(w.action(), Action::Abort(e));
    let w = Worker::start(5).step(Reply::Done).step(missing());
    assert!(w.ended());
    assert_eq!(w.done(), 0);
}

#[test]
fn finished_worker_stays_finished() {
    let w = Worker::start(1).step(Reply::Done).step(Reply::Done).step(Reply::Done);
    assert_eq!(w.action(), Action::Finish);
    let w = w.step(refused("late")).step(Reply::Done);
    assert_eq!(w.action(), Action::Finish);
    assert_eq!(w.done(), 1);
    assert_eq!(w.failure(), None);
}

#[test]
fn generated_record_has_the_marks_of_a_random_identifier() {
    for _ in 0..64 {
        let u = User::gen();
        assert_eq!((u.id >> 76) & 0xf, 4);
        assert_eq!((u.id >> 62) & 0x3, 2);
        assert_eq!(u.username, "Someone");
        assert!(u.created_at.len() >= 25);
        assert!(u.created_at.ends_with("+00:00"));
    }
}

#[test]
fn generated_identifiers_differ() {
    let a = User::gen();
    let b = User::gen();
    assert_ne!(a.id, b.id);
}

#[test]
fn params_write_the_identifier_in_canonical_form() {
    let u = User {
        id: 0xa1a2a3a4b1b2c1c2d1d2d3d4d5d6d7d8,
        created_at: "2024-05-06T07:08:09.123456789+00:00".to_string(),
        username: "Someone".to_string(),
    };
    let p = u.params();
    assert_eq!(p.0, "a1a2a3a4-b1b2-c1c2-d1d2-d3d4d5d6d7d8");
    assert_eq!(p.1, "2024-05-06T07:08:09.123456789+00:00");
    assert_eq!(p.2, "Someone");
}

#[test]
fn params_keep_leading_zeros() {
    let u = User { id: 0, created_at: String::new(), username: String::new() };
    assert_eq!(u.params().0, "00000000-0000-0000-0000-000000000000");
    let u = User { id: 0x1f, created_at: String::new(), username: "x".to_string() };
    assert_eq!(u.params().0, "00000000-0000-0000-0000-00000000001f");
    let u = User { id: u128::MAX, created_at: String::new(), username: String::new() };
    assert_eq!(u.params().0, "ffffffff-ffff-ffff-ffff-ffffffffffff");
}

#[test]
fn params_of_a_generated_record() {
    let u = User::gen();
    let p = u.params();
    assert_eq!(p.0.len(), 36);
    assert_eq!(&p.0[14..15], "4");
    assert_eq!(p.0, format!(
        "{:08x}-{:04x}-{:04x}-{:04x}-{:012x}",
        u.id >> 96,
        (u.id >> 80) & 0xffff,
        (u.id >> 64) & 0xffff,
        (u.id >> 48) & 0xffff,
        u.id & 0xffff_ffff_ffff
    ));
    assert_eq!(p.1, u.created_at);
    assert_eq!(p.2, "Someone");
}
