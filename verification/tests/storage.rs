use insert_bench::bootstrap::Bootstrap;
use insert_bench::error::BenchError;
use insert_bench::plan::Plan;
use insert_bench::protocol::{Action, Reply, Statement};
use insert_bench::record::User;
use insert_bench::report::count_line;
use insert_bench::run::conclude;
use insert_bench::throughput::{throughput, Elapsed};
use insert_bench::worker::Worker;
use rusqlite::Connection;

/// A directory of its own for one test, removed when the test is over, and
/// the path of a database file in it.
fn scratch() -> (tempfile::TempDir, String) {
    let dir = tempfile::tempdir().expect("a scratch directory");
    let path = dir.path().join("db.sqlite").to_str().expect("a plain path").to_string();
    (dir, path)
}

fn remove(path: &str) -> std::io::Result<()> {
    tempfile::TempPath::try_from_path(path)?.close()
}

fn engine(result: rusqlite::Result<usize>) -> Reply {
    match result {
        Ok(_) => Reply::Done,
        Err(e) => Reply::Failed { not_found: false, reason: e.to_string() },
    }
}

fn perform(action: &Action, path: &str, conn: &mut Option<Connection>) -> Reply {
    match action {
        Action::RemoveFile => match remove(path) {
            Ok(()) => Reply::Done,
            Err(e) => Reply::Failed {
                not_found: e.kind() == std::io::ErrorKind::NotFound,
                reason: e.to_string(),
            },
        },
        Action::Open => match Connection::open(path) {
            Ok(c) => {
                *conn = Some(c);
                Reply::Done
            }
            Err(e) => Reply::Failed { not_found: false, reason: e.to_string() },
        },
        Action::Pragma(p) => {
            let c = conn.as_ref().expect("a connection is open");
            engine(c.pragma_update(None, p.name(), p.value()).map(|_| 0))
        }
        Action::Execute(s) => {
            let c = conn.as_ref().expect("a connection is open");
            engine(c.execute(s.sql(), ()))
        }
        Action::Insert(u) => {
            let c = conn.as_ref().expect("a connection is open");
            let p = u.params();
            engine(c.execute(Statement::InsertUser.sql(), (&p.0, &p.1, &p.2)))
        }
        Action::Finish | Action::Abort(_) => panic!("nothing to perform"),
    }
}

fn bootstrap(path: &str) -> Result<(), BenchError> {
    let mut conn = None;
    let mut b = Bootstrap::start(path);
    loop {
        match b.action() {
            Action::Finish => return Ok(()),
            Action::Abort(e) => return Err(e),
            action => {
                let reply = perform(&action, path, &mut conn);
                b = b.step(reply);
            }
        }
    }
}

fn work(path: &str, inserts: u64) -> Option<BenchError> {
    let mut conn = None;
    let mut w = Worker::start(inserts);
    while !w.ended() {
        let reply = perform(&w.action(), path, &mut conn);
        w = w.step(reply);
    }
    w.failure()
}

fn count(path: &str) -> u64 {
    let conn = Connection::open(path).expect("the file opens");
    let mut stmt = conn.prepare(Statement::CountUsers.sql()).expect("the query compiles");
    let rows: i64 = stmt.query_row([], |row| row.get(0)).expect("the query runs");
    u64::try_from(rows).expect("a count is not negative")
}

#[test]
fn bootstrap_without_a_file_proceeds() {
    let (_dir, path) = scratch();
    assert_eq!(bootstrap(&path), Ok(()));
    assert_eq!(count(&path), 0);
}

#[test]
fn bootstrap_twice_starts_clean() {
    let (_dir, path) = scratch();
    assert_eq!(bootstrap(&path), Ok(()));
    assert_eq!(work(&path, 5), None);
    assert_eq!(count(&path), 5);
    assert_eq!(bootstrap(&path), Ok(()));
    assert_eq!(count(&path), 0);
    assert_eq!(work(&path, 3), None);
    assert_eq!(count(&path), 3);
}

#[test]
fn bootstrap_sets_the_journal_mode() {
    let (_dir, path) = scratch();
    assert_eq!(bootstrap(&path), Ok(()));
    let conn = Connection::open(&path).expect("the file opens");
    let mode: String = conn
        .query_row("PRAGMA journal_mode", [], |row| row.get(0))
        .expect("the pragma is read");
    assert_eq!(mode.to_lowercase(), "wal");
    drop(conn);
}

#[test]
fn bootstrap_creates_table_and_unique_index() {
    let (_dir, path) = scratch();
    assert_eq!(bootstrap(&path), Ok(()));
    let conn = Connection::open(&path).expect("the file opens");
    let tables: i64 = conn
        .query_row(
            "SELECT count(*) FROM sqlite_master WHERE type = 'table' AND name = 'users'",
            [],
            |row| row.get(0),
        )
        .expect("the catalogue is read");
    assert_eq!(tables, 1);
    let indexes: i64 = conn
        .query_row(
            "SELECT count(*) FROM sqlite_master WHERE type = 'index' AND name = 'idx_users_on_id'",
            [],
            |row| row.get(0),
        )
        .expect("the catalogue is read");
    assert_eq!(indexes, 1);
    drop(conn);
}

#[test]
fn bootstrap_fails_where_the_file_cannot_be_removed() {
    // A directory cannot be removed as a file, and it is there.
    let (dir, _) = scratch();
    let place = dir.path().to_str().expect("a plain path").to_string();
    let e = bootstrap(&place).expect_err("a directory is no database file");
    match &e {
        BenchError::Removal { path, reason } => {
            assert_eq!(path, &place);
            assert!(!reason.is_empty());
        }
        other => panic!("unexpected failure {:?}", other),
    }
    assert!(e.message().ends_with(&format!(": {}", place)));
}

#[test]
fn schema_failure_names_the_file() {
    let (dir, _) = scratch();
    let path = dir.path().join("none").join("db.sqlite").to_str().expect("a plain path").to_string();
    let e = bootstrap(&path).expect_err("the directory does not exist");
    match &e {
        BenchError::Schema { path: p, .. } => assert_eq!(p, &path),
        other => panic!("unexpected failure {:?}", other),
    }
    assert!(e.message().ends_with(&format!(": {}", path)));
}

#[test]
fn single_worker_inserts_a_thousand_rows() {
    let (_dir, path) = scratch();
    let plan = Plan::new(1, 1000).expect("the total fits");
    assert_eq!(plan.total_inserts(), 1000);
    assert_eq!(bootstrap(&path), Ok(()));
    let start = std::time::Instant::now();
    let mut outcomes = Vec::new();
    for _ in 0..plan.workers() {
        outcomes.push(work(&path, plan.inserts_per_thread()));
    }
    let took = start.elapsed();
    let elapsed = Elapsed::new(took.as_secs(), took.subsec_nanos()).expect("a duration");
    let rate = throughput(plan.total_inserts(), &elapsed).expect("some time has passed");
    assert!(rate > 0);
    let report = conclude(&plan, &outcomes, &elapsed).expect("no worker failed");
    assert!(report.starts_with("Benchmark: insert 1,000 records (1,000/1): "));
    assert!(report.ends_with(" inserts/s)"));
    assert_eq!(count(&path), 1000);
    assert_eq!(count_line(count(&path)), "num rows for `users` table: 1000");
}

#[test]
fn rows_are_workers_times_inserts() {
    let (_dir, path) = scratch();
    let plan = Plan::new(3, 40).expect("the total fits");
    assert_eq!(bootstrap(&path), Ok(()));
    for _ in 0..plan.workers() {
        assert_eq!(work(&path, plan.inserts_per_thread()), None);
    }
    assert_eq!(count(&path), plan.total_inserts());
    assert_eq!(count(&path), 120);
}

#[test]
fn run_without_inserts_leaves_no_rows() {
    let (_dir, path) = scratch();
    let plan = Plan::new(2, 0).expect("the total fits");
    assert_eq!(bootstrap(&path), Ok(()));
    for _ in 0..plan.workers() {
        assert_eq!(work(&path, plan.inserts_per_thread()), None);
    }
    assert_eq!(count(&path), 0);
    let elapsed = Elapsed::new(0, 1_500).expect("a duration");
    assert_eq!(throughput(plan.total_inserts(), &elapsed), Some(0));
}

#[test]
fn duplicate_identifier_is_refused() {
    let (_dir, path) = scratch();
    assert_eq!(bootstrap(&path), Ok(()));
    let mut conn = None;
    assert_eq!(perform(&Action::Open, &path, &mut conn), Reply::Done);
    let first = User {
        id: 0x0123456789ab4cde8f0123456789abcd,
        created_at: "2024-01-01T00:00:00+00:00".to_string(),
        username: "Someone".to_string(),
    };
    let second = User {
        id: first.id,
        created_at: "2024-01-02T00:00:00+00:00".to_string(),
        username: "Someone else".to_string(),
    };
    assert_eq!(perform(&Action::Insert(first), &path, &mut conn), Reply::Done);
    match perform(&Action::Insert(second), &path, &mut conn) {
        Reply::Failed { not_found, reason } => {
            assert!(!not_found);
            assert!(reason.contains("UNIQUE constraint failed"), "{}", reason);
        }
        Reply::Done => panic!("the duplicate was accepted"),
    }
    drop(conn);
    assert_eq!(count(&path), 1);
}

#[test]
fn refused_insert_ends_the_worker() {
    let (_dir, path) = scratch();
    assert_eq!(bootstrap(&path), Ok(()));
    let mut conn = None;
    let mut w = Worker::start(3);
    for _ in 0..2 {
        let reply = perform(&w.action(), &path, &mut conn);
        w = w.step(reply);
    }
    let record = match w.action() {
        Action::Insert(u) => u,
        other => panic!("unexpected action {:?}", other),
    };
    assert_eq!(perform(&Action::Insert(record.clone()), &path, &mut conn), Reply::Done);
    w = w.step(Reply::Done);
    assert_eq!(w.done(), 1);
    let reply = perform(&Action::Insert(record), &path, &mut conn);
    w = w.step(reply);
    assert!(w.ended());
    assert_eq!(w.done(), 1);
    match w.failure() {
        Some(BenchError::Insert { reason }) => assert!(reason.contains("UNIQUE")),
        other => panic!("unexpected outcome {:?}", other),
    }
    drop(conn);
    assert_eq!(count(&path), 1);
}

#[test]
fn worker_without_a_table_fails() {
    let (_dir, path) = scratch();
    match work(&path, 1) {
        Some(BenchError::Insert { reason }) => assert!(reason.contains("no such table")),
        other => panic!("unexpected outcome {:?}", other),
    }
}
