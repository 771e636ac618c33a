use gworkerd::clock::Timestamp;
use gworkerd::record_backend::{
    MysqlConfig, MysqlRepository, QueryOutcome, RecordRepositoryError, Row,
};
use gworkerd::result_backend::{self, MysqlBackend, ResultBackendError};
use gworkerd::worker::Record;

fn record(id: &str) -> Record {
    Record {
        id: String::from(id),
        command: String::from("ls"),
        cwd: String::from("/tmp"),
        status: 0,
        stderr: String::new(),
        stdout: String::from("a\nb\n"),
        started_at: Timestamp::from_unix(1451703845, 999).unwrap(),
        finished_at: Timestamp::from_unix(1451703905, 0).unwrap(),
    }
}

fn row() -> Row {
    Row {
        id: String::from("11D8EEBC58E0A7D796690800200C9A66"),
        command: String::from("ls"),
        cwd: String::from("/tmp"),
        status: 7,
        stderr: String::from("e"),
        stdout: String::from("o"),
        started_at: String::from("2016-01-02 03:04:05"),
        finished_at: String::from("2016-01-02 03:05:05"),
    }
}

#[test]
fn store_params_reorder_the_id_and_write_the_times() {
    let p = MysqlRepository::store_params(&record("58e0a7d7-eebc-11d8-9669-0800200c9a66"));
    assert_eq!(p.id, "11d8eebc58e0a7d796690800200c9a66");
    assert_eq!(p.command, "ls");
    assert_eq!(p.cwd, "/tmp");
    assert_eq!(p.status, 0);
    assert_eq!(p.stderr, "");
    assert_eq!(p.stdout, "a\nb\n");
    assert_eq!(p.started_at, "2016-01-02 03:04:05");
    assert_eq!(p.finished_at, "2016-01-02 03:05:05");
}

#[test]
fn result_backend_store_params() {
    let p = MysqlBackend::store_params(&record("58e0a7d7-eebc-11d8-9669-0800200c9a66"));
    assert_eq!(p.id, "11d8eebc58e0a7d796690800200c9a66");
    assert_eq!(p.command, "ls");
    assert_eq!(p.stdout, "a\nb\n");
}

#[test]
fn result_backend_store_outcome() {
    assert_eq!(MysqlBackend::store_outcome(QueryOutcome::Done(())), Ok(()));
    assert_eq!(
        MysqlBackend::store_outcome(QueryOutcome::PrepareFailed),
        Err(ResultBackendError::CannotStoreRecord)
    );
    assert_eq!(
        MysqlBackend::store_outcome(QueryOutcome::ExecuteFailed),
        Err(ResultBackendError::CannotStoreRecord)
    );
}

#[test]
fn store_outcome_maps_failures() {
    assert_eq!(MysqlRepository::store_outcome(QueryOutcome::Done(())), Ok(()));
    assert_eq!(
        MysqlRepository::store_outcome(QueryOutcome::PrepareFailed),
        Err(RecordRepositoryError::CannotStoreRecord)
    );
    assert_eq!(
        MysqlRepository::store_outcome(QueryOutcome::ExecuteFailed),
        Err(RecordRepositoryError::CannotStoreRecord)
    );
}

#[test]
fn fetch_limit_outcome_maps_failures() {
    assert_eq!(
        MysqlRepository::fetch_limit_outcome(QueryOutcome::PrepareFailed).err(),
        Some(RecordRepositoryError::CannotFetchRecord)
    );
    assert_eq!(
        MysqlRepository::fetch_limit_outcome(QueryOutcome::ExecuteFailed).err(),
        Some(RecordRepositoryError::CannotDenormalizeRecord)
    );
    let page = MysqlRepository::fetch_limit_outcome(QueryOutcome::Done(vec![record("a"), record("b")])).unwrap();
    assert_eq!(page.len(), 2);
    assert_eq!(page[1].id, "b");
}

#[test]
fn fetch_record_outcome_needs_exactly_one_row() {
    assert_eq!(
        MysqlRepository::fetch_record_outcome(QueryOutcome::PrepareFailed).err(),
        Some(RecordRepositoryError::CannotFetchRecord)
    );
    assert_eq!(
        MysqlRepository::fetch_record_outcome(QueryOutcome::ExecuteFailed).err(),
        Some(RecordRepositoryError::CannotDenormalizeRecord)
    );
    assert_eq!(
        MysqlRepository::fetch_record_outcome(QueryOutcome::Done(vec![])).err(),
        Some(RecordRepositoryError::RecordNotFound)
    );
    assert_eq!(
        MysqlRepository::fetch_record_outcome(QueryOutcome::Done(vec![record("a"), record("b")])).err(),
        Some(RecordRepositoryError::RecordNotFound)
    );
    let one = MysqlRepository::fetch_record_outcome(QueryOutcome::Done(vec![record("only")])).unwrap();
    assert_eq!(one.id, "only");
}

#[test]
fn connection_options_give_every_field() {
    let config = MysqlConfig {
        address: String::from("127.0.0.1"),
        username: String::from("root"),
        password: String::from("secret"),
        database: String::from("worker_results"),
    };
    let o = config.connection_options();
    assert_eq!(o.tcp_addr.as_deref(), Some("127.0.0.1"));
    assert_eq!(o.user.as_deref(), Some("root"));
    assert_eq!(o.pass.as_deref(), Some("secret"));
    assert_eq!(o.db_name.as_deref(), Some("worker_results"));
    let c2 = result_backend::MysqlConfig {
        address: String::from("db"),
        username: String::from("u"),
        password: String::from("p"),
        database: String::from("d"),
    };
    assert_eq!(c2.connection_options().db_name.as_deref(), Some("d"));
}

#[test]
fn a_row_reads_back_as_a_record() {
    let r = MysqlRepository::row_to_record(row());
    assert_eq!(r.id, "58E0A7D7-EEBC-11D8-9669-0800200C9A66");
    assert_eq!(r.command, "ls");
    assert_eq!(r.cwd, "/tmp");
    assert_eq!(r.status, 7);
    assert_eq!(r.stderr, "e");
    assert_eq!(r.stdout, "o");
    assert_eq!(r.started_at.secs(), 1451703845);
    assert_eq!(r.finished_at.secs(), 1451703905);
}

#[test]
fn unreadable_rows_are_told_apart() {
    assert!(MysqlRepository::read_row(row()).is_some());
    let mut bad_time = row();
    bad_time.finished_at = String::from("yesterday");
    assert!(MysqlRepository::read_row(bad_time).is_none());
    let mut bad_id = row();
    bad_id.id = String::from("1234");
    assert!(MysqlRepository::read_row(bad_id).is_none());
}

#[test]
fn a_stored_record_reads_back() {
    let original = record("58e0a7d7-eebc-11d8-9669-0800200c9a66");
    let p = MysqlRepository::store_params(&original);
    let back = MysqlRepository::row_to_record(Row {
        id: p.id,
        command: p.command,
        cwd: p.cwd,
        status: p.status,
        stderr: p.stderr,
        stdout: p.stdout,
        started_at: p.started_at,
        finished_at: p.finished_at,
    });
    assert_eq!(back.id, original.id);
    assert_eq!(back.stdout, original.stdout);
    assert_eq!(back.started_at.secs(), original.started_at.secs());
    assert_eq!(back.started_at.nanos(), 0);
}

#[test]
fn a_stored_record_reads_back_from_upper_case_hex() {
    let original = record("58e0a7d7-eebc-11d8-9669-0800200c9a66");
    let p = MysqlRepository::store_params(&original);
    let row = Row {
        id: p.id.to_uppercase(),
        command: p.command,
        cwd: p.cwd,
        status: p.status,
        stderr: p.stderr,
        stdout: p.stdout,
        started_at: p.started_at,
        finished_at: p.finished_at,
    };
    let back = MysqlRepository::read_row(row).unwrap();
    assert_eq!(back.id, "58E0A7D7-EEBC-11D8-9669-0800200C9A66");
    assert_eq!(back.id.to_lowercase(), original.id);
    assert_eq!(back.command, original.command);
    assert_eq!(back.status, original.status);
    assert_eq!(back.finished_at.secs(), original.finished_at.secs());
}
