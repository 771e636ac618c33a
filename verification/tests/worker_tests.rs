use gworkerd::clock::Timestamp;
use gworkerd::processor::{CommandOutcome, Processor};
use gworkerd::worker::{Item, Period, Request, Response};

fn period() -> Period {
    Period {
        started_at: Timestamp::from_unix(1451703845, 0).unwrap(),
        finished_at: Timestamp::from_unix(1451703847, 500).unwrap(),
    }
}

fn request() -> Request {
    Request {
        id: String::from("d334e01e-14cf-4247-b39a-7c9f417ad64b"),
        command: String::from("mysqldump --all-databases"),
        cwd: String::from("/your/directory"),
    }
}

#[test]
fn item_to_record_copies_every_field() {
    let item = Item {
        request: request(),
        response: Response {
            status: 3,
            stderr: String::from("warn"),
            stdout: String::from("dump"),
            period: period(),
        },
    };
    let record = item.to_record();
    assert_eq!(record.id, "d334e01e-14cf-4247-b39a-7c9f417ad64b");
    assert_eq!(record.command, "mysqldump --all-databases");
    assert_eq!(record.cwd, "/your/directory");
    assert_eq!(record.status, 3);
    assert_eq!(record.stderr, "warn");
    assert_eq!(record.stdout, "dump");
    assert_eq!(record.started_at.secs(), 1451703845);
    assert_eq!(record.finished_at.secs(), 1451703847);
    assert_eq!(record.finished_at.nanos(), 500);
}

#[test]
fn invocation_runs_the_command_in_a_shell() {
    let inv = Processor::invocation(&request());
    assert_eq!(inv.program, "sh");
    assert_eq!(inv.args, vec![String::from("-c"), String::from("mysqldump --all-databases")]);
    assert_eq!(inv.cwd, "/your/directory");
}

#[test]
fn response_of_a_command_that_did_not_start() {
    let r = Processor::response(CommandOutcome::NotStarted, period());
    assert_eq!(r.status, 1);
    assert_eq!(r.stderr, "could not execute");
    assert_eq!(r.stdout, "");
    assert_eq!(r.period.started_at.secs(), 1451703845);
}

#[test]
fn response_of_a_command_that_ran() {
    let outcome = CommandOutcome::Ran {
        status: Some(2),
        stdout: "héllo\n".as_bytes().to_vec(),
        stderr: b"oops".to_vec(),
    };
    let r = Processor::response(outcome, period());
    assert_eq!(r.status, 2);
    assert_eq!(r.stdout, "héllo\n");
    assert_eq!(r.stderr, "oops");
    assert_eq!(r.period.finished_at.nanos(), 500);
}

#[test]
fn timestamps_in_text() {
    let t = Timestamp::from_unix(1451703845, 0).unwrap();
    assert_eq!(t.to_db_text(), "2016-01-02 03:04:05");
    assert_eq!(t.to_rfc3339(), "2016-01-02T03:04:05+00:00");
    let back = Timestamp::from_db_text("2016-01-02 03:04:05").unwrap();
    assert_eq!(back.secs(), 1451703845);
    assert_eq!(back.nanos(), 0);
    assert!(Timestamp::from_db_text("2016-01-02T03:04:05").is_none());
    assert!(Timestamp::from_unix(i64::MAX, 0).is_none());
    assert!(Timestamp::from_unix(0, 2_000_000_000).is_none());
}

#[test]
fn now_is_after_the_epoch() {
    let now = Timestamp::now().unwrap();
    assert!(now.secs() > 1_600_000_000);
    assert!(now.nanos() < 1_000_000_000);
}

#[test]
fn timestamps_cover_chrono_range_and_leap_seconds() {
    assert!(Timestamp::from_unix(-8_334_601_228_800, 0).is_some());
    assert!(Timestamp::from_unix(-8_334_601_228_801, 999_999_999).is_none());
    assert!(Timestamp::from_unix(8_210_266_876_799, 999_999_999).is_some());
    assert!(Timestamp::from_unix(8_210_266_876_800, 0).is_none());
    assert!(Timestamp::from_unix(59, 1_500_000_000).is_some());
    assert!(Timestamp::from_unix(58, 1_500_000_000).is_none());
    assert!(Timestamp::from_unix(-1, 1_000_000_000).is_some());
    assert!(Timestamp::from_unix(-1, 2_000_000_000).is_none());
    assert!(Timestamp::from_unix(i64::MIN, 0).is_none());
}

#[test]
fn clock_readings_before_the_epoch_count_down() {
    let t = Timestamp::from_reading(true, 1451703845, 5).unwrap();
    assert_eq!((t.secs(), t.nanos()), (1451703845, 5));
    let t = Timestamp::from_reading(false, 1, 0).unwrap();
    assert_eq!((t.secs(), t.nanos()), (-1, 0));
    let t = Timestamp::from_reading(false, 1, 250_000_000).unwrap();
    assert_eq!((t.secs(), t.nanos()), (-2, 750_000_000));
    let t = Timestamp::from_reading(false, 0, 0).unwrap();
    assert_eq!((t.secs(), t.nanos()), (0, 0));
    assert!(Timestamp::from_reading(true, u64::MAX, 0).is_none());
    assert!(Timestamp::from_reading(true, 8_210_266_876_800, 0).is_none());
    assert!(Timestamp::from_reading(false, 8_334_601_228_800, 0).is_some());
    assert!(Timestamp::from_reading(false, 8_334_601_228_800, 1).is_none());
}
