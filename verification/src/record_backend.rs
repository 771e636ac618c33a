//! The results table in MySQL: what is written for a record, how a row is read back,
//! and what each query's outcome means to the caller.

use vstd::prelude::*;
use crate::clock::{chrono_format, chrono_parse, Timestamp, DB_TIME_FORMAT};
use crate::text::{
    ascii_upper, lemma_upper_keeps_boundary, lemma_utf8_of_injective, lemma_utf8_of_valid,
    upper_byte, utf8_of,
};
use crate::uuid::{
    dashed_order, DASH, is_dashed_uuid, law_restore_undoes_reorder, reorderable, restorable,
    stored_order,
};
use crate::worker::Record;

pub use crate::uuid::MysqlOptimizedUuid;

verus! {

#[verifier::external_type_specification]
#[verifier::external_body]
pub struct ExPool(mysql::Pool);

/// Inserts one record; the id is given in stored order, as hex.
pub const STORE_QUERY: &'static str = "INSERT INTO results (id, command, cwd, status, stderr, stdout, started_at, finished_at) VALUES (UNHEX(?), ?, ?, ?, ?, ?, ?, ?)";

/// Reads a page of records: the parameters are the page size and the offset.
pub const FETCH_LIMIT_QUERY: &'static str = "SELECT HEX(id) AS id, command, cwd, status, stderr, stdout, CAST(started_at AS char) AS started_at, CAST(finished_at AS char) AS finished_at FROM results LIMIT ? OFFSET ?";

/// Reads the records with a given id.
pub const FETCH_RECORD_QUERY: &'static str = "SELECT HEX(id) AS id, command, cwd, status, stderr, stdout, started_at, finished_at FROM results WHERE id = ?";

/// The page size and offset of the records that the monitor lists.
pub const MONITOR_PAGE_SIZE: u32 = 30;
pub const MONITOR_PAGE_OFFSET: u32 = 0;

/// Where records are kept. Each implementation may say, through its spec functions,
/// which answers a fetch may give for the arguments it was handed; one that does not
/// say is taken to give any answer.
pub trait RecordRepository {
    /// `r` is an answer that fetching the record with id `id` may give.
    open spec fn fetched_record(&self, id: Seq<char>, r: Result<Record, RecordRepositoryError>) -> bool {
        true
    }

    /// `r` is an answer that fetching `size` records from `offset` on may give.
    open spec fn fetched_page(
        &self,
        size: u32,
        offset: u32,
        r: Result<Vec<Record>, RecordRepositoryError>,
    ) -> bool {
        true
    }

    fn store(&self, record: Record) -> Result<(), RecordRepositoryError>;

    fn fetch_record(&self, id: String) -> (r: Result<Record, RecordRepositoryError>)
        ensures
            self.fetched_record(id@, r),
    ;

    fn fetch_limit(&self, size: u32, offset: u32) -> (r: Result<Vec<Record>, RecordRepositoryError>)
        ensures
            self.fetched_page(size, offset, r),
    ;
}

/// Why a repository operation failed.
#[derive(Debug, Clone, Copy, PartialEq, Eq, Structural)]
pub enum RecordRepositoryError {
    CannotStoreRecord,
    CannotFetchRecord,
    CannotDenormalizeRecord,
    RecordNotFound,
}

/// How to reach the results database.
#[derive(Debug, Clone)]
pub struct MysqlConfig {
    pub address: String,
    pub username: String,
    pub password: String,
    pub database: String,
}

/// The connection options for the MySQL driver.
#[derive(Debug, Clone)]
pub struct ConnectionOptions {
    pub tcp_addr: Option<String>,
    pub user: Option<String>,
    pub pass: Option<String>,
    pub db_name: Option<String>,
}

/// `s` is present and holds the text `t`.
pub open spec fn holds(s: Option<String>, t: Seq<char>) -> bool {
    s matches Some(v) && v@ == t
}

impl MysqlConfig {
    /// The driver options of this configuration: address, user, password and database
    /// all given.
    pub fn connection_options(&self) -> (r: ConnectionOptions)
        ensures
            holds(r.tcp_addr, self.address@),
            holds(r.user, self.username@),
            holds(r.pass, self.password@),
            holds(r.db_name, self.database@),
    {
        ConnectionOptions {
            tcp_addr: Some(self.address.clone()),
            user: Some(self.username.clone()),
            pass: Some(self.password.clone()),
            db_name: Some(self.database.clone()),
        }
    }
}

/// A row of the results table as the fetch queries return it.
#[derive(Debug, Clone)]
pub struct Row {
    pub id: String,
    pub command: String,
    pub cwd: String,
    pub status: i32,
    pub stderr: String,
    pub stdout: String,
    pub started_at: String,
    pub finished_at: String,
}

/// The parameters of `STORE_QUERY` for a record, in order.
#[derive(Debug, Clone)]
pub struct StoreParams {
    pub id: String,
    pub command: String,
    pub cwd: String,
    pub status: i32,
    pub stderr: String,
    pub stdout: String,
    pub started_at: String,
    pub finished_at: String,
}

/// How a query went: the statement could not be prepared, or not executed, or it
/// gave a result.
pub enum QueryOutcome<T> {
    PrepareFailed,
    ExecuteFailed,
    Done(T),
}

/// A row can be read back: its id can be put in dashed order and both times are in
/// the table's text form.
pub open spec fn readable(row: Row) -> bool {
    &&& restorable(utf8_of(row.id@))
    &&& chrono_parse(row.started_at@, DB_TIME_FORMAT@) is Some
    &&& chrono_parse(row.finished_at@, DB_TIME_FORMAT@) is Some
}

/// `r` is the record that `row` holds.
pub open spec fn read_from(r: Record, row: Row) -> bool {
    &&& utf8_of(r.id@) == dashed_order(utf8_of(row.id@))
    &&& r.command@ == row.command@
    &&& r.cwd@ == row.cwd@
    &&& r.status == row.status
    &&& r.stderr@ == row.stderr@
    &&& r.stdout@ == row.stdout@
    &&& chrono_parse(row.started_at@, DB_TIME_FORMAT@) == Some(r.started_at@)
    &&& chrono_parse(row.finished_at@, DB_TIME_FORMAT@) == Some(r.finished_at@)
}

/// `p` are the parameters that store `r`.
pub open spec fn stores(p: StoreParams, r: Record) -> bool {
    &&& utf8_of(p.id@) == stored_order(utf8_of(r.id@))
    &&& p.command@ == r.command@
    &&& p.cwd@ == r.cwd@
    &&& p.status == r.status
    &&& p.stderr@ == r.stderr@
    &&& p.stdout@ == r.stdout@
    &&& p.started_at@ == r.started_at.db_text_spec()
    &&& p.finished_at@ == r.finished_at.db_text_spec()
}

/// The result of a store, by how the insert went.
pub open spec fn store_result(outcome: QueryOutcome<()>) -> Result<(), RecordRepositoryError> {
    match outcome {
        QueryOutcome::Done(_) => Ok(()),
        _ => Err(RecordRepositoryError::CannotStoreRecord),
    }
}

/// The error of a fetch whose query gave no result.
pub open spec fn fetch_error<T>(outcome: QueryOutcome<T>) -> RecordRepositoryError {
    match outcome {
        QueryOutcome::PrepareFailed => RecordRepositoryError::CannotFetchRecord,
        _ => RecordRepositoryError::CannotDenormalizeRecord,
    }
}

/// A record read from a row takes each field from its own column: the id put back in
/// dashed order, the command, directory, status, error output and output unchanged,
/// and the start and finish times as `chrono` reads the row's start and finish texts.
pub proof fn law_read_takes_each_column(r: Record, row: Row)
    requires
        read_from(r, row),
    ensures
        utf8_of(r.id@) == dashed_order(utf8_of(row.id@)),
        r.command@ == row.command@,
        r.cwd@ == row.cwd@,
        r.status == row.status,
        r.stderr@ == row.stderr@,
        r.stdout@ == row.stdout@,
        chrono_parse(row.started_at@, DB_TIME_FORMAT@) == Some(r.started_at@),
        chrono_parse(row.finished_at@, DB_TIME_FORMAT@) == Some(r.finished_at@),
{
}

/// How each query outcome is answered: a store succeeds exactly when its insert was
/// done and fails with `CannotStoreRecord` otherwise; a fetch whose statement could not
/// be prepared fails with `CannotFetchRecord`, and one that could not be executed with
/// `CannotDenormalizeRecord`.
pub proof fn law_outcome_errors(store: QueryOutcome<()>, fetch: QueryOutcome<Vec<Record>>)
    ensures
        (store_result(store) is Ok) <==> (store is Done),
        store_result(store) is Err ==> store_result(store)->Err_0
            == RecordRepositoryError::CannotStoreRecord,
        fetch is PrepareFailed ==> fetch_error(fetch) == RecordRepositoryError::CannotFetchRecord,
        fetch is ExecuteFailed ==> fetch_error(fetch)
            == RecordRepositoryError::CannotDenormalizeRecord,
{
}

/// An option holds a text exactly when it is present with that text.
pub proof fn law_holds(s: Option<String>, t: Seq<char>)
    ensures
        holds(s, t) <==> (s is Some && s->Some_0@ == t),
{
}

/// The parameters that store a record fill each column of `STORE_QUERY`
/// (`id, command, cwd, status, stderr, stdout, started_at, finished_at`, in that order)
/// with the record's own value for that column: the id in stored order, the texts and
/// status unchanged, and each time in the table's text form, the start time as the
/// start and the finish time as the finish.
pub proof fn law_store_params_fill_their_columns(p: StoreParams, r: Record)
    requires
        stores(p, r),
    ensures
        utf8_of(p.id@) == stored_order(utf8_of(r.id@)),
        p.command@ == r.command@,
        p.cwd@ == r.cwd@,
        p.status == r.status,
        p.stderr@ == r.stderr@,
        p.stdout@ == r.stdout@,
        p.started_at@ == chrono_format(r.started_at@.0, r.started_at@.1, DB_TIME_FORMAT@),
        p.finished_at@ == chrono_format(r.finished_at@.0, r.finished_at@.1, DB_TIME_FORMAT@),
{
}

/// What a read gives back of a write: a row that holds the parameters that stored a
/// record with a dashed id can be read, and reads back as that record, but for the
/// times, which come back as `chrono` reads the text it wrote.
pub proof fn law_read_back_stored(record: Record, params: StoreParams, row: Row, back: Record)
    requires
        is_dashed_uuid(utf8_of(record.id@)),
        stores(params, record),
        row.id@ == params.id@,
        row.command@ == params.command@,
        row.cwd@ == params.cwd@,
        row.status == params.status,
        row.stderr@ == params.stderr@,
        row.stdout@ == params.stdout@,
        row.started_at@ == params.started_at@,
        row.finished_at@ == params.finished_at@,
        chrono_parse(record.started_at.db_text_spec(), DB_TIME_FORMAT@) is Some,
        chrono_parse(record.finished_at.db_text_spec(), DB_TIME_FORMAT@) is Some,
    ensures
        readable(row),
        read_from(back, row) ==> {
            &&& back.id@ == record.id@
            &&& back.command@ == record.command@
            &&& back.cwd@ == record.cwd@
            &&& back.status == record.status
            &&& back.stderr@ == record.stderr@
            &&& back.stdout@ == record.stdout@
            &&& Some(back.started_at@) == chrono_parse(record.started_at.db_text_spec(), DB_TIME_FORMAT@)
            &&& Some(back.finished_at@) == chrono_parse(record.finished_at.db_text_spec(), DB_TIME_FORMAT@)
        },
{
    law_restore_undoes_reorder(record.id@);
    if read_from(back, row) {
        lemma_utf8_of_injective(back.id@, record.id@);
    }
}

/// What a read gives back of a write, as the table answers it: the fetch queries give
/// the stored id through `HEX`, in upper case. A row whose id is the upper case of the
/// stored id text, and whose other columns hold the parameters that stored a record
/// with a dashed id, can be read, and reads back as that record with its id in upper
/// case, but for the times, which come back as `chrono` reads the text it wrote.
pub proof fn law_read_back_hex(record: Record, params: StoreParams, row: Row, back: Record)
    requires
        is_dashed_uuid(utf8_of(record.id@)),
        stores(params, record),
        utf8_of(row.id@) == ascii_upper(utf8_of(params.id@)),
        row.command@ == params.command@,
        row.cwd@ == params.cwd@,
        row.status == params.status,
        row.stderr@ == params.stderr@,
        row.stdout@ == params.stdout@,
        row.started_at@ == params.started_at@,
        row.finished_at@ == params.finished_at@,
        chrono_parse(record.started_at.db_text_spec(), DB_TIME_FORMAT@) is Some,
        chrono_parse(record.finished_at.db_text_spec(), DB_TIME_FORMAT@) is Some,
    ensures
        readable(row),
        read_from(back, row) ==> {
            &&& utf8_of(back.id@) == ascii_upper(utf8_of(record.id@))
            &&& back.command@ == record.command@
            &&& back.cwd@ == record.cwd@
            &&& back.status == record.status
            &&& back.stderr@ == record.stderr@
            &&& back.stdout@ == record.stdout@
            &&& Some(back.started_at@) == chrono_parse(record.started_at.db_text_spec(), DB_TIME_FORMAT@)
            &&& Some(back.finished_at@) == chrono_parse(record.finished_at.db_text_spec(), DB_TIME_FORMAT@)
        },
{
    let b = utf8_of(record.id@);
    let o = utf8_of(params.id@);
    let up = utf8_of(row.id@);
    law_restore_undoes_reorder(record.id@);
    lemma_utf8_of_valid(params.id@);
    lemma_utf8_of_valid(row.id@);
    lemma_upper_keeps_boundary(o, 4);
    lemma_upper_keeps_boundary(o, 8);
    lemma_upper_keeps_boundary(o, 16);
    lemma_upper_keeps_boundary(o, 20);
    assert(restorable(up));
    assert(upper_byte(DASH) == DASH);
    assert(dashed_order(up) =~= ascii_upper(dashed_order(o)));
}

/// A MySQL connection pool holding the results table.
pub struct MysqlRepository {
    pub pool: mysql::Pool,
}

impl MysqlRepository {
    pub fn new(pool: mysql::Pool) -> (r: MysqlRepository)
        ensures
            r.pool == pool,
    {
        MysqlRepository { pool }
    }

    /// The record that a row holds.
    pub fn row_to_record(row: Row) -> (r: Record)
        requires
            readable(row),
        ensures
            read_from(r, row),
    {
        let id = MysqlOptimizedUuid { uuid: row.id }.to_uuid();
        let started_at = Timestamp::from_db_text(row.started_at.as_str()).unwrap();
        let finished_at = Timestamp::from_db_text(row.finished_at.as_str()).unwrap();
        Record {
            id,
            command: row.command,
            cwd: row.cwd,
            status: row.status,
            stderr: row.stderr,
            stdout: row.stdout,
            started_at,
            finished_at,
        }
    }

    /// The record that a row holds, if the row can be read.
    pub fn read_row(row: Row) -> (r: Option<Record>)
        ensures
            r is Some <==> readable(row),
            r matches Some(rec) ==> read_from(rec, row),
    {
        if !crate::uuid::can_restore(row.id.as_str()) {
            return None;
        }
        let started_ok = Timestamp::from_db_text(row.started_at.as_str()).is_some();
        let finished_ok = Timestamp::from_db_text(row.finished_at.as_str()).is_some();
        if started_ok && finished_ok {
            Some(Self::row_to_record(row))
        } else {
            None
        }
    }

    /// The parameters of `STORE_QUERY` for a record.
    pub fn store_params(record: &Record) -> (p: StoreParams)
        requires
            reorderable(utf8_of(record.id@)),
        ensures
            stores(p, *record),
            utf8_of(p.id@) == stored_order(utf8_of(record.id@)),
            p.command@ == record.command@,
            p.cwd@ == record.cwd@,
            p.status == record.status,
            p.stderr@ == record.stderr@,
            p.stdout@ == record.stdout@,
            p.started_at@ == record.started_at.db_text_spec(),
            p.finished_at@ == record.finished_at.db_text_spec(),
    {
        let uuid_optimized = MysqlOptimizedUuid::from_uuid(record.id.clone());
        StoreParams {
            id: uuid_optimized.uuid,
            command: record.command.clone(),
            cwd: record.cwd.clone(),
            status: record.status,
            stderr: record.stderr.clone(),
            stdout: record.stdout.clone(),
            started_at: record.started_at.to_db_text(),
            finished_at: record.finished_at.to_db_text(),
        }
    }

    /// What a store answers, by how the insert went.
    pub fn store_outcome(outcome: QueryOutcome<()>) -> (r: Result<(), RecordRepositoryError>)
        ensures
            r == store_result(outcome),
    {
        match outcome {
            QueryOutcome::Done(_) => Ok(()),
            _ => Err(RecordRepositoryError::CannotStoreRecord),
        }
    }

    /// What a page fetch answers, by how its query went.
    pub fn fetch_limit_outcome(outcome: QueryOutcome<Vec<Record>>) -> (r: Result<
        Vec<Record>,
        RecordRepositoryError,
    >)
        ensures
            match outcome {
                QueryOutcome::Done(records) => r == Ok::<Vec<Record>, RecordRepositoryError>(
                    records,
                ),
                _ => r == Err::<Vec<Record>, RecordRepositoryError>(fetch_error(outcome)),
            },
    {
        match outcome {
            QueryOutcome::PrepareFailed => Err(RecordRepositoryError::CannotFetchRecord),
            QueryOutcome::ExecuteFailed => Err(RecordRepositoryError::CannotDenormalizeRecord),
            QueryOutcome::Done(records) => Ok(records),
        }
    }

    /// What a fetch by id answers, by how its query went: the record when exactly one
    /// row has that id, `RecordNotFound` when none or several do.
    pub fn fetch_record_outcome(outcome: QueryOutcome<Vec<Record>>) -> (r: Result<
        Record,
        RecordRepositoryError,
    >)
        ensures
            match outcome {
                QueryOutcome::Done(records) => if records@.len() == 1 {
                    r == Ok::<Record, RecordRepositoryError>(records@[0])
                } else {
                    r == Err::<Record, RecordRepositoryError>(
                        RecordRepositoryError::RecordNotFound,
                    )
                },
                _ => r == Err::<Record, RecordRepositoryError>(fetch_error(outcome)),
            },
    {
        match outcome {
            QueryOutcome::PrepareFailed => Err(RecordRepositoryError::CannotFetchRecord),
            QueryOutcome::ExecuteFailed => Err(RecordRepositoryError::CannotDenormalizeRecord),
            QueryOutcome::Done(records) => {
                let mut records = records;
                if records.len() == 1 {
                    match records.pop() {
                        Some(record) => Ok(record),
                        None => Err(RecordRepositoryError::RecordNotFound),
                    }
                } else {
                    Err(RecordRepositoryError::RecordNotFound)
                }
            },
        }
    }
}

} // verus!
