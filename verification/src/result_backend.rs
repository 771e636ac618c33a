//! A results table without run times: what is written for a record.

use vstd::prelude::*;
use crate::text::utf8_of;
use crate::uuid::{reorderable, stored_order};
use crate::worker::Record;

pub use crate::record_backend::{ConnectionOptions, QueryOutcome};
pub use crate::uuid::MysqlOptimizedUuid;

verus! {

/// Inserts one record; the id is given in stored order, as hex.
pub const STORE_QUERY: &'static str = "INSERT INTO results (id, command, cwd, status, stderr, stdout) VALUES (UNHEX(?), ?, ?, ?, ?, ?)";

/// Where records are written.
pub trait ResultBackend {
    fn store(&self, record: Record) -> Result<(), ResultBackendError>;
}

/// Why a store failed.
#[derive(Debug, Clone, Copy, PartialEq, Eq, Structural)]
pub enum ResultBackendError {
    CannotStoreRecord,
}

/// How to reach the results database.
#[derive(Debug, Clone)]
pub struct MysqlConfig {
    pub address: String,
    pub username: String,
    pub password: String,
    pub database: String,
}

impl MysqlConfig {
    /// The driver options of this configuration: address, user, password and database
    /// all given.
    pub fn connection_options(&self) -> (r: ConnectionOptions)
        ensures
            crate::record_backend::holds(r.tcp_addr, self.address@),
            crate::record_backend::holds(r.user, self.username@),
            crate::record_backend::holds(r.pass, self.password@),
            crate::record_backend::holds(r.db_name, self.database@),
    {
        ConnectionOptions {
            tcp_addr: Some(self.address.clone()),
            user: Some(self.username.clone()),
            pass: Some(self.password.clone()),
            db_name: Some(self.database.clone()),
        }
    }
}

/// The parameters of `STORE_QUERY` for a record, in order.
#[derive(Debug, Clone)]
pub struct ResultParams {
    pub id: String,
    pub command: String,
    pub cwd: String,
    pub status: i32,
    pub stderr: String,
    pub stdout: String,
}

/// `p` are the parameters that store `r`.
pub open spec fn stores(p: ResultParams, r: Record) -> bool {
    &&& utf8_of(p.id@) == stored_order(utf8_of(r.id@))
    &&& p.command@ == r.command@
    &&& p.cwd@ == r.cwd@
    &&& p.status == r.status
    &&& p.stderr@ == r.stderr@
    &&& p.stdout@ == r.stdout@
}

/// The parameters that store a record fill each column of `STORE_QUERY`
/// (`id, command, cwd, status, stderr, stdout`, in that order) with the record's own
/// value for that column: the id in stored order, and the command, directory, status,
/// error output and output unchanged, none of them taken from another field.
pub proof fn law_store_params_fill_their_columns(p: ResultParams, r: Record)
    requires
        stores(p, r),
    ensures
        utf8_of(p.id@) == stored_order(utf8_of(r.id@)),
        p.command@ == r.command@,
        p.cwd@ == r.cwd@,
        p.status == r.status,
        p.stderr@ == r.stderr@,
        p.stdout@ == r.stdout@,
{
}

/// A MySQL connection pool holding the results table.
pub struct MysqlBackend {
    pub pool: mysql::Pool,
}

impl MysqlBackend {
    pub fn new(pool: mysql::Pool) -> (r: MysqlBackend)
        ensures
            r.pool == pool,
    {
        MysqlBackend { pool }
    }

    /// The parameters of `STORE_QUERY` for a record.
    pub fn store_params(record: &Record) -> (p: ResultParams)
        requires
            reorderable(utf8_of(record.id@)),
        ensures
            stores(p, *record),
            utf8_of(p.id@) == stored_order(utf8_of(record.id@)),
            p.command@ == record.command@,
            p.cwd@ == record.cwd@,
            p.status == record.status,
            p.stderr@ == record.stderr@,
            p.stdout@ == record.stdout@,
    {
        let uuid_optimized = MysqlOptimizedUuid::from_uuid(record.id.clone());
        ResultParams {
            id: uuid_optimized.uuid,
            command: record.command.clone(),
            cwd: record.cwd.clone(),
            status: record.status,
            stderr: record.stderr.clone(),
            stdout: record.stdout.clone(),
        }
    }

    /// What a store answers, by how the insert went: success when it was done,
    /// `CannotStoreRecord` when it could not be prepared or executed.
    pub fn store_outcome(outcome: QueryOutcome<()>) -> (r: Result<(), ResultBackendError>)
        ensures
            r == (match outcome {
                QueryOutcome::Done(_) => Ok::<(), ResultBackendError>(()),
                _ => Err::<(), ResultBackendError>(ResultBackendError::CannotStoreRecord),
            }),
    {
        match outcome {
            QueryOutcome::Done(_) => Ok(()),
            _ => Err(ResultBackendError::CannotStoreRecord),
        }
    }
}

} // verus!
