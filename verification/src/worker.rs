//! The jobs the worker runs: a request from the queue, the response of running it,
//! and the record that the results table keeps of both.

use vstd::prelude::*;
use crate::clock::Timestamp;

verus! {

/// When a command started and when it finished.
#[derive(Clone, Copy, Debug)]
pub struct Period {
    pub started_at: Timestamp,
    pub finished_at: Timestamp,
}

/// A job as it arrives on the queue: a shell command and the directory to run it in.
#[derive(Clone, Debug)]
pub struct Request {
    pub id: String,
    pub command: String,
    pub cwd: String,
}

/// What running a command gave.
#[derive(Clone, Debug)]
pub struct Response {
    pub status: i32,
    pub stderr: String,
    pub stdout: String,
    pub period: Period,
}

/// A request together with its response.
#[derive(Clone, Debug)]
pub struct Item {
    pub request: Request,
    pub response: Response,
}

/// One row of the results table.
#[derive(Clone, Debug)]
pub struct Record {
    pub id: String,
    pub command: String,
    pub cwd: String,
    pub status: i32,
    pub stderr: String,
    pub stdout: String,
    pub started_at: Timestamp,
    pub finished_at: Timestamp,
}

/// `record` holds exactly what `item` says of its request and response.
pub open spec fn records_item(record: Record, item: Item) -> bool {
    &&& record.id@ == item.request.id@
    &&& record.command@ == item.request.command@
    &&& record.cwd@ == item.request.cwd@
    &&& record.status == item.response.status
    &&& record.stderr@ == item.response.stderr@
    &&& record.stdout@ == item.response.stdout@
    &&& record.started_at == item.response.period.started_at
    &&& record.finished_at == item.response.period.finished_at
}

/// The record of an item takes the id, command and directory of its request, and the
/// status, error output, output and period of its response, each into its own field.
pub proof fn law_record_takes_each_field(record: Record, item: Item)
    requires
        records_item(record, item),
    ensures
        record.id@ == item.request.id@,
        record.command@ == item.request.command@,
        record.cwd@ == item.request.cwd@,
        record.status == item.response.status,
        record.stderr@ == item.response.stderr@,
        record.stdout@ == item.response.stdout@,
        record.started_at == item.response.period.started_at,
        record.finished_at == item.response.period.finished_at,
{
}

impl Item {
    /// The results-table row of this item.
    pub fn to_record(&self) -> (r: Record)
        ensures
            records_item(r, *self),
    {
        Record {
            id: self.request.id.clone(),
            command: self.request.command.clone(),
            cwd: self.request.cwd.clone(),
            status: self.response.status,
            stderr: self.response.stderr.clone(),
            stdout: self.response.stdout.clone(),
            started_at: self.response.period.started_at,
            finished_at: self.response.period.finished_at,
        }
    }
}

} // verus!
