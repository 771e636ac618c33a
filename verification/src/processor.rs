//! Running a job: how the worker invokes the shell for a request, and what it
//! reports of the run.

use vstd::prelude::*;
use vstd::utf8::valid_utf8;
use crate::text::{string_from_utf8, utf8_of};
use crate::worker::{Period, Request, Response};

verus! {

/// The program that runs every command.
pub const SHELL: &'static str = "sh";

/// The shell option that makes it run the next argument as a command.
pub const SHELL_COMMAND_FLAG: &'static str = "-c";

/// The standard error reported when the command could not be started.
pub const NOT_EXECUTED: &'static str = "could not execute";

/// The status reported when the command could not be started.
pub const NOT_EXECUTED_STATUS: i32 = 1;

/// A process to start: program, arguments and working directory.
pub struct Invocation {
    pub program: String,
    pub args: Vec<String>,
    pub cwd: String,
}

/// How an attempt to run a command ended.
pub enum CommandOutcome {
    /// The process could not be started.
    NotStarted,
    /// The process ran; `status` is its exit code, if it exited with one.
    Ran { status: Option<i32>, stdout: Vec<u8>, stderr: Vec<u8> },
}

/// An outcome of which a response can be made: a process that ran exited with a code
/// and wrote UTF-8 on both streams.
pub open spec fn reportable(outcome: CommandOutcome) -> bool {
    match outcome {
        CommandOutcome::NotStarted => true,
        CommandOutcome::Ran { status, stdout, stderr } => {
            &&& status is Some
            &&& valid_utf8(stdout@)
            &&& valid_utf8(stderr@)
        },
    }
}

/// `r` reports `outcome` over `period`.
pub open spec fn reports(r: Response, outcome: CommandOutcome, period: Period) -> bool {
    &&& r.period == period
    &&& match outcome {
        CommandOutcome::NotStarted => {
            &&& r.status == NOT_EXECUTED_STATUS
            &&& r.stderr@ == NOT_EXECUTED@
            &&& r.stdout@ == Seq::<char>::empty()
        },
        CommandOutcome::Ran { status, stdout, stderr } => {
            &&& status == Some(r.status)
            &&& utf8_of(r.stdout@) == stdout@
            &&& utf8_of(r.stderr@) == stderr@
        },
    }
}

/// A report keeps the period of the run it reports, whatever the outcome: the start
/// and the finish are the ones given. A run that could not start is reported with
/// status 1, "could not execute" and no output; a run that exited is reported with its
/// own exit code and the text of its own streams, standard output as output and
/// standard error as error.
pub proof fn law_report_keeps_period_and_streams(r: Response, outcome: CommandOutcome, period: Period)
    requires
        reports(r, outcome, period),
    ensures
        r.period.started_at == period.started_at,
        r.period.finished_at == period.finished_at,
        outcome is NotStarted ==> r.status == 1 && r.stderr@ == NOT_EXECUTED@
            && r.stdout@.len() == 0,
        outcome matches CommandOutcome::Ran { status, stdout, stderr } ==> {
            &&& status == Some(r.status)
            &&& utf8_of(r.stdout@) == stdout@
            &&& utf8_of(r.stderr@) == stderr@
        },
{
}

/// Runs the commands of requests.
pub struct Processor;

impl Processor {
    /// The process that runs a request: `sh -c <command>` in the request's directory.
    pub fn invocation(request: &Request) -> (r: Invocation)
        ensures
            r.program@ == SHELL@,
            r.args@.len() == 2,
            r.args@[0]@ == SHELL_COMMAND_FLAG@,
            r.args@[1]@ == request.command@,
            r.cwd@ == request.cwd@,
    {
        let mut args: Vec<String> = Vec::new();
        args.push(SHELL_COMMAND_FLAG.to_owned());
        args.push(request.command.clone());
        Invocation { program: SHELL.to_owned(), args, cwd: request.cwd.clone() }
    }

    /// The response that reports how a run ended.
    pub fn response(outcome: CommandOutcome, period: Period) -> (r: Response)
        requires
            reportable(outcome),
        ensures
            reports(r, outcome, period),
            r.period == period,
            outcome is NotStarted ==> r.status == NOT_EXECUTED_STATUS && r.stderr@
                == NOT_EXECUTED@ && r.stdout@ == Seq::<char>::empty(),
            outcome matches CommandOutcome::Ran { status, stdout, stderr } ==> {
                &&& status == Some(r.status)
                &&& utf8_of(r.stdout@) == stdout@
                &&& utf8_of(r.stderr@) == stderr@
            },
    {
        match outcome {
            CommandOutcome::NotStarted => Response {
                status: NOT_EXECUTED_STATUS,
                stderr: NOT_EXECUTED.to_owned(),
                stdout: String::new(),
                period,
            },
            CommandOutcome::Ran { status, stdout, stderr } => {
                Response {
                    status: status.unwrap(),
                    stderr: string_from_utf8(stderr).unwrap(),
                    stdout: string_from_utf8(stdout).unwrap(),
                    period,
                }
            },
        }
    }
}

} // verus!
