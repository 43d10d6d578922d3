//! What an execution of a command reports.

use vstd::prelude::*;
use crate::claim::Claim;

verus! {

/// How an execution of a command ended.
#[derive(Debug, Clone, Copy, PartialEq, Eq, Hash, Structural)]
pub enum CommandExecutionStatus {
    /// The command ran and did what was expected of it.
    Success,
    /// The command ran and did not: it exited with a failure.
    Failure,
    /// The infrastructure failed before the command could give an answer.
    Error,
    /// The command ran out of time.
    TimedOut,
    /// The execution gave up because the other side took the claim.
    ClaimCancelled,
}

/// The report of one attempt: how it ended, the claim it still holds, and
/// whatever else the backend has to say (`payload`).
#[derive(Debug, PartialEq, Eq)]
pub struct CommandExecutionReport<P> {
    pub status: CommandExecutionStatus,
    pub claim: Option<Claim>,
    pub payload: P,
}

/// The result of a command: the report of the attempt that counts, and the
/// report of an earlier attempt that was discarded, if there was one.
#[derive(Debug, PartialEq, Eq)]
pub struct CommandExecutionResult<P> {
    pub report: CommandExecutionReport<P>,
    pub rejected_execution: Option<CommandExecutionReport<P>>,
}

impl<P> CommandExecutionReport<P> {
    /// The same report without its claim.
    pub open spec fn without_claim(self) -> CommandExecutionReport<P> {
        CommandExecutionReport { status: self.status, claim: None, payload: self.payload }
    }
}

impl<P> CommandExecutionResult<P> {
    /// A result that consists of `report` alone.
    pub fn new(report: CommandExecutionReport<P>) -> (result: CommandExecutionResult<P>)
        ensures
            result.report == report,
            result.rejected_execution is None,
    {
        CommandExecutionResult { report, rejected_execution: None }
    }
}

} // verus!
