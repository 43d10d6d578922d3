//! Dispatch of one command to a local and a remote backend.
//!
//! The [`HybridExecutor`] decides which backend runs first, whether the two
//! race, and whether the result of the first one to finish is kept or given
//! up in favour of the other. It does not run anything itself: `begin` and
//! `step` say what is to be polled next, and the caller reports which side
//! completed and with what.

use vstd::prelude::*;
use crate::claim::ClaimError;
use crate::claim::ClaimLedger;
use crate::claim::MutexClaimManager;
use crate::claim::Side;
use crate::executor_config::HybridExecutionLevel;
use crate::liveliness_manager::Flag;
use crate::liveliness_manager::LivelinessGuard;
use crate::liveliness_manager::LivelinessManager;
use crate::preference::ExecutorPreference;
use crate::re_claim::ReClaimManager;
use crate::result::CommandExecutionReport;
use crate::result::CommandExecutionResult;
use crate::result::CommandExecutionStatus;

verus! {

/// Accepts commands and dispatches them to a local and a remote backend,
/// unless the command or the executor expresses a preference.
///
/// Where both run, they race, and whichever claims the command first gets
/// to execute it. Where the first side to finish gives no usable result,
/// the command goes to the other side.
#[derive(Debug, Clone, Copy, PartialEq, Eq, Hash, Structural)]
pub struct HybridExecutor {
    pub level: HybridExecutionLevel,
    pub executor_preference: ExecutorPreference,
}

/// What the two attempts at one command share, and each side's way to the
/// claim. It is made afresh for every command and discarded with it.
#[derive(Debug, PartialEq, Eq)]
pub struct HybridCommand {
    /// The flag by which the local attempt is asked to stop. The local
    /// backend polls it together with whatever flag the caller brought.
    pub local_liveliness: LivelinessManager,
    /// Who holds the claim on the command.
    pub ledger: ClaimLedger,
    /// For the local backend: asks for the claim and nothing else.
    pub local_claim_manager: MutexClaimManager,
    /// For the remote backend: cancels the local attempt, then asks for
    /// the claim. If the remote backend never asks, it is to be dropped,
    /// which leaves the local attempt alone.
    pub remote_claim_manager: ReClaimManager,
}

impl HybridCommand {
    /// The coordination of a command that nobody has touched yet: the
    /// local attempt is alive and the claim is free.
    pub fn new() -> (command: HybridCommand)
        ensures
            command.local_liveliness@ == Flag::fresh(),
            command.ledger@ is None,
            command.local_claim_manager@ == Side::Local,
            command.remote_claim_manager@ == Side::Remote,
    {
        let (local_liveliness, local_execution_liveliness_guard) = LivelinessGuard::create();
        HybridCommand {
            local_liveliness,
            ledger: ClaimLedger::new(),
            local_claim_manager: MutexClaimManager::new(Side::Local),
            remote_claim_manager: ReClaimManager::new(
                local_execution_liveliness_guard,
                MutexClaimManager::new(Side::Remote),
            ),
        }
    }
}

/// What the caller is to poll until a side completes.
#[derive(Debug, Clone, Copy, PartialEq, Eq, Hash, Structural)]
pub enum HybridAction {
    /// Poll `side` alone. The other side is not polled: if it was never
    /// polled before either, it never starts.
    Run { side: Side },
    /// Poll both sides and report the first to complete. The other one
    /// stays pending. With `low_pass_filter` the race starts only once
    /// the filter has admitted it.
    Race { low_pass_filter: bool },
}

/// Where the dispatch of a command stands between two completions.
#[derive(Debug, PartialEq, Eq)]
pub enum HybridState<P> {
    /// `side` runs alone and its result is final.
    Only { side: Side },
    /// No side has completed yet. `primary` runs, together with the other
    /// side if `racing`; the first result may be given up for the other
    /// side.
    First { primary: Side, racing: bool, fallback_on_failure: bool },
    /// The first result was given up. `side` runs, and its result is final;
    /// `rejected` is the report that was given up.
    Second { side: Side, rejected: CommandExecutionReport<P> },
}

/// Why a command could not be given a result.
#[derive(Debug, Clone, Copy, PartialEq, Eq, Hash, Structural)]
pub enum HybridError {
    /// The first result was to be given up, but its claim could not be
    /// released: an execution went ahead without holding the claim.
    ReleaseFailed(ClaimError),
    /// A side was reported complete that the state does not wait for.
    UnexpectedCompletion,
}

/// What follows from a completion.
#[derive(Debug, PartialEq, Eq)]
pub enum HybridStep<P> {
    /// The command has no result yet: perform `action`, then call `step`
    /// on `state`.
    Continue { state: HybridState<P>, action: HybridAction },
    /// The command's result. Whatever still runs is to be abandoned.
    Return(CommandExecutionResult<P>),
    /// The command failed for good.
    Fail(HybridError),
}

/// Whether `action` has the caller poll `side`.
pub open spec fn polls(action: HybridAction, side: Side) -> bool {
    match action {
        HybridAction::Run { side: s } => s == side,
        HybridAction::Race { .. } => true,
    }
}

/// Whether a result with this status is given up for the other side.
///
/// A cancelled claim always is: it means that the other side asked for the
/// cancellation and is about to deliver. A success never is. Errors and
/// timeouts are faults of the infrastructure and always are. A command that
/// ran and failed is given up only on request.
pub open spec fn spec_is_retryable_status(
    status: CommandExecutionStatus,
    fallback_on_failure: bool,
) -> bool {
    match status {
        CommandExecutionStatus::ClaimCancelled => true,
        CommandExecutionStatus::Success => false,
        CommandExecutionStatus::Failure => fallback_on_failure,
        CommandExecutionStatus::Error => true,
        CommandExecutionStatus::TimedOut => true,
    }
}

/// Whether a result with this status is given up for the other side.
pub fn is_retryable_status(status: &CommandExecutionStatus, fallback_on_failure: bool) -> (retry:
    bool)
    ensures
        retry == spec_is_retryable_status(*status, fallback_on_failure),
{
    match status {
        CommandExecutionStatus::ClaimCancelled => true,
        CommandExecutionStatus::Success => false,
        CommandExecutionStatus::Failure => fallback_on_failure,
        CommandExecutionStatus::Error | CommandExecutionStatus::TimedOut => true,
    }
}

/// The report that is kept of a result that was given up.
pub open spec fn rejected_report<P>(result: CommandExecutionResult<P>) -> CommandExecutionReport<P> {
    result.report.without_claim()
}

/// Whether giving up `result` fails: it holds a claim and the claim cannot
/// be released.
pub open spec fn release_fails<P>(
    result: CommandExecutionResult<P>,
    flag: Flag,
    holder: Option<Side>,
) -> bool {
    result.report.claim matches Some(claim) && claim.spec_release(flag, holder) is Err
}

/// The result of the second side, with the report of the first attached.
pub open spec fn with_rejected<P>(
    second: CommandExecutionResult<P>,
    rejected: CommandExecutionReport<P>,
) -> CommandExecutionResult<P> {
    CommandExecutionResult { report: second.report, rejected_execution: Some(rejected) }
}

/// What `step` returns, given the local flag and the holder of the claim
/// before the call.
pub open spec fn spec_step<P>(
    state: HybridState<P>,
    side: Side,
    result: CommandExecutionResult<P>,
    flag: Flag,
    holder: Option<Side>,
) -> HybridStep<P> {
    match state {
        HybridState::Only { side: awaited } => if side == awaited {
            HybridStep::Return(result)
        } else {
            HybridStep::Fail(HybridError::UnexpectedCompletion)
        },
        HybridState::First { primary, racing, fallback_on_failure } => if !racing && side
            != primary {
            HybridStep::Fail(HybridError::UnexpectedCompletion)
        } else if !spec_is_retryable_status(result.report.status, fallback_on_failure) {
            HybridStep::Return(result)
        } else if release_fails(result, flag, holder) {
            HybridStep::Fail(
                HybridError::ReleaseFailed(
                    result.report.claim->Some_0.spec_release(flag, holder)->Err_0,
                ),
            )
        } else {
            HybridStep::Continue {
                state: HybridState::Second {
                    side: side.spec_other(),
                    rejected: rejected_report(result),
                },
                action: HybridAction::Run { side: side.spec_other() },
            }
        },
        HybridState::Second { side: awaited, rejected } => if side == awaited {
            HybridStep::Return(with_rejected(result, rejected))
        } else {
            HybridStep::Fail(HybridError::UnexpectedCompletion)
        },
    }
}

/// Whether `step` releases the claim that `result` holds.
pub open spec fn step_releases<P>(
    state: HybridState<P>,
    side: Side,
    result: CommandExecutionResult<P>,
) -> bool {
    &&& state matches HybridState::First { primary, racing, fallback_on_failure }
    &&& racing || side == primary
    &&& spec_is_retryable_status(result.report.status, fallback_on_failure)
    &&& result.report.claim is Some
}

/// The local flag after `step`.
pub open spec fn flag_after_step<P>(
    state: HybridState<P>,
    side: Side,
    result: CommandExecutionResult<P>,
    flag: Flag,
) -> Flag {
    if step_releases(state, side, result) {
        result.report.claim->Some_0.flag_after_release(flag)
    } else {
        flag
    }
}

/// The holder of the claim after `step`.
pub open spec fn holder_after_step<P>(
    state: HybridState<P>,
    side: Side,
    result: CommandExecutionResult<P>,
    flag: Flag,
    holder: Option<Side>,
) -> Option<Side> {
    if step_releases(state, side, result) {
        result.report.claim->Some_0.holder_after_release(flag, holder)
    } else {
        holder
    }
}

impl HybridExecutor {
    /// The preference that decides: the executor's own, combined with that
    /// of the request.
    pub open spec fn combined_preference(&self, request: ExecutorPreference) -> ExecutorPreference {
        self.executor_preference.spec_and(&request)
    }

    /// Whether a command is run locally without further ado: it has to be,
    /// or the remote backend would not take it.
    pub open spec fn local_only(&self, request: ExecutorPreference, action_too_large: bool) -> bool {
        self.combined_preference(request).spec_requires_local() || action_too_large
    }

    /// The side that goes first where the command is not local only.
    pub open spec fn primary(&self, request: ExecutorPreference) -> Side {
        if self.combined_preference(request).spec_prefers_local() {
            Side::Local
        } else {
            Side::Remote
        }
    }

    /// The state in which `begin` leaves a command.
    pub open spec fn spec_begin_state<P>(
        &self,
        request: ExecutorPreference,
        action_too_large: bool,
    ) -> HybridState<P> {
        if self.local_only(request, action_too_large) {
            HybridState::Only { side: Side::Local }
        } else {
            match self.level {
                HybridExecutionLevel::Limited => HybridState::Only { side: self.primary(request) },
                HybridExecutionLevel::Fallback { fallback_on_failure } => HybridState::First {
                    primary: self.primary(request),
                    racing: false,
                    fallback_on_failure,
                },
                HybridExecutionLevel::Full { fallback_on_failure, .. } => HybridState::First {
                    primary: self.primary(request),
                    racing: true,
                    fallback_on_failure,
                },
            }
        }
    }

    /// The action with which `begin` starts a command.
    pub open spec fn spec_begin_action(
        &self,
        request: ExecutorPreference,
        action_too_large: bool,
    ) -> HybridAction {
        if self.local_only(request, action_too_large) {
            HybridAction::Run { side: Side::Local }
        } else {
            match self.level {
                HybridExecutionLevel::Limited => HybridAction::Run { side: self.primary(request) },
                HybridExecutionLevel::Fallback { .. } => HybridAction::Run {
                    side: self.primary(request),
                },
                HybridExecutionLevel::Full { low_pass_filter, .. } => HybridAction::Race {
                    low_pass_filter,
                },
            }
        }
    }

    /// Starts the dispatch of a command.
    ///
    /// `request_preference` is the preference that the command's request
    /// expresses, and `action_too_large` says whether the remote backend
    /// finds the command's inputs over its limit.
    pub fn begin<P>(&self, request_preference: &ExecutorPreference, action_too_large: bool) -> (next:
        (HybridState<P>, HybridAction))
        ensures
            next.0 == self.spec_begin_state::<P>(*request_preference, action_too_large),
            next.1 == self.spec_begin_action(*request_preference, action_too_large),
    {
        let executor_preference = self.executor_preference.and(request_preference);
        if executor_preference.requires_local() || action_too_large {
            return (HybridState::Only { side: Side::Local }, HybridAction::Run { side: Side::Local });
        }
        let primary = if executor_preference.prefers_local() {
            Side::Local
        } else {
            Side::Remote
        };
        match self.level {
            HybridExecutionLevel::Limited => (
                HybridState::Only { side: primary },
                HybridAction::Run { side: primary },
            ),
            HybridExecutionLevel::Fallback { fallback_on_failure } => (
                HybridState::First { primary, racing: false, fallback_on_failure },
                HybridAction::Run { side: primary },
            ),
            HybridExecutionLevel::Full { fallback_on_failure, low_pass_filter } => (
                HybridState::First { primary, racing: true, fallback_on_failure },
                HybridAction::Race { low_pass_filter },
            ),
        }
    }

    /// Takes the completion of `side` with `result` and says what follows.
    ///
    /// `local` is the liveliness flag of the command's local execution and
    /// `ledger` the ledger of its claim. They change only where the result
    /// is given up while it holds a claim: the claim is released, so that
    /// the other side can proceed.
    pub fn step<P>(
        state: HybridState<P>,
        side: Side,
        result: CommandExecutionResult<P>,
        local: &mut LivelinessManager,
        ledger: &mut ClaimLedger,
    ) -> (next: HybridStep<P>)
        ensures
            next == spec_step(state, side, result, old(local)@, old(ledger)@),
            final(local)@ == flag_after_step(state, side, result, old(local)@),
            final(ledger)@ == holder_after_step(state, side, result, old(local)@, old(ledger)@),
    {
        match state {
            HybridState::Only { side: awaited } => {
                if side == awaited {
                    HybridStep::Return(result)
                } else {
                    HybridStep::Fail(HybridError::UnexpectedCompletion)
                }
            },
            HybridState::First { primary, racing, fallback_on_failure } => {
                if !racing && side != primary {
                    return HybridStep::Fail(HybridError::UnexpectedCompletion);
                }
                if !is_retryable_status(&result.report.status, fallback_on_failure) {
                    return HybridStep::Return(result);
                }
                let CommandExecutionReport { status, claim, payload } = result.report;
                if let Some(claim) = claim {
                    if let Err(e) = claim.release(local, ledger) {
                        return HybridStep::Fail(HybridError::ReleaseFailed(e));
                    }
                }
                let second = side.other();
                HybridStep::Continue {
                    state: HybridState::Second {
                        side: second,
                        rejected: CommandExecutionReport { status, claim: None, payload },
                    },
                    action: HybridAction::Run { side: second },
                }
            },
            HybridState::Second { side: awaited, rejected } => {
                if side == awaited {
                    HybridStep::Return(
                        CommandExecutionResult {
                            report: result.report,
                            rejected_execution: Some(rejected),
                        },
                    )
                } else {
                    HybridStep::Fail(HybridError::UnexpectedCompletion)
                }
            },
        }
    }
}

/// The side that alone is polled where the dispatch begins with
/// `HybridAction::Run`.
pub open spec fn first_side(
    executor: HybridExecutor,
    request: ExecutorPreference,
    action_too_large: bool,
) -> Side {
    if executor.local_only(request, action_too_large) {
        Side::Local
    } else {
        executor.primary(request)
    }
}

/// A command whose combined preference requires the local backend runs
/// there and nowhere else, at every level. The dispatch begins by polling
/// the local side alone; whatever comes back ends it, so no later action
/// polls the remote side; the local side's result is returned as it is; and
/// neither the claim nor the local flag is touched.
pub proof fn lemma_requires_local_never_polls_remote<P>(
    executor: HybridExecutor,
    request: ExecutorPreference,
    action_too_large: bool,
    side: Side,
    result: CommandExecutionResult<P>,
    flag: Flag,
    holder: Option<Side>,
)
    requires
        executor.combined_preference(request).spec_requires_local(),
    ensures
        executor.spec_begin_action(request, action_too_large) == (HybridAction::Run {
            side: Side::Local,
        }),
        !polls(executor.spec_begin_action(request, action_too_large), Side::Remote),
        !(spec_step(
            executor.spec_begin_state::<P>(request, action_too_large),
            side,
            result,
            flag,
            holder,
        ) is Continue),
        spec_step(
            executor.spec_begin_state::<P>(request, action_too_large),
            Side::Local,
            result,
            flag,
            holder,
        ) == HybridStep::Return(result),
        flag_after_step(executor.spec_begin_state::<P>(request, action_too_large), side, result, flag)
            == flag,
        holder_after_step(
            executor.spec_begin_state::<P>(request, action_too_large),
            side,
            result,
            flag,
            holder,
        ) == holder,
{
}

/// At the level `Limited` only one side ever runs, whatever it reports. The
/// dispatch begins by polling that side alone; whatever comes back ends it,
/// so no later action polls the other side; and the result is returned as
/// it is, be it a success or a failure.
pub proof fn lemma_limited_never_polls_secondary<P>(
    executor: HybridExecutor,
    request: ExecutorPreference,
    action_too_large: bool,
    side: Side,
    result: CommandExecutionResult<P>,
    flag: Flag,
    holder: Option<Side>,
)
    requires
        executor.level == HybridExecutionLevel::Limited,
    ensures
        executor.spec_begin_action(request, action_too_large) == (HybridAction::Run {
            side: first_side(executor, request, action_too_large),
        }),
        !polls(
            executor.spec_begin_action(request, action_too_large),
            first_side(executor, request, action_too_large).spec_other(),
        ),
        !(spec_step(
            executor.spec_begin_state::<P>(request, action_too_large),
            side,
            result,
            flag,
            holder,
        ) is Continue),
        spec_step(
            executor.spec_begin_state::<P>(request, action_too_large),
            first_side(executor, request, action_too_large),
            result,
            flag,
            holder,
        ) == HybridStep::Return(result),
{
}

/// At the level `Fallback` without `fallback_on_failure`, a failure of the
/// side that runs first is the command's result: it is returned as it is
/// and the other side is never polled.
pub proof fn lemma_fallback_keeps_failure<P>(
    executor: HybridExecutor,
    request: ExecutorPreference,
    action_too_large: bool,
    result: CommandExecutionResult<P>,
    flag: Flag,
    holder: Option<Side>,
)
    requires
        executor.level == (HybridExecutionLevel::Fallback { fallback_on_failure: false }),
        result.report.status == CommandExecutionStatus::Failure,
    ensures
        executor.spec_begin_action(request, action_too_large) == (HybridAction::Run {
            side: first_side(executor, request, action_too_large),
        }),
        !polls(
            executor.spec_begin_action(request, action_too_large),
            first_side(executor, request, action_too_large).spec_other(),
        ),
        spec_step(
            executor.spec_begin_state::<P>(request, action_too_large),
            first_side(executor, request, action_too_large),
            result,
            flag,
            holder,
        ) == HybridStep::Return(result),
{
}

/// At the level `Fallback` with `fallback_on_failure`, a failure of the
/// primary side sends the command to the other side, and the final result
/// is that side's report with the primary's report attached as
/// `rejected_execution`.
///
/// This is stated for commands that are not local only, and for a first
/// result whose claim, if it holds one, can be released: a local-only
/// command has no other side to go to, and a release that fails is fatal.
/// The attached report is the primary's without its claim, which was
/// released.
pub proof fn lemma_fallback_retries_failure<P>(
    executor: HybridExecutor,
    request: ExecutorPreference,
    action_too_large: bool,
    first: CommandExecutionResult<P>,
    flag: Flag,
    holder: Option<Side>,
    second: CommandExecutionResult<P>,
    later_flag: Flag,
    later_holder: Option<Side>,
)
    requires
        executor.level == (HybridExecutionLevel::Fallback { fallback_on_failure: true }),
        !executor.local_only(request, action_too_large),
        first.report.status == CommandExecutionStatus::Failure,
        !release_fails(first, flag, holder),
    ensures
        executor.spec_begin_action(request, action_too_large) == (HybridAction::Run {
            side: executor.primary(request),
        }),
        spec_step(
            executor.spec_begin_state::<P>(request, action_too_large),
            executor.primary(request),
            first,
            flag,
            holder,
        ) == (HybridStep::Continue {
            state: HybridState::Second {
                side: executor.primary(request).spec_other(),
                rejected: rejected_report(first),
            },
            action: HybridAction::Run { side: executor.primary(request).spec_other() },
        }),
        spec_step(
            HybridState::Second {
                side: executor.primary(request).spec_other(),
                rejected: rejected_report(first),
            },
            executor.primary(request).spec_other(),
            second,
            later_flag,
            later_holder,
        ) == HybridStep::Return(with_rejected(second, rejected_report(first))),
        with_rejected(second, rejected_report(first)).report == second.report,
        with_rejected(second, rejected_report(first)).rejected_execution == Some(
            first.report.without_claim(),
        ),
        first.report.claim is None ==> with_rejected(
            second,
            rejected_report(first),
        ).rejected_execution == Some(first.report),
{
}

/// At the level `Full`, an error or a timeout of whichever side completes
/// first sends the command to the other side, with or without
/// `fallback_on_failure`, and the final result carries the first report as
/// `rejected_execution`.
///
/// This is stated for commands that are not local only, and for a first
/// result whose claim, if it holds one, can be released.
pub proof fn lemma_full_retries_infra_faults<P>(
    executor: HybridExecutor,
    request: ExecutorPreference,
    action_too_large: bool,
    winner: Side,
    first: CommandExecutionResult<P>,
    flag: Flag,
    holder: Option<Side>,
    second: CommandExecutionResult<P>,
    later_flag: Flag,
    later_holder: Option<Side>,
)
    requires
        executor.level is Full,
        !executor.local_only(request, action_too_large),
        first.report.status == CommandExecutionStatus::Error || first.report.status
            == CommandExecutionStatus::TimedOut,
        !release_fails(first, flag, holder),
    ensures
        executor.spec_begin_action(request, action_too_large) == (HybridAction::Race {
            low_pass_filter: executor.level->Full_low_pass_filter,
        }),
        spec_step(
            executor.spec_begin_state::<P>(request, action_too_large),
            winner,
            first,
            flag,
            holder,
        ) == (HybridStep::Continue {
            state: HybridState::Second { side: winner.spec_other(), rejected: rejected_report(first) },
            action: HybridAction::Run { side: winner.spec_other() },
        }),
        spec_step(
            HybridState::Second { side: winner.spec_other(), rejected: rejected_report(first) },
            winner.spec_other(),
            second,
            later_flag,
            later_holder,
        ) == HybridStep::Return(with_rejected(second, rejected_report(first))),
{
}

/// A result whose claim was cancelled is given up for the other side even
/// without `fallback_on_failure`: at the levels `Fallback` and `Full`, from
/// whichever side the state waits for.
///
/// This is stated for commands that are not local only, and for a first
/// result whose claim, if it holds one, can be released.
pub proof fn lemma_claim_cancelled_is_retried<P>(
    executor: HybridExecutor,
    request: ExecutorPreference,
    action_too_large: bool,
    side: Side,
    first: CommandExecutionResult<P>,
    flag: Flag,
    holder: Option<Side>,
)
    requires
        executor.level != HybridExecutionLevel::Limited,
        !executor.local_only(request, action_too_large),
        executor.level is Full || side == executor.primary(request),
        first.report.status == CommandExecutionStatus::ClaimCancelled,
        !release_fails(first, flag, holder),
    ensures
        spec_is_retryable_status(CommandExecutionStatus::ClaimCancelled, false),
        spec_step(
            executor.spec_begin_state::<P>(request, action_too_large),
            side,
            first,
            flag,
            holder,
        ) == (HybridStep::Continue {
            state: HybridState::Second { side: side.spec_other(), rejected: rejected_report(first) },
            action: HybridAction::Run { side: side.spec_other() },
        }),
{
}

/// A success is never given up: whichever side the state waits for, its
/// successful result ends the dispatch and is returned as it is, and
/// neither the claim nor the local flag is touched.
pub proof fn lemma_success_is_final<P>(
    executor: HybridExecutor,
    request: ExecutorPreference,
    action_too_large: bool,
    side: Side,
    result: CommandExecutionResult<P>,
    flag: Flag,
    holder: Option<Side>,
)
    requires
        result.report.status == CommandExecutionStatus::Success,
        polls(executor.spec_begin_action(request, action_too_large), side),
    ensures
        spec_step(
            executor.spec_begin_state::<P>(request, action_too_large),
            side,
            result,
            flag,
            holder,
        ) == HybridStep::Return(result),
        flag_after_step(executor.spec_begin_state::<P>(request, action_too_large), side, result, flag)
            == flag,
        holder_after_step(
            executor.spec_begin_state::<P>(request, action_too_large),
            side,
            result,
            flag,
            holder,
        ) == holder,
{
}

/// A dispatch takes at most two completions, and the second side is tried
/// at most once. What follows the first completion is a result, a failure,
/// or the wait for the other side alone; what follows the second is a
/// result or a failure, whatever the second side reports.
pub proof fn lemma_at_most_two_completions<P>(
    executor: HybridExecutor,
    request: ExecutorPreference,
    action_too_large: bool,
    first_side: Side,
    first: CommandExecutionResult<P>,
    flag: Flag,
    holder: Option<Side>,
    second_side: Side,
    second: CommandExecutionResult<P>,
    later_flag: Flag,
    later_holder: Option<Side>,
)
    ensures
        spec_step(
            executor.spec_begin_state::<P>(request, action_too_large),
            first_side,
            first,
            flag,
            holder,
        ) matches HybridStep::Continue { state, action } ==> {
            &&& state == (HybridState::Second {
                side: first_side.spec_other(),
                rejected: rejected_report(first),
            })
            &&& action == (HybridAction::Run { side: first_side.spec_other() })
            &&& !polls(action, first_side)
            &&& !(spec_step(state, second_side, second, later_flag, later_holder) is Continue)
            &&& spec_step(state, first_side.spec_other(), second, later_flag, later_holder)
                == HybridStep::Return(with_rejected(second, rejected_report(first)))
        },
{
}

/// Giving up the remote side's result hands the command to the local side
/// in working order. Where the remote side holds the claim through a
/// [`crate::re_claim::ReClaim`] and the local execution has not torn its
/// flag down, the step that gives the result up leaves the claim free and
/// the local flag alive.
pub proof fn lemma_retry_frees_local<P>(
    state: HybridState<P>,
    first: CommandExecutionResult<P>,
    flag: Flag,
)
    requires
        step_releases(state, Side::Remote, first),
        first.report.claim matches Some(crate::claim::Claim::Re(claim)) && claim@ == Side::Remote,
        !flag.torn_down,
    ensures
        !release_fails(first, flag, Some(Side::Remote)),
        spec_step(state, Side::Remote, first, flag, Some(Side::Remote)) is Continue,
        flag_after_step(state, Side::Remote, first, flag).is_alive(),
        holder_after_step(state, Side::Remote, first, flag, Some(Side::Remote)) is None,
{
}

/// Where the local execution has already torn its flag down, the remote
/// side's result cannot be given up: the step fails for good, the remote
/// side keeps the claim and the local flag stays as it was.
pub proof fn lemma_retry_after_tear_down_is_fatal<P>(
    state: HybridState<P>,
    first: CommandExecutionResult<P>,
    flag: Flag,
    holder: Option<Side>,
)
    requires
        step_releases(state, Side::Remote, first),
        first.report.claim matches Some(crate::claim::Claim::Re(_)),
        flag.torn_down,
    ensures
        spec_step(state, Side::Remote, first, flag, holder) == HybridStep::<P>::Fail(
            HybridError::ReleaseFailed(
                ClaimError::RestoreFailed(crate::liveliness_manager::LivelinessError::TornDown),
            ),
        ),
        flag_after_step(state, Side::Remote, first, flag) == flag,
        holder_after_step(state, Side::Remote, first, flag, holder) == holder,
{
}

impl HybridError {
    /// A sentence for whoever reads the failure.
    pub fn message(&self) -> (text: &'static str)
        ensures
            text@ == match *self {
                HybridError::ReleaseFailed(_) => "Local execution started executing without a Claim"@,
                HybridError::UnexpectedCompletion => "A side completed that was not awaited"@,
            },
    {
        match self {
            HybridError::ReleaseFailed(_) => "Local execution started executing without a Claim",
            HybridError::UnexpectedCompletion => "A side completed that was not awaited",
        }
    }
}

} // verus!
