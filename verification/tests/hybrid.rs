use hybrid_exec::claim::Claim;
use hybrid_exec::claim::ClaimError;
use hybrid_exec::claim::ClaimLedger;
use hybrid_exec::claim::MutexClaimManager;
use hybrid_exec::claim::Side;
use hybrid_exec::executor_config::HybridExecutionLevel;
use hybrid_exec::hybrid::is_retryable_status;
use hybrid_exec::hybrid::HybridAction;
use hybrid_exec::hybrid::HybridCommand;
use hybrid_exec::hybrid::HybridError;
use hybrid_exec::hybrid::HybridExecutor;
use hybrid_exec::hybrid::HybridState;
use hybrid_exec::hybrid::HybridStep;
use hybrid_exec::liveliness_manager::Liveliness;
use hybrid_exec::liveliness_manager::LivelinessError;
use hybrid_exec::liveliness_manager::LivelinessGuard;
use hybrid_exec::liveliness_manager::LivelinessManager;
use hybrid_exec::preference::ExecutorPreference;
use hybrid_exec::re_claim::ReClaimManager;
use hybrid_exec::result::CommandExecutionReport;
use hybrid_exec::result::CommandExecutionResult;
use hybrid_exec::result::CommandExecutionStatus;

type Report = CommandExecutionReport<&'static str>;
type Outcome = CommandExecutionResult<&'static str>;

const STATUSES: [CommandExecutionStatus; 5] = [
    CommandExecutionStatus::Success,
    CommandExecutionStatus::Failure,
    CommandExecutionStatus::Error,
    CommandExecutionStatus::TimedOut,
    CommandExecutionStatus::ClaimCancelled,
];

const LEVELS: [HybridExecutionLevel; 9] = [
    HybridExecutionLevel::Limited,
    HybridExecutionLevel::Fallback { fallback_on_failure: false },
    HybridExecutionLevel::Fallback { fallback_on_failure: true },
    HybridExecutionLevel::Full { fallback_on_failure: false, low_pass_filter: false },
    HybridExecutionLevel::Full { fallback_on_failure: false, low_pass_filter: true },
    HybridExecutionLevel::Full { fallback_on_failure: true, low_pass_filter: false },
    HybridExecutionLevel::Full { fallback_on_failure: true, low_pass_filter: true },
    HybridExecutionLevel::Limited,
    HybridExecutionLevel::Limited,
];

const PREFERENCES: [ExecutorPreference; 5] = [
    ExecutorPreference::NoPreference,
    ExecutorPreference::PrefersLocal,
    ExecutorPreference::PrefersRemote,
    ExecutorPreference::RequiresLocal,
    ExecutorPreference::RequiresRemote,
];

fn outcome(status: CommandExecutionStatus, payload: &'static str) -> Outcome {
    CommandExecutionResult::new(CommandExecutionReport { status, claim: None, payload })
}

fn executor(level: HybridExecutionLevel) -> HybridExecutor {
    HybridExecutor { level, executor_preference: ExecutorPreference::NoPreference }
}

fn coordination() -> (LivelinessManager, LivelinessGuard, ClaimLedger) {
    let (local, guard) = LivelinessGuard::create();
    (local, guard, ClaimLedger::new())
}

#[test]
fn retryable_statuses() {
    for fallback_on_failure in [false, true] {
        assert!(!is_retryable_status(&CommandExecutionStatus::Success, fallback_on_failure));
        assert!(is_retryable_status(&CommandExecutionStatus::Error, fallback_on_failure));
        assert!(is_retryable_status(&CommandExecutionStatus::TimedOut, fallback_on_failure));
        assert!(is_retryable_status(&CommandExecutionStatus::ClaimCancelled, fallback_on_failure));
        assert_eq!(
            is_retryable_status(&CommandExecutionStatus::Failure, fallback_on_failure),
            fallback_on_failure
        );
    }
}

#[test]
fn requires_local_runs_local_only() {
    for level in LEVELS {
        for (own, request) in [
            (ExecutorPreference::RequiresLocal, ExecutorPreference::NoPreference),
            (ExecutorPreference::NoPreference, ExecutorPreference::RequiresLocal),
            (ExecutorPreference::PrefersRemote, ExecutorPreference::RequiresLocal),
            (ExecutorPreference::RequiresLocal, ExecutorPreference::PrefersRemote),
        ] {
            for status in STATUSES {
                let executor = HybridExecutor { level, executor_preference: own };
                let (state, action) = executor.begin::<&'static str>(&request, false);
                assert_eq!(state, HybridState::Only { side: Side::Local });
                assert_eq!(action, HybridAction::Run { side: Side::Local });

                let (mut local, _guard, mut ledger) = coordination();
                let step = HybridExecutor::step(
                    state,
                    Side::Local,
                    outcome(status, "local"),
                    &mut local,
                    &mut ledger,
                );
                assert_eq!(step, HybridStep::Return(outcome(status, "local")));
                assert!(local.is_alive());
                assert_eq!(ledger.holder(), None);
            }
        }
    }
}

#[test]
fn an_action_too_large_for_remote_runs_local_only() {
    for level in LEVELS {
        for preference in [
            ExecutorPreference::NoPreference,
            ExecutorPreference::PrefersRemote,
            ExecutorPreference::RequiresRemote,
        ] {
            let (state, action) = executor(level).begin::<&'static str>(&preference, true);
            assert_eq!(state, HybridState::Only { side: Side::Local });
            assert_eq!(action, HybridAction::Run { side: Side::Local });
        }
    }
}

#[test]
fn the_primary_follows_the_preference() {
    let level = HybridExecutionLevel::Fallback { fallback_on_failure: false };
    let expected = [Side::Remote, Side::Local, Side::Remote, Side::Local, Side::Remote];
    for (preference, primary) in PREFERENCES.iter().zip(expected) {
        let (_, action) = executor(level).begin::<&'static str>(preference, false);
        assert_eq!(action, HybridAction::Run { side: primary });
    }
}

#[test]
fn limited_never_runs_the_secondary() {
    for (preference, primary) in [
        (ExecutorPreference::PrefersLocal, Side::Local),
        (ExecutorPreference::NoPreference, Side::Remote),
        (ExecutorPreference::RequiresRemote, Side::Remote),
    ] {
        for status in STATUSES {
            let (state, action) =
                executor(HybridExecutionLevel::Limited).begin::<&'static str>(&preference, false);
            assert_eq!(state, HybridState::Only { side: primary });
            assert_eq!(action, HybridAction::Run { side: primary });
            let (mut local, _guard, mut ledger) = coordination();
            let step = HybridExecutor::step(
                state,
                primary,
                outcome(status, "primary"),
                &mut local,
                &mut ledger,
            );
            assert_eq!(step, HybridStep::Return(outcome(status, "primary")));
        }
    }
}

#[test]
fn fallback_returns_a_failure_unless_told_otherwise() {
    let level = HybridExecutionLevel::Fallback { fallback_on_failure: false };
    let (state, action) = executor(level).begin(&ExecutorPreference::PrefersLocal, false);
    assert_eq!(
        state,
        HybridState::First { primary: Side::Local, racing: false, fallback_on_failure: false }
    );
    assert_eq!(action, HybridAction::Run { side: Side::Local });
    let (mut local, _guard, mut ledger) = coordination();
    let failure = outcome(CommandExecutionStatus::Failure, "exit 1");
    let step = HybridExecutor::step(state, Side::Local, failure, &mut local, &mut ledger);
    assert_eq!(step, HybridStep::Return(outcome(CommandExecutionStatus::Failure, "exit 1")));
}

#[test]
fn fallback_on_failure_runs_the_secondary_and_attaches_the_primary_report() {
    let level = HybridExecutionLevel::Fallback { fallback_on_failure: true };
    let (state, action) = executor(level).begin(&ExecutorPreference::NoPreference, false);
    assert_eq!(action, HybridAction::Run { side: Side::Remote });
    let (mut local, _guard, mut ledger) = coordination();
    let failure = outcome(CommandExecutionStatus::Failure, "remote: exit 1");
    let step = HybridExecutor::step(state, Side::Remote, failure, &mut local, &mut ledger);
    let state = match step {
        HybridStep::Continue { state, action } => {
            assert_eq!(action, HybridAction::Run { side: Side::Local });
            state
        }
        other => panic!("unexpected: {:?}", other),
    };
    let rejected: Report = CommandExecutionReport {
        status: CommandExecutionStatus::Failure,
        claim: None,
        payload: "remote: exit 1",
    };
    assert_eq!(state, HybridState::Second { side: Side::Local, rejected });

    let success = outcome(CommandExecutionStatus::Success, "local: ok");
    let step = HybridExecutor::step(state, Side::Local, success, &mut local, &mut ledger);
    let expected = CommandExecutionResult {
        report: CommandExecutionReport {
            status: CommandExecutionStatus::Success,
            claim: None,
            payload: "local: ok",
        },
        rejected_execution: Some(CommandExecutionReport {
            status: CommandExecutionStatus::Failure,
            claim: None,
            payload: "remote: exit 1",
        }),
    };
    assert_eq!(step, HybridStep::Return(expected));
}

#[test]
fn full_races_and_retries_infra_faults_from_either_side() {
    for fallback_on_failure in [false, true] {
        for low_pass_filter in [false, true] {
            for winner in [Side::Local, Side::Remote] {
                for status in [CommandExecutionStatus::Error, CommandExecutionStatus::TimedOut] {
                    let level = HybridExecutionLevel::Full { fallback_on_failure, low_pass_filter };
                    let (state, action) =
                        executor(level).begin(&ExecutorPreference::PrefersLocal, false);
                    assert_eq!(action, HybridAction::Race { low_pass_filter });
                    assert_eq!(
                        state,
                        HybridState::First {
                            primary: Side::Local,
                            racing: true,
                            fallback_on_failure
                        }
                    );
                    let (mut local, _guard, mut ledger) = coordination();
                    let step = HybridExecutor::step(
                        state,
                        winner,
                        outcome(status, "first"),
                        &mut local,
                        &mut ledger,
                    );
                    let state = match step {
                        HybridStep::Continue { state, action } => {
                            assert_eq!(action, HybridAction::Run { side: winner.other() });
                            state
                        }
                        other => panic!("unexpected: {:?}", other),
                    };
                    let step = HybridExecutor::step(
                        state,
                        winner.other(),
                        outcome(CommandExecutionStatus::Failure, "second"),
                        &mut local,
                        &mut ledger,
                    );
                    match step {
                        HybridStep::Return(result) => {
                            assert_eq!(result.report.status, CommandExecutionStatus::Failure);
                            assert_eq!(result.report.payload, "second");
                            let rejected = result.rejected_execution.expect("a rejected report");
                            assert_eq!(rejected.status, status);
                            assert_eq!(rejected.payload, "first");
                        }
                        other => panic!("unexpected: {:?}", other),
                    }
                }
            }
        }
    }
}

#[test]
fn full_keeps_the_first_success() {
    let level = HybridExecutionLevel::Full { fallback_on_failure: true, low_pass_filter: false };
    for winner in [Side::Local, Side::Remote] {
        let (state, _) = executor(level).begin(&ExecutorPreference::NoPreference, false);
        let (mut local, _guard, mut ledger) = coordination();
        let step = HybridExecutor::step(
            state,
            winner,
            outcome(CommandExecutionStatus::Success, "won"),
            &mut local,
            &mut ledger,
        );
        assert_eq!(step, HybridStep::Return(outcome(CommandExecutionStatus::Success, "won")));
    }
}

#[test]
fn claim_cancelled_is_retried_without_fallback_on_failure() {
    for level in [
        HybridExecutionLevel::Fallback { fallback_on_failure: false },
        HybridExecutionLevel::Full { fallback_on_failure: false, low_pass_filter: false },
    ] {
        let (state, _) = executor(level).begin(&ExecutorPreference::PrefersLocal, false);
        let (mut local, _guard, mut ledger) = coordination();
        let step = HybridExecutor::step(
            state,
            Side::Local,
            outcome(CommandExecutionStatus::ClaimCancelled, "cancelled"),
            &mut local,
            &mut ledger,
        );
        match step {
            HybridStep::Continue { action, .. } => {
                assert_eq!(action, HybridAction::Run { side: Side::Remote })
            }
            other => panic!("unexpected: {:?}", other),
        }
    }
}

#[test]
fn a_retry_releases_the_claim_of_the_first_result() {
    // Remote goes first, claims (which cancels local), then fails with an
    // infrastructure error. Giving its result up has to free the claim and
    // let local run.
    let level = HybridExecutionLevel::Fallback { fallback_on_failure: false };
    let (state, action) = executor(level).begin(&ExecutorPreference::PrefersRemote, false);
    assert_eq!(action, HybridAction::Run { side: Side::Remote });

    let (mut local, guard, mut ledger) = coordination();
    let manager = ReClaimManager::new(guard, MutexClaimManager::new(Side::Remote));
    let claim = match manager.claim(&mut local, &mut ledger) {
        Ok(claim) => claim,
        Err(_) => panic!("the claim was free"),
    };
    assert!(!local.is_alive());
    assert_eq!(ledger.holder(), Some(Side::Remote));

    let first = CommandExecutionResult::new(CommandExecutionReport {
        status: CommandExecutionStatus::Error,
        claim: Some(Claim::Re(claim)),
        payload: "remote: connection lost",
    });
    let step = HybridExecutor::step(state, Side::Remote, first, &mut local, &mut ledger);
    assert!(local.is_alive());
    assert_eq!(ledger.holder(), None);
    let state = match step {
        HybridStep::Continue { state, action } => {
            assert_eq!(action, HybridAction::Run { side: Side::Local });
            state
        }
        other => panic!("unexpected: {:?}", other),
    };

    // Local can now claim and run.
    let local_claim = MutexClaimManager::new(Side::Local).claim(&mut ledger).unwrap();
    let second = CommandExecutionResult::new(CommandExecutionReport {
        status: CommandExecutionStatus::Success,
        claim: Some(Claim::Mutex(local_claim)),
        payload: "local: ok",
    });
    let step = HybridExecutor::step(state, Side::Local, second, &mut local, &mut ledger);
    match step {
        HybridStep::Return(result) => {
            assert_eq!(result.report.status, CommandExecutionStatus::Success);
            assert!(result.report.claim.is_some());
            let rejected = result.rejected_execution.expect("a rejected report");
            assert_eq!(rejected.status, CommandExecutionStatus::Error);
            assert_eq!(rejected.payload, "remote: connection lost");
            assert_eq!(rejected.claim, None);
        }
        other => panic!("unexpected: {:?}", other),
    }
    assert_eq!(ledger.holder(), Some(Side::Local));
}

#[test]
fn a_release_that_fails_is_fatal() {
    // Remote claims and fails, but local has already acted on the
    // cancellation: it cannot be brought back.
    let level = HybridExecutionLevel::Full { fallback_on_failure: false, low_pass_filter: false };
    let (state, _) = executor(level).begin::<&'static str>(&ExecutorPreference::NoPreference, false);
    let (mut local, guard, mut ledger) = coordination();
    let manager = ReClaimManager::new(guard, MutexClaimManager::new(Side::Remote));
    let claim = match manager.claim(&mut local, &mut ledger) {
        Ok(claim) => claim,
        Err(_) => panic!("the claim was free"),
    };
    local.tear_down();
    let first = CommandExecutionResult::new(CommandExecutionReport {
        status: CommandExecutionStatus::TimedOut,
        claim: Some(Claim::Re(claim)),
        payload: "remote: timed out",
    });
    let step = HybridExecutor::step(state, Side::Remote, first, &mut local, &mut ledger);
    let error = HybridError::ReleaseFailed(ClaimError::RestoreFailed(LivelinessError::TornDown));
    assert_eq!(step, HybridStep::Fail(error));
    assert_eq!(error.message(), "Local execution started executing without a Claim");
    assert!(!local.is_alive());
    assert_eq!(ledger.holder(), Some(Side::Remote));
}

#[test]
fn a_stale_claim_is_fatal_too() {
    let level = HybridExecutionLevel::Fallback { fallback_on_failure: true };
    let (state, _) = executor(level).begin::<&'static str>(&ExecutorPreference::PrefersLocal, false);
    let mut elsewhere = ClaimLedger::new();
    let stale = MutexClaimManager::new(Side::Local).claim(&mut elsewhere).unwrap();
    let (mut local, _guard, mut ledger) = coordination();
    let first = CommandExecutionResult::new(CommandExecutionReport {
        status: CommandExecutionStatus::Failure,
        claim: Some(Claim::Mutex(stale)),
        payload: "local: exit 1",
    });
    let step = HybridExecutor::step(state, Side::Local, first, &mut local, &mut ledger);
    assert_eq!(step, HybridStep::Fail(HybridError::ReleaseFailed(ClaimError::NotHolder)));
}

#[test]
fn a_result_that_is_kept_keeps_its_claim() {
    let level = HybridExecutionLevel::Fallback { fallback_on_failure: false };
    let (state, _) = executor(level).begin(&ExecutorPreference::PrefersLocal, false);
    let (mut local, _guard, mut ledger) = coordination();
    let claim = MutexClaimManager::new(Side::Local).claim(&mut ledger).unwrap();
    let first = CommandExecutionResult::new(CommandExecutionReport {
        status: CommandExecutionStatus::Success,
        claim: Some(Claim::Mutex(claim)),
        payload: "local: ok",
    });
    let step = HybridExecutor::step(state, Side::Local, first, &mut local, &mut ledger);
    match step {
        HybridStep::Return(result) => {
            assert!(result.report.claim.is_some());
            assert_eq!(result.rejected_execution, None);
        }
        other => panic!("unexpected: {:?}", other),
    }
    assert_eq!(ledger.holder(), Some(Side::Local));
}

#[test]
fn a_completion_that_nobody_waits_for_is_refused() {
    let (mut local, _guard, mut ledger) = coordination();
    let unexpected: HybridStep<&'static str> = HybridStep::Fail(HybridError::UnexpectedCompletion);

    let state = HybridState::Only { side: Side::Local };
    let result = outcome(CommandExecutionStatus::Success, "remote");
    assert_eq!(HybridExecutor::step(state, Side::Remote, result, &mut local, &mut ledger), unexpected);

    // Without a race the secondary has not been started.
    let state =
        HybridState::First { primary: Side::Remote, racing: false, fallback_on_failure: true };
    let result = outcome(CommandExecutionStatus::Success, "local");
    assert_eq!(HybridExecutor::step(state, Side::Local, result, &mut local, &mut ledger), unexpected);

    let rejected =
        CommandExecutionReport { status: CommandExecutionStatus::Error, claim: None, payload: "first" };
    let state = HybridState::Second { side: Side::Local, rejected };
    let result = outcome(CommandExecutionStatus::Success, "remote");
    assert_eq!(HybridExecutor::step(state, Side::Remote, result, &mut local, &mut ledger), unexpected);
    assert_eq!(
        HybridError::UnexpectedCompletion.message(),
        "A side completed that was not awaited"
    );
}

#[test]
fn the_second_result_is_final_whatever_it_is() {
    for status in STATUSES {
        let (mut local, _guard, mut ledger) = coordination();
        let rejected = CommandExecutionReport {
            status: CommandExecutionStatus::Error,
            claim: None,
            payload: "first",
        };
        let state = HybridState::Second { side: Side::Remote, rejected };
        let step = HybridExecutor::step(
            state,
            Side::Remote,
            outcome(status, "second"),
            &mut local,
            &mut ledger,
        );
        match step {
            HybridStep::Return(result) => {
                assert_eq!(result.report.status, status);
                assert_eq!(result.rejected_execution.map(|r| r.payload), Some("first"));
            }
            other => panic!("unexpected: {:?}", other),
        }
    }
}

#[test]
fn a_fresh_command_is_alive_and_unclaimed() {
    let command = HybridCommand::new();
    assert!(command.local_liveliness.is_alive());
    assert_eq!(command.local_liveliness.state(), Liveliness::Alive);
    assert!(!command.local_liveliness.torn_down());
    assert_eq!(command.ledger.holder(), None);
    assert_eq!(command.local_claim_manager.side(), Side::Local);
}

#[test]
fn a_race_that_remote_wins_cancels_local_and_keeps_the_remote_result() {
    let level = HybridExecutionLevel::Full { fallback_on_failure: false, low_pass_filter: false };
    let (state, action) = executor(level).begin(&ExecutorPreference::NoPreference, false);
    assert_eq!(action, HybridAction::Race { low_pass_filter: false });
    let HybridCommand {
        local_liveliness: mut local,
        mut ledger,
        local_claim_manager,
        remote_claim_manager,
    } = HybridCommand::new();

    // Remote is about to commit: local is cancelled and remote holds the claim.
    let claim = match remote_claim_manager.claim(&mut local, &mut ledger) {
        Ok(claim) => claim,
        Err(_) => panic!("the claim was free"),
    };
    assert!(!local.is_alive());
    // Local cannot claim any more.
    assert!(local_claim_manager.claim(&mut ledger).is_err());

    let first = CommandExecutionResult::new(CommandExecutionReport {
        status: CommandExecutionStatus::Success,
        claim: Some(Claim::Re(claim)),
        payload: "remote: ok",
    });
    let step = HybridExecutor::step(state, Side::Remote, first, &mut local, &mut ledger);
    match step {
        HybridStep::Return(result) => {
            assert_eq!(result.report.payload, "remote: ok");
            assert!(result.report.claim.is_some());
            assert_eq!(result.rejected_execution, None);
        }
        other => panic!("unexpected: {:?}", other),
    }
    assert!(!local.is_alive());
    assert_eq!(ledger.holder(), Some(Side::Remote));
}

#[test]
fn local_claims_then_remote_cancels_and_fails_and_the_failure_is_final() {
    let level = HybridExecutionLevel::Full { fallback_on_failure: false, low_pass_filter: false };
    let (state, _) = executor(level).begin(&ExecutorPreference::NoPreference, false);
    let HybridCommand {
        local_liveliness: mut local,
        mut ledger,
        local_claim_manager,
        remote_claim_manager,
    } = HybridCommand::new();

    // Local claims.
    let local_claim = local_claim_manager.claim(&mut ledger).unwrap();
    // Remote has a result and asks local to cancel; the claim is held.
    let pending = match remote_claim_manager.claim(&mut local, &mut ledger) {
        Err(pending) => pending,
        Ok(_) => panic!("two sides hold the claim"),
    };
    assert!(!local.is_alive());

    // Local sees the cancellation and gives up, still holding its claim.
    let first = CommandExecutionResult::new(CommandExecutionReport {
        status: CommandExecutionStatus::ClaimCancelled,
        claim: Some(Claim::Mutex(local_claim)),
        payload: "local: cancelled",
    });
    let step = HybridExecutor::step(state, Side::Local, first, &mut local, &mut ledger);
    let state = match step {
        HybridStep::Continue { state, action } => {
            assert_eq!(action, HybridAction::Run { side: Side::Remote });
            state
        }
        other => panic!("unexpected: {:?}", other),
    };
    assert_eq!(ledger.holder(), None);

    // Remote claims, and fails.
    let claim = match pending.claim(&mut ledger) {
        Ok(claim) => claim,
        Err(_) => panic!("the claim was released"),
    };
    let second = CommandExecutionResult::new(CommandExecutionReport {
        status: CommandExecutionStatus::Failure,
        claim: Some(Claim::Re(claim)),
        payload: "remote: exit 1",
    });
    let step = HybridExecutor::step(state, Side::Remote, second, &mut local, &mut ledger);
    match step {
        HybridStep::Return(result) => {
            assert_eq!(result.report.status, CommandExecutionStatus::Failure);
            assert_eq!(result.report.payload, "remote: exit 1");
            let rejected = result.rejected_execution.expect("a rejected report");
            assert_eq!(rejected.status, CommandExecutionStatus::ClaimCancelled);
            assert_eq!(rejected.claim, None);
        }
        other => panic!("unexpected: {:?}", other),
    }
    // Local stays cancelled: nothing brings it back.
    assert!(!local.is_alive());
}
