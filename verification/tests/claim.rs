use hybrid_exec::claim::Claim;
use hybrid_exec::claim::ClaimError;
use hybrid_exec::claim::ClaimLedger;
use hybrid_exec::claim::MutexClaimManager;
use hybrid_exec::claim::Side;
use hybrid_exec::liveliness_manager::Liveliness;
use hybrid_exec::liveliness_manager::LivelinessGuard;
use hybrid_exec::re_claim::ReClaimManager;

#[test]
fn other_side() {
    assert_eq!(Side::Local.other(), Side::Remote);
    assert_eq!(Side::Remote.other(), Side::Local);
}

#[test]
fn the_first_to_ask_is_granted() {
    let mut ledger = ClaimLedger::new();
    assert_eq!(ledger.holder(), None);
    let local = MutexClaimManager::new(Side::Local);
    assert_eq!(local.side(), Side::Local);
    let claim = local.claim(&mut ledger).expect("the claim was free");
    assert_eq!(claim.side(), Side::Local);
    assert_eq!(ledger.holder(), Some(Side::Local));
}

#[test]
fn the_second_waits_until_release() {
    let mut ledger = ClaimLedger::new();
    let claim = MutexClaimManager::new(Side::Remote).claim(&mut ledger).unwrap();
    let local = match MutexClaimManager::new(Side::Local).claim(&mut ledger) {
        Err(manager) => manager,
        Ok(_) => panic!("two sides hold the claim"),
    };
    assert_eq!(local.side(), Side::Local);
    assert_eq!(ledger.holder(), Some(Side::Remote));

    assert_eq!(claim.release(&mut ledger), Ok(()));
    assert_eq!(ledger.holder(), None);
    let claim = local.claim(&mut ledger).expect("the claim was released");
    assert_eq!(claim.side(), Side::Local);
    assert_eq!(ledger.holder(), Some(Side::Local));
}

#[test]
fn releasing_a_claim_that_was_never_granted_changes_nothing() {
    // The remote side holds the claim; a stale claim of the local side is
    // released against the same ledger.
    let mut other = ClaimLedger::new();
    let stale = MutexClaimManager::new(Side::Local).claim(&mut other).unwrap();

    let mut ledger = ClaimLedger::new();
    let held = MutexClaimManager::new(Side::Remote).claim(&mut ledger).unwrap();
    let before = ledger;
    assert_eq!(stale.release(&mut ledger), Err(ClaimError::NotHolder));
    assert_eq!(ledger, before);
    assert_eq!(ledger.holder(), Some(Side::Remote));

    // The legitimate holder is not affected.
    assert_eq!(held.release(&mut ledger), Ok(()));
    assert_eq!(ledger.holder(), None);
}

#[test]
fn releasing_on_a_free_ledger_fails() {
    let mut other = ClaimLedger::new();
    let stale = MutexClaimManager::new(Side::Local).claim(&mut other).unwrap();
    let mut ledger = ClaimLedger::new();
    assert_eq!(stale.release(&mut ledger), Err(ClaimError::NotHolder));
    assert_eq!(ledger.holder(), None);
    assert_eq!(
        ClaimError::NotHolder.message(),
        "Claim released by a side that does not hold it"
    );
}

#[test]
fn re_claim_cancels_local_and_release_restores_it() {
    let (mut local, guard) = LivelinessGuard::create();
    let mut ledger = ClaimLedger::new();
    let manager = ReClaimManager::new(guard, MutexClaimManager::new(Side::Remote));

    let claim = match manager.claim(&mut local, &mut ledger) {
        Ok(claim) => claim,
        Err(_) => panic!("the claim was free"),
    };
    assert_eq!(claim.side(), Side::Remote);
    assert!(!local.is_alive());
    assert_eq!(ledger.holder(), Some(Side::Remote));

    assert_eq!(claim.release(&mut local, &mut ledger), Ok(()));
    assert!(local.is_alive());
    assert_eq!(local.state(), Liveliness::Forgotten);
    assert_eq!(ledger.holder(), None);
}

#[test]
fn re_claim_cancels_local_even_while_the_claim_is_held() {
    let (mut local, guard) = LivelinessGuard::create();
    let mut ledger = ClaimLedger::new();
    let local_claim = MutexClaimManager::new(Side::Local).claim(&mut ledger).unwrap();
    let manager = ReClaimManager::new(guard, MutexClaimManager::new(Side::Remote));

    let pending = match manager.claim(&mut local, &mut ledger) {
        Err(pending) => pending,
        Ok(_) => panic!("two sides hold the claim"),
    };
    assert!(!local.is_alive());
    assert_eq!(ledger.holder(), Some(Side::Local));

    // Still held: asking again changes nothing.
    let pending = match pending.claim(&mut ledger) {
        Err(pending) => pending,
        Ok(_) => panic!("two sides hold the claim"),
    };
    assert_eq!(ledger.holder(), Some(Side::Local));

    // The local side gives up; now the remote side is granted the claim.
    assert_eq!(local_claim.release(&mut ledger), Ok(()));
    let claim = match pending.claim(&mut ledger) {
        Ok(claim) => claim,
        Err(_) => panic!("the claim was released"),
    };
    assert_eq!(claim.side(), Side::Remote);
    assert_eq!(ledger.holder(), Some(Side::Remote));
    assert!(!local.is_alive());
}

#[test]
fn re_claim_release_fails_after_tear_down() {
    let (mut local, guard) = LivelinessGuard::create();
    let mut ledger = ClaimLedger::new();
    let manager = ReClaimManager::new(guard, MutexClaimManager::new(Side::Remote));
    let claim = match manager.claim(&mut local, &mut ledger) {
        Ok(claim) => claim,
        Err(_) => panic!("the claim was free"),
    };
    local.tear_down();
    let (flag, holder) = (local, ledger);
    let released = claim.release(&mut local, &mut ledger);
    match released {
        Err(e @ ClaimError::RestoreFailed(_)) => {
            assert_eq!(e.message(), "Unable to restore CancelledLivelinessGuard!")
        }
        other => panic!("unexpected: {:?}", other),
    }
    assert_eq!(local, flag);
    assert_eq!(ledger, holder);
    assert!(!local.is_alive());
    assert_eq!(ledger.holder(), Some(Side::Remote));
}

#[test]
fn dropping_a_re_claim_manager_leaves_local_alive() {
    let (mut local, guard) = LivelinessGuard::create();
    let mut ledger = ClaimLedger::new();
    let manager = ReClaimManager::new(guard, MutexClaimManager::new(Side::Remote));
    manager.drop(&mut local);
    assert!(local.is_alive());
    assert_eq!(local.state(), Liveliness::Forgotten);
    assert_eq!(ledger.holder(), None);

    // The local side proceeds as if there were no remote side.
    let claim = MutexClaimManager::new(Side::Local).claim(&mut ledger).unwrap();
    assert_eq!(claim.side(), Side::Local);
    assert!(local.is_alive());
}

#[test]
fn claim_dispatches_on_its_kind() {
    let (mut local, guard) = LivelinessGuard::create();
    let mut ledger = ClaimLedger::new();
    let claim = Claim::Mutex(MutexClaimManager::new(Side::Local).claim(&mut ledger).unwrap());
    assert_eq!(claim.side(), Side::Local);
    let flag = local;
    assert_eq!(claim.release(&mut local, &mut ledger), Ok(()));
    assert_eq!(local, flag);
    assert_eq!(ledger.holder(), None);

    let manager = ReClaimManager::new(guard, MutexClaimManager::new(Side::Remote));
    let claim = match manager.claim(&mut local, &mut ledger) {
        Ok(claim) => Claim::Re(claim),
        Err(_) => panic!("the claim was free"),
    };
    assert_eq!(claim.side(), Side::Remote);
    assert!(!local.is_alive());
    assert_eq!(claim.release(&mut local, &mut ledger), Ok(()));
    assert!(local.is_alive());
    assert_eq!(ledger.holder(), None);
}
