//! The remote side's way to the claim.
//!
//! When the remote side is about to commit, the local execution has to
//! stop. A [`ReClaimManager`] therefore cancels the local liveliness guard
//! before it asks for the claim, and the [`ReClaim`] it obtains restores the
//! guard when it is released, so that a local retry can run. A manager that
//! is discarded without ever claiming leaves the local execution alone.

use vstd::prelude::*;
use crate::claim::holder_after_claim;
use crate::claim::holder_after_release;
use crate::claim::release_result;
use crate::claim::ClaimError;
use crate::claim::ClaimLedger;
use crate::claim::MutexClaim;
use crate::claim::MutexClaimManager;
use crate::claim::Side;
use crate::liveliness_manager::CancelledLivelinessGuard;
use crate::liveliness_manager::Flag;
use crate::liveliness_manager::LivelinessError;
use crate::liveliness_manager::LivelinessGuard;
use crate::liveliness_manager::LivelinessManager;

verus! {

/// The local flag after a [`ReClaim`] was released: restored and then left
/// alone for good, or untouched where it could not be restored.
pub open spec fn flag_after_re_release(flag: Flag) -> Flag {
    if flag.can_restore() {
        flag.restore().forget()
    } else {
        flag
    }
}

/// The holder after a [`ReClaim`] of `side` was released: the underlying
/// claim is handed back only once the local flag has been restored.
pub open spec fn holder_after_re_release(flag: Flag, holder: Option<Side>, side: Side) -> Option<
    Side,
> {
    if flag.can_restore() {
        holder_after_release(holder, side)
    } else {
        holder
    }
}

/// What releasing a [`ReClaim`] of `side` returns.
pub open spec fn re_release_result(flag: Flag, holder: Option<Side>, side: Side) -> Result<
    (),
    ClaimError,
> {
    if flag.can_restore() {
        release_result(holder, side)
    } else {
        Err(ClaimError::RestoreFailed(LivelinessError::TornDown))
    }
}

/// Claiming through a [`ReClaimManager`] and releasing again, with nothing
/// in between, leaves the ledger free and the local execution alive: the
/// local side can then run as a fallback.
pub proof fn lemma_claim_then_release_frees_local(flag: Flag, side: Side)
    requires
        !flag.torn_down,
    ensures
        !flag.cancel().is_alive(),
        re_release_result(flag.cancel(), holder_after_claim(None, side), side) is Ok,
        flag_after_re_release(flag.cancel()).is_alive(),
        holder_after_re_release(flag.cancel(), holder_after_claim(None, side), side) is None,
{
}

/// Where the local execution has already acted on the cancellation, the
/// release fails and changes nothing: the remote side keeps the claim and
/// the local side stays cancelled.
pub proof fn lemma_release_after_tear_down_fails(flag: Flag, holder: Option<Side>, side: Side)
    ensures
        re_release_result(flag.cancel().tear_down(), holder, side) is Err,
        flag_after_re_release(flag.cancel().tear_down()) == flag.cancel().tear_down(),
        holder_after_re_release(flag.cancel().tear_down(), holder, side) == holder,
{
}

/// The remote side's right to ask for the claim, together with the guard of
/// the local execution that asking will cancel.
#[derive(Debug, PartialEq, Eq)]
pub struct ReClaimManager {
    local_execution_liveliness_guard: LivelinessGuard,
    claim_manager: MutexClaimManager,
}

/// A [`ReClaimManager`] that has cancelled the local execution and is
/// waiting for the claim to become free.
#[derive(Debug, PartialEq, Eq)]
pub struct PendingReClaim {
    released_liveliness_guard: CancelledLivelinessGuard,
    claim_manager: MutexClaimManager,
}

/// The claim of the remote side, and with it the right to bring the local
/// execution back.
#[derive(Debug, PartialEq, Eq)]
pub struct ReClaim {
    released_liveliness_guard: CancelledLivelinessGuard,
    claim: MutexClaim,
}

impl View for ReClaimManager {
    type V = Side;

    /// The side on whose behalf the claim is asked for.
    closed spec fn view(&self) -> Side {
        self.claim_manager@
    }
}

impl View for PendingReClaim {
    type V = Side;

    /// The side on whose behalf the claim is asked for.
    closed spec fn view(&self) -> Side {
        self.claim_manager@
    }
}

impl View for ReClaim {
    type V = Side;

    /// The side that was granted the claim.
    closed spec fn view(&self) -> Side {
        self.claim@
    }
}

impl ReClaimManager {
    /// Wraps `claim_manager`, so that claiming through it cancels the
    /// execution that `local_execution_liveliness_guard` controls.
    pub fn new(
        local_execution_liveliness_guard: LivelinessGuard,
        claim_manager: MutexClaimManager,
    ) -> (manager: ReClaimManager)
        ensures
            manager@ == claim_manager@,
    {
        ReClaimManager { local_execution_liveliness_guard, claim_manager }
    }

    /// Discards the manager without claiming: the local execution is never
    /// asked to stop.
    pub fn drop(self, local: &mut LivelinessManager)
        ensures
            final(local)@ == old(local)@.forget(),
            final(local)@.is_alive(),
    {
        self.local_execution_liveliness_guard.forget(local);
    }

    /// Cancels the local execution, then asks for the claim.
    ///
    /// The local execution is cancelled whether or not the claim is free.
    /// While the claim is held the ledger stays as it is and a
    /// [`PendingReClaim`] comes back, to ask again with.
    pub fn claim(self, local: &mut LivelinessManager, ledger: &mut ClaimLedger) -> (granted: Result<
        ReClaim,
        PendingReClaim,
    >)
        ensures
            final(local)@ == old(local)@.cancel(),
            final(ledger)@ == holder_after_claim(old(ledger)@, self@),
            old(ledger)@ is None <==> granted is Ok,
            granted matches Ok(claim) ==> claim@ == self@,
            granted matches Err(pending) ==> pending@ == self@,
    {
        let released_liveliness_guard = self.local_execution_liveliness_guard.cancel(local);
        let pending = PendingReClaim { released_liveliness_guard, claim_manager: self.claim_manager };
        pending.claim(ledger)
    }
}

impl PendingReClaim {
    /// Asks for the claim again.
    pub fn claim(self, ledger: &mut ClaimLedger) -> (granted: Result<ReClaim, PendingReClaim>)
        ensures
            final(ledger)@ == holder_after_claim(old(ledger)@, self@),
            old(ledger)@ is None <==> granted is Ok,
            granted matches Ok(claim) ==> claim@ == self@,
            granted matches Err(pending) ==> pending@ == self@,
    {
        let PendingReClaim { released_liveliness_guard, claim_manager } = self;
        match claim_manager.claim(ledger) {
            Ok(claim) => Ok(ReClaim { released_liveliness_guard, claim }),
            Err(claim_manager) => Err(PendingReClaim { released_liveliness_guard, claim_manager }),
        }
    }
}

impl ReClaim {
    /// The side that was granted the claim.
    pub fn side(&self) -> (side: Side)
        ensures
            side == self@,
    {
        self.claim.side()
    }

    /// Lets the local execution proceed again, then hands the claim back.
    ///
    /// Where the local execution cannot be restored nothing changes, and
    /// the claim is not handed back.
    pub fn release(self, local: &mut LivelinessManager, ledger: &mut ClaimLedger) -> (released:
        Result<(), ClaimError>)
        ensures
            final(local)@ == flag_after_re_release(old(local)@),
            final(ledger)@ == holder_after_re_release(old(local)@, old(ledger)@, self@),
            released == re_release_result(old(local)@, old(ledger)@, self@),
    {
        match self.released_liveliness_guard.restore(local) {
            Err(e) => Err(ClaimError::RestoreFailed(e)),
            Ok(guard) => {
                guard.forget(local);
                self.claim.release(ledger)
            },
        }
    }
}

} // verus!
