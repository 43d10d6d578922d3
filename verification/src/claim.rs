//! The single-winner claim on a command.
//!
//! Two executions of one command may both get as far as wanting to produce
//! its outputs. Only the one that holds the claim may. The [`ClaimLedger`]
//! records who holds it; a [`MutexClaimManager`] is one side's right to ask
//! for it, and a [`MutexClaim`] is the proof that the side was granted it.

use vstd::prelude::*;
use crate::liveliness_manager::Flag;
use crate::liveliness_manager::LivelinessError;
use crate::liveliness_manager::LivelinessManager;
use crate::re_claim::flag_after_re_release;
use crate::re_claim::holder_after_re_release;
use crate::re_claim::re_release_result;
use crate::re_claim::ReClaim;

verus! {

/// One of the two backends that may execute a command.
#[derive(Debug, Clone, Copy, PartialEq, Eq, Hash, Structural)]
pub enum Side {
    Local,
    Remote,
}

impl Side {
    pub open spec fn spec_other(self) -> Side {
        match self {
            Side::Local => Side::Remote,
            Side::Remote => Side::Local,
        }
    }

    /// The backend that is not `self`.
    #[verifier::when_used_as_spec(spec_other)]
    pub fn other(self) -> (o: Side)
        ensures
            o == self.spec_other(),
    {
        match self {
            Side::Local => Side::Remote,
            Side::Remote => Side::Local,
        }
    }
}

/// Why a claim could not be released.
#[derive(Debug, Clone, Copy, PartialEq, Eq, Hash, Structural)]
pub enum ClaimError {
    /// The ledger does not name the releasing side as the holder.
    NotHolder,
    /// The local execution could not be brought back to life.
    RestoreFailed(LivelinessError),
}

/// The holder after `side` has asked for the claim: granted when it was
/// free, unchanged when it was held.
pub open spec fn holder_after_claim(holder: Option<Side>, side: Side) -> Option<Side> {
    if holder is None {
        Some(side)
    } else {
        holder
    }
}

/// The holder after `side` has handed a claim back: free when `side` held
/// it, unchanged otherwise.
pub open spec fn holder_after_release(holder: Option<Side>, side: Side) -> Option<Side> {
    if holder == Some(side) {
        None
    } else {
        holder
    }
}

/// What handing back a claim of `side` returns.
pub open spec fn release_result(holder: Option<Side>, side: Side) -> Result<(), ClaimError> {
    if holder == Some(side) {
        Ok(())
    } else {
        Err(ClaimError::NotHolder)
    }
}

/// Handing back a claim twice is the same as handing it back once, and
/// handing back a claim that was never granted changes nothing: whoever
/// holds the claim legitimately still does.
pub proof fn lemma_release_idempotent(holder: Option<Side>, side: Side)
    ensures
        holder_after_release(holder_after_release(holder, side), side) == holder_after_release(
            holder,
            side,
        ),
        holder != Some(side) ==> holder_after_release(holder, side) == holder,
{
}

/// A side that asks while the other side holds the claim is not granted it.
/// If it releases a claim all the same, the release fails and the holder
/// keeps the claim, which it can then hand back as if nothing had happened.
pub proof fn lemma_loser_leaves_holder(holder: Side, loser: Side)
    requires
        loser != holder,
    ensures
        holder_after_claim(Some(holder), loser) == Some(holder),
        release_result(Some(holder), loser) == Err::<(), _>(ClaimError::NotHolder),
        holder_after_release(Some(holder), loser) == Some(holder),
        release_result(holder_after_release(Some(holder), loser), holder) == Ok::<_, ClaimError>(()),
        holder_after_release(holder_after_release(Some(holder), loser), holder) == None::<Side>,
{
}

/// From a free ledger the first side to ask is granted the claim, the second
/// is not, and once the first has released it the second is.
pub proof fn lemma_exclusive_then_transferred(first: Side, second: Side)
    requires
        first != second,
    ensures
        holder_after_claim(None, first) == Some(first),
        holder_after_claim(holder_after_claim(None, first), second) == Some(first),
        holder_after_claim(holder_after_release(Some(first), first), second) == Some(second),
{
}

/// Who holds the claim on the command, if anyone.
#[derive(Debug, Clone, Copy, PartialEq, Eq, Hash)]
pub struct ClaimLedger {
    holder: Option<Side>,
}

/// One side's right to ask for the claim. Asking consumes it.
#[derive(Debug, PartialEq, Eq)]
pub struct MutexClaimManager {
    side: Side,
}

/// Proof that a side was granted the claim.
#[derive(Debug, PartialEq, Eq)]
pub struct MutexClaim {
    side: Side,
}

impl View for ClaimLedger {
    type V = Option<Side>;

    /// The side that holds the claim.
    closed spec fn view(&self) -> Option<Side> {
        self.holder
    }
}

impl ClaimLedger {
    /// Two ledgers with the same holder are the same value.
    pub proof fn lemma_view_injective(a: ClaimLedger, b: ClaimLedger)
        requires
            a@ == b@,
        ensures
            a == b,
    {
    }

    /// A ledger on which nobody holds the claim.
    pub fn new() -> (ledger: ClaimLedger)
        ensures
            ledger@ is None,
    {
        ClaimLedger { holder: None }
    }

    /// The side that holds the claim.
    pub fn holder(&self) -> (holder: Option<Side>)
        ensures
            holder == self@,
    {
        self.holder
    }
}

impl View for MutexClaimManager {
    type V = Side;

    /// The side on whose behalf this manager asks.
    closed spec fn view(&self) -> Side {
        self.side
    }
}

impl MutexClaimManager {
    /// The right of `side` to ask for the claim.
    pub fn new(side: Side) -> (manager: MutexClaimManager)
        ensures
            manager@ == side,
    {
        MutexClaimManager { side }
    }

    /// The side on whose behalf this manager asks.
    pub fn side(&self) -> (side: Side)
        ensures
            side == self@,
    {
        self.side
    }

    /// Asks for the claim.
    ///
    /// It is granted exactly when nobody holds it. While it is held the
    /// ledger stays as it is and the manager comes back, so that the caller
    /// can wait and ask again.
    pub fn claim(self, ledger: &mut ClaimLedger) -> (granted: Result<MutexClaim, MutexClaimManager>)
        ensures
            final(ledger)@ == holder_after_claim(old(ledger)@, self@),
            old(ledger)@ is None <==> granted is Ok,
            granted matches Ok(claim) ==> claim@ == self@,
            granted matches Err(manager) ==> manager == self,
    {
        match ledger.holder {
            None => {
                ledger.holder = Some(self.side);
                Ok(MutexClaim { side: self.side })
            },
            Some(_) => Err(self),
        }
    }
}

impl View for MutexClaim {
    type V = Side;

    /// The side that was granted the claim.
    closed spec fn view(&self) -> Side {
        self.side
    }
}

impl MutexClaim {
    /// The side that was granted the claim.
    pub fn side(&self) -> (side: Side)
        ensures
            side == self@,
    {
        self.side
    }

    /// Hands the claim back, so that the other side may be granted it.
    ///
    /// Fails, and changes nothing, when the ledger does not name this
    /// claim's side as the holder.
    pub fn release(self, ledger: &mut ClaimLedger) -> (released: Result<(), ClaimError>)
        ensures
            final(ledger)@ == holder_after_release(old(ledger)@, self@),
            released == release_result(old(ledger)@, self@),
    {
        let held = match ledger.holder {
            Some(holder) => holder == self.side,
            None => false,
        };
        if held {
            ledger.holder = None;
            Ok(())
        } else {
            Err(ClaimError::NotHolder)
        }
    }
}

/// A claim as a result carries it: that of a side that asked the ledger
/// directly, or that of the side that cancelled the local execution first.
#[derive(Debug, PartialEq, Eq)]
pub enum Claim {
    Mutex(MutexClaim),
    Re(ReClaim),
}

impl Claim {
    /// The side that was granted the claim.
    pub open spec fn owner(&self) -> Side {
        match self {
            Claim::Mutex(claim) => claim@,
            Claim::Re(claim) => claim@,
        }
    }

    /// What `release` returns on a local flag and a holder.
    pub open spec fn spec_release(&self, flag: Flag, holder: Option<Side>) -> Result<
        (),
        ClaimError,
    > {
        match self {
            Claim::Mutex(claim) => release_result(holder, claim@),
            Claim::Re(claim) => re_release_result(flag, holder, claim@),
        }
    }

    /// The local flag after `release`.
    pub open spec fn flag_after_release(&self, flag: Flag) -> Flag {
        match self {
            Claim::Mutex(_) => flag,
            Claim::Re(_) => flag_after_re_release(flag),
        }
    }

    /// The holder after `release`.
    pub open spec fn holder_after_release(&self, flag: Flag, holder: Option<Side>) -> Option<Side> {
        match self {
            Claim::Mutex(claim) => holder_after_release(holder, claim@),
            Claim::Re(claim) => holder_after_re_release(flag, holder, claim@),
        }
    }

    /// The side that was granted the claim.
    pub fn side(&self) -> (side: Side)
        ensures
            side == self.owner(),
    {
        match self {
            Claim::Mutex(claim) => claim.side(),
            Claim::Re(claim) => claim.side(),
        }
    }

    /// Hands the claim back, so that the other side may be granted it.
    ///
    /// `local` is the flag of the local execution: releasing the remote
    /// side's claim restores it first. On failure the claim is not handed
    /// back.
    pub fn release(self, local: &mut LivelinessManager, ledger: &mut ClaimLedger) -> (released:
        Result<(), ClaimError>)
        ensures
            released == self.spec_release(old(local)@, old(ledger)@),
            final(local)@ == self.flag_after_release(old(local)@),
            final(ledger)@ == self.holder_after_release(old(local)@, old(ledger)@),
    {
        match self {
            Claim::Mutex(claim) => claim.release(ledger),
            Claim::Re(claim) => claim.release(local, ledger),
        }
    }
}

impl ClaimError {
    /// A sentence for whoever reads the failure.
    pub fn message(&self) -> (text: &'static str)
        ensures
            text@ == match *self {
                ClaimError::NotHolder => "Claim released by a side that does not hold it"@,
                ClaimError::RestoreFailed(_) => "Unable to restore CancelledLivelinessGuard!"@,
            },
    {
        match self {
            ClaimError::NotHolder => "Claim released by a side that does not hold it",
            ClaimError::RestoreFailed(e) => e.message(),
        }
    }
}

} // verus!
