//! A cooperative cancellation flag for a long-running execution.
//!
//! The execution polls a [`LivelinessManager`]; whoever started it keeps a
//! [`LivelinessGuard`]. Cancelling the guard makes the manager report "not
//! alive"; a cancelled guard can be restored, unless the execution has torn
//! its manager down in the meantime. A guard that is forgotten leaves the
//! manager alive for good.
//!
//! The manager is the one cell that both parties look at. Here it is a plain
//! value that every operation takes by reference; a caller that shares it
//! between tasks wraps it in whatever lock it uses.

use vstd::prelude::*;

verus! {

/// What the holder of the guard has last said about the execution.
#[derive(Debug, Clone, Copy, PartialEq, Eq, Hash, Structural)]
pub enum Liveliness {
    /// A guard is held and has not been cancelled.
    Alive,
    /// The guard was cancelled: the execution is asked to stop.
    Cancelled,
    /// The guard was given up without cancelling: nothing will ever ask the
    /// execution to stop.
    Forgotten,
}

/// Why a cancelled guard could not be restored.
#[derive(Debug, Clone, Copy, PartialEq, Eq, Hash, Structural)]
pub enum LivelinessError {
    /// The execution has already acted on the cancellation and torn its
    /// manager down.
    TornDown,
}

/// The mathematical content of a [`LivelinessManager`].
pub struct Flag {
    pub liveliness: Liveliness,
    pub torn_down: bool,
}

impl Flag {
    /// The execution may go on: it has not been asked to stop.
    pub open spec fn is_alive(self) -> bool {
        self.liveliness != Liveliness::Cancelled
    }

    /// The flag of a manager that was just created.
    pub open spec fn fresh() -> Flag {
        Flag { liveliness: Liveliness::Alive, torn_down: false }
    }

    pub open spec fn cancel(self) -> Flag {
        Flag { liveliness: Liveliness::Cancelled, ..self }
    }

    pub open spec fn forget(self) -> Flag {
        Flag { liveliness: Liveliness::Forgotten, ..self }
    }

    pub open spec fn tear_down(self) -> Flag {
        Flag { torn_down: true, ..self }
    }

    /// Restoring succeeds exactly on a flag that was not torn down.
    pub open spec fn can_restore(self) -> bool {
        !self.torn_down
    }

    pub open spec fn restore(self) -> Flag {
        if self.can_restore() {
            Flag { liveliness: Liveliness::Alive, ..self }
        } else {
            self
        }
    }

    /// Alive exactly while both are.
    pub open spec fn and(self, other: Flag) -> Flag {
        Flag {
            liveliness: if self.is_alive() && other.is_alive() {
                Liveliness::Alive
            } else {
                Liveliness::Cancelled
            },
            torn_down: self.torn_down || other.torn_down,
        }
    }

    /// The conjunction is alive exactly while both sides are, whichever
    /// comes first.
    pub proof fn lemma_and_alive(a: Flag, b: Flag)
        ensures
            a.and(b).is_alive() == (a.is_alive() && b.is_alive()),
            a.and(b) == b.and(a),
    {
    }

    /// A cancellation that is restored before the execution tears the
    /// manager down leaves it alive; forgetting the guard then keeps it so.
    pub proof fn lemma_cancel_restore(a: Flag)
        requires
            !a.torn_down,
        ensures
            !a.cancel().is_alive(),
            a.cancel().restore().is_alive(),
            a.cancel().restore().forget().is_alive(),
    {
    }

    /// Once the execution has torn the manager down, a cancellation stays.
    pub proof fn lemma_torn_down_stays_cancelled(a: Flag)
        ensures
            !a.cancel().tear_down().can_restore(),
            a.cancel().tear_down().restore() == a.cancel().tear_down(),
            !a.cancel().tear_down().restore().is_alive(),
    {
    }
}

/// The flag that a running execution polls.
#[derive(Debug, Clone, Copy, PartialEq, Eq, Hash)]
pub struct LivelinessManager {
    state: Liveliness,
    torn_down: bool,
}

/// Held by whoever may cancel the execution.
#[derive(Debug, PartialEq, Eq)]
pub struct LivelinessGuard {}

/// What is left of a guard after `cancel`: the right to undo it.
#[derive(Debug, PartialEq, Eq)]
pub struct CancelledLivelinessGuard {}

impl View for LivelinessManager {
    type V = Flag;

    closed spec fn view(&self) -> Flag {
        Flag { liveliness: self.state, torn_down: self.torn_down }
    }
}

impl LivelinessManager {
    pub open spec fn spec_is_alive(&self) -> bool {
        self@.is_alive()
    }

    /// Two managers with the same flag are the same value.
    pub proof fn lemma_view_injective(a: LivelinessManager, b: LivelinessManager)
        requires
            a@ == b@,
        ensures
            a == b,
    {
    }

    /// Whether the execution may go on.
    #[verifier::when_used_as_spec(spec_is_alive)]
    pub fn is_alive(&self) -> (alive: bool)
        ensures
            alive == self@.is_alive(),
    {
        !matches!(self.state, Liveliness::Cancelled)
    }

    /// What the guard's holder last said.
    pub fn state(&self) -> (state: Liveliness)
        ensures
            state == self@.liveliness,
    {
        self.state
    }

    /// Whether `tear_down` has been called.
    pub fn torn_down(&self) -> (torn_down: bool)
        ensures
            torn_down == self@.torn_down,
    {
        self.torn_down
    }

    /// A manager that is alive exactly while both `self` and `other` are.
    ///
    /// The result is derived from the two flags as they are now; it does
    /// not follow later changes of either.
    pub fn and(&self, other: &LivelinessManager) -> (both: LivelinessManager)
        ensures
            both@ == self@.and(other@),
    {
        let state = if self.is_alive() && other.is_alive() {
            Liveliness::Alive
        } else {
            Liveliness::Cancelled
        };
        LivelinessManager { state, torn_down: self.torn_down || other.torn_down }
    }

    /// Called by the execution once it has acted on a cancellation and will
    /// not look at the flag again. From then on `restore` fails.
    pub fn tear_down(&mut self)
        ensures
            final(self)@ == old(self)@.tear_down(),
    {
        self.torn_down = true;
    }
}

impl LivelinessGuard {
    /// A fresh manager, alive, and the guard that controls it.
    pub fn create() -> (pair: (LivelinessManager, LivelinessGuard))
        ensures
            pair.0@ == Flag::fresh(),
    {
        (LivelinessManager { state: Liveliness::Alive, torn_down: false }, LivelinessGuard {  })
    }

    /// Asks the execution to stop.
    pub fn cancel(self, manager: &mut LivelinessManager) -> (cancelled: CancelledLivelinessGuard)
        ensures
            final(manager)@ == old(manager)@.cancel(),
    {
        manager.state = Liveliness::Cancelled;
        CancelledLivelinessGuard {  }
    }

    /// Gives the guard up without ever asking the execution to stop.
    pub fn forget(self, manager: &mut LivelinessManager)
        ensures
            final(manager)@ == old(manager)@.forget(),
    {
        manager.state = Liveliness::Forgotten;
    }
}

impl CancelledLivelinessGuard {
    /// Undoes the cancellation, unless the execution has torn its manager
    /// down; in that case nothing changes.
    pub fn restore(self, manager: &mut LivelinessManager) -> (restored: Result<
        LivelinessGuard,
        LivelinessError,
    >)
        ensures
            final(manager)@ == old(manager)@.restore(),
            old(manager)@.can_restore() <==> restored is Ok,
            restored matches Err(e) ==> e == LivelinessError::TornDown,
    {
        if manager.torn_down {
            Err(LivelinessError::TornDown)
        } else {
            manager.state = Liveliness::Alive;
            Ok(LivelinessGuard {  })
        }
    }

    /// Gives up the right to restore. The cancellation stands.
    pub fn forget(self, manager: &mut LivelinessManager)
        ensures
            *final(manager) == *old(manager),
    {
    }
}

impl LivelinessError {
    /// A sentence for whoever reads the failure.
    pub fn message(&self) -> (text: &'static str)
        ensures
            text@ == "Unable to restore CancelledLivelinessGuard!"@,
    {
        "Unable to restore CancelledLivelinessGuard!"
    }
}

} // verus!
