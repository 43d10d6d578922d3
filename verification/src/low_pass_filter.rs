//! An admission filter that bounds how many accessors proceed at once.
//!
//! Every accessor is counted from the moment it asks, whether it is then
//! let through or made to wait, until it gives its guard up. An accessor is
//! let through when the count, itself included, does not exceed the
//! capacity. Giving a guard up lowers the count and, where the new count
//! admits an accessor, wakes one of those that wait; the one that is woken
//! checks the count again for itself.
//!
//! The filter here is the count and its rules. Suspending an accessor and
//! waking it are the caller's business: `access` and `poll` say whether to
//! proceed, and `drop` says whether to wake someone.

use vstd::prelude::*;

verus! {

/// The count of accessors, and the capacity it is held against.
#[derive(Debug, Clone, Copy, PartialEq, Eq, Hash)]
pub struct LowPassFilterState {
    accessors: usize,
    capacity: usize,
}

/// The filter.
#[derive(Debug, Clone, Copy, PartialEq, Eq, Hash)]
pub struct LowPassFilter {
    state: LowPassFilterState,
}

/// An accessor's place in the count, from `access` until `drop`.
#[derive(Debug, PartialEq, Eq)]
pub struct LowPassFilterGuard {
    admitted: bool,
}

/// The accessors of a filter as a bystander would count them: all that have
/// asked and not left, and those among them that were let through.
pub struct Occupancy {
    pub accessors: nat,
    pub capacity: nat,
    pub admitted: nat,
}

impl Occupancy {
    /// Those let through are accessors, and are never more than the
    /// capacity.
    pub open spec fn wf(self) -> bool {
        self.admitted <= self.accessors && self.admitted <= self.capacity
    }

    /// The count admits an accessor.
    pub open spec fn dispatch_more(self) -> bool {
        self.accessors <= self.capacity
    }

    /// Those that have asked and wait.
    pub open spec fn waiting(self) -> nat {
        (self.accessors - self.admitted) as nat
    }

    /// A filter that nobody has asked yet.
    pub open spec fn empty(capacity: nat) -> Occupancy {
        Occupancy { accessors: 0, capacity, admitted: 0 }
    }

    /// One more accessor asks. It is let through at once if the count
    /// admits it.
    pub open spec fn arrive(self) -> Occupancy {
        let counted = Occupancy { accessors: self.accessors + 1, ..self };
        if counted.dispatch_more() {
            Occupancy { admitted: counted.admitted + 1, ..counted }
        } else {
            counted
        }
    }

    /// One accessor that waits looks at the count again.
    pub open spec fn poll(self) -> Occupancy {
        if self.waiting() > 0 && self.dispatch_more() {
            Occupancy { admitted: self.admitted + 1, ..self }
        } else {
            self
        }
    }

    /// One accessor leaves: one that was let through if `admitted`, one
    /// that waited otherwise.
    pub open spec fn leave(self, admitted: bool) -> Occupancy {
        Occupancy {
            accessors: (self.accessors - 1) as nat,
            capacity: self.capacity,
            admitted: if admitted {
                (self.admitted - 1) as nat
            } else {
                self.admitted
            },
        }
    }

    /// Whether a departure wakes one of those that wait.
    pub open spec fn leave_notifies(self) -> bool {
        self.accessors - 1 <= self.capacity
    }

    /// The filter never lets through more than its capacity: every arrival,
    /// every second look and every departure keeps the number of those let
    /// through within the number of accessors and within the capacity.
    pub proof fn lemma_never_over_admits(self, admitted_leaves: bool)
        requires
            self.wf(),
        ensures
            Self::empty(self.capacity).wf(),
            self.arrive().wf(),
            self.poll().wf(),
            admitted_leaves && self.admitted > 0 ==> self.leave(true).wf(),
            !admitted_leaves && self.waiting() > 0 ==> self.leave(false).wf(),
    {
    }

    /// One look lets through at most one accessor, and lets one through
    /// exactly when someone waits and the count admits an accessor. An
    /// arrival or a departure alone lets nobody through who was waiting.
    pub proof fn lemma_one_at_a_time(self)
        requires
            self.wf(),
        ensures
            self.poll().admitted <= self.admitted + 1,
            self.poll().admitted == self.admitted + 1 <==> self.waiting() > 0
                && self.dispatch_more(),
            self.arrive().waiting() >= self.waiting(),
            self.admitted > 0 ==> self.leave(true).admitted == self.admitted - 1,
            self.waiting() > 0 ==> self.leave(false).admitted == self.admitted,
    {
    }

    /// While the count exceeds the capacity, nobody who waits is let
    /// through, however often it looks. A departure notifies exactly when
    /// it brings the count within the capacity; the one that looks next is
    /// then let through in place of the one that left, and otherwise is
    /// not.
    pub proof fn lemma_release_admits_next(self)
        requires
            self.wf(),
            self.admitted > 0,
            self.waiting() > 0,
            !self.dispatch_more(),
        ensures
            self.poll() == self,
            self.leave_notifies() == self.leave(true).dispatch_more(),
            self.leave_notifies() ==> self.leave(true).poll().admitted == self.admitted,
            !self.leave_notifies() ==> self.leave(true).poll() == self.leave(true),
    {
    }
}

impl LowPassFilterState {
    /// How many accessors have asked and not left.
    pub closed spec fn accessors(&self) -> nat {
        self.accessors as nat
    }

    /// How many accessors may proceed at once.
    pub closed spec fn capacity(&self) -> nat {
        self.capacity as nat
    }

    pub open spec fn spec_dispatch_more(&self) -> bool {
        self.accessors() <= self.capacity()
    }

    /// Whether the count, as it stands, admits an accessor.
    #[verifier::when_used_as_spec(spec_dispatch_more)]
    pub fn dispatch_more(&self) -> (more: bool)
        ensures
            more == (self.accessors() <= self.capacity()),
    {
        self.accessors <= self.capacity
    }
}

impl View for LowPassFilter {
    type V = LowPassFilterState;

    closed spec fn view(&self) -> LowPassFilterState {
        self.state
    }
}

impl LowPassFilter {
    /// Whether `occupancy` counts what this filter counts.
    pub open spec fn counts(&self, occupancy: Occupancy) -> bool {
        self@.accessors() == occupancy.accessors && self@.capacity() == occupancy.capacity
    }

    /// The filter does what the bystander's count says: what `access`,
    /// `poll` and `drop` promise of a filter that `occupancy` counts is an
    /// arrival, a second look and a departure of `occupancy`.
    pub proof fn lemma_follows_occupancy(
        before: LowPassFilter,
        after: LowPassFilter,
        occupancy: Occupancy,
        admitted_leaves: bool,
    )
        requires
            before.counts(occupancy),
            after@.capacity() == before@.capacity(),
        ensures
            after@.accessors() == before@.accessors() + 1 ==> after.counts(occupancy.arrive())
                && after@.spec_dispatch_more() == (occupancy.arrive().admitted
                == occupancy.admitted + 1),
            occupancy.waiting() > 0 ==> before@.spec_dispatch_more() == (occupancy.poll().admitted
                == occupancy.admitted + 1),
            before@.accessors() > 0 && after@.accessors() == before@.accessors() - 1
                ==> after.counts(occupancy.leave(admitted_leaves)) && after@.spec_dispatch_more()
                == occupancy.leave_notifies(),
    {
    }

    /// A filter that lets `capacity` accessors proceed at once.
    pub fn new(capacity: usize) -> (filter: LowPassFilter)
        ensures
            filter@.accessors() == 0,
            filter@.capacity() == capacity,
    {
        LowPassFilter { state: LowPassFilterState { accessors: 0, capacity } }
    }

    /// The count, and the capacity it is held against.
    pub fn state(&self) -> (state: &LowPassFilterState)
        ensures
            *state == self@,
    {
        &self.state
    }

    /// How many accessors have asked and not left.
    pub fn accessors(&self) -> (n: usize)
        ensures
            n == self@.accessors(),
    {
        self.state.accessors
    }

    /// How many accessors may proceed at once.
    pub fn capacity(&self) -> (n: usize)
        ensures
            n == self@.capacity(),
    {
        self.state.capacity
    }

    /// Whether the count, as it stands, admits an accessor.
    pub fn dispatch_more(&self) -> (more: bool)
        ensures
            more == self@.spec_dispatch_more(),
    {
        self.state.dispatch_more()
    }

    /// Counts one more accessor and hands out its guard.
    ///
    /// The guard is admitted at once if the new count is within the
    /// capacity. Otherwise the accessor has to wait, and to `poll` when it
    /// is woken. It is counted either way: a guard that is given up while
    /// waiting lowers the count again.
    pub fn access(&mut self) -> (guard: LowPassFilterGuard)
        requires
            old(self)@.accessors() < usize::MAX,
        ensures
            final(self)@.accessors() == old(self)@.accessors() + 1,
            final(self)@.capacity() == old(self)@.capacity(),
            guard@ == final(self)@.spec_dispatch_more(),
    {
        self.state.accessors = self.state.accessors + 1;
        LowPassFilterGuard { admitted: self.state.dispatch_more() }
    }
}

impl View for LowPassFilterGuard {
    type V = bool;

    /// Whether the accessor was let through.
    closed spec fn view(&self) -> bool {
        self.admitted
    }
}

impl LowPassFilterGuard {
    /// Whether the accessor was let through.
    pub fn is_admitted(&self) -> (admitted: bool)
        ensures
            admitted == self@,
    {
        self.admitted
    }

    /// Looks at the count again, as an accessor does when it is woken.
    ///
    /// A guard that waits becomes admitted if the count is within the
    /// capacity. A guard that was admitted stays so.
    pub fn poll(&mut self, filter: &LowPassFilter) -> (admitted: bool)
        ensures
            admitted == final(self)@,
            admitted == (old(self)@ || filter@.spec_dispatch_more()),
    {
        if !self.admitted {
            self.admitted = filter.dispatch_more();
        }
        self.admitted
    }

    /// Gives the guard up: lowers the count, and says whether one of the
    /// accessors that wait is to be woken.
    pub fn drop(self, filter: &mut LowPassFilter) -> (notify_one: bool)
        requires
            old(filter)@.accessors() > 0,
        ensures
            final(filter)@.accessors() == old(filter)@.accessors() - 1,
            final(filter)@.capacity() == old(filter)@.capacity(),
            notify_one == final(filter)@.spec_dispatch_more(),
    {
        filter.state.accessors = filter.state.accessors - 1;
        filter.state.dispatch_more()
    }
}

} // verus!
