//! Where a command would like to run, and how two such wishes combine.

use vstd::prelude::*;

verus! {

/// A ranked hint on where a command should run.
///
/// The variants are listed from the weakest to the strongest. When two hints
/// are combined the stronger one is kept, so a requirement always overrides a
/// preference, and between two hints of the same strength the later variant
/// in this list wins.
#[derive(Debug, Clone, Copy, PartialEq, Eq, Hash, Structural)]
pub enum ExecutorPreference {
    NoPreference,
    PrefersLocal,
    PrefersRemote,
    RequiresLocal,
    RequiresRemote,
}

impl ExecutorPreference {
    /// Position of the hint in the order of precedence.
    pub open spec fn rank(self) -> nat {
        match self {
            ExecutorPreference::NoPreference => 0,
            ExecutorPreference::PrefersLocal => 1,
            ExecutorPreference::PrefersRemote => 2,
            ExecutorPreference::RequiresLocal => 3,
            ExecutorPreference::RequiresRemote => 4,
        }
    }

    /// The stronger of two hints.
    pub open spec fn spec_and(self, other: &ExecutorPreference) -> ExecutorPreference {
        if self.rank() >= other.rank() {
            self
        } else {
            *other
        }
    }

    pub open spec fn spec_requires_local(&self) -> bool {
        *self == ExecutorPreference::RequiresLocal
    }

    pub open spec fn spec_requires_remote(&self) -> bool {
        *self == ExecutorPreference::RequiresRemote
    }

    pub open spec fn spec_prefers_local(&self) -> bool {
        *self == ExecutorPreference::PrefersLocal || *self == ExecutorPreference::RequiresLocal
    }

    pub open spec fn spec_prefers_remote(&self) -> bool {
        *self == ExecutorPreference::PrefersRemote || *self == ExecutorPreference::RequiresRemote
    }

    /// True for the two variants that leave no choice of backend.
    pub open spec fn is_requirement(self) -> bool {
        self.spec_requires_local() || self.spec_requires_remote()
    }

    fn rank_of(&self) -> (r: u8)
        ensures
            r == self.rank(),
    {
        match self {
            ExecutorPreference::NoPreference => 0,
            ExecutorPreference::PrefersLocal => 1,
            ExecutorPreference::PrefersRemote => 2,
            ExecutorPreference::RequiresLocal => 3,
            ExecutorPreference::RequiresRemote => 4,
        }
    }

    /// Combines the executor's own hint with the hint of one request.
    #[verifier::when_used_as_spec(spec_and)]
    pub fn and(self, other: &ExecutorPreference) -> (combined: ExecutorPreference)
        ensures
            combined == self.spec_and(other),
    {
        if self.rank_of() >= other.rank_of() {
            self
        } else {
            *other
        }
    }

    /// Whether the command must run locally.
    #[verifier::when_used_as_spec(spec_requires_local)]
    pub fn requires_local(&self) -> (b: bool)
        ensures
            b == self.spec_requires_local(),
    {
        matches!(self, ExecutorPreference::RequiresLocal)
    }

    /// Whether the command must run remotely.
    #[verifier::when_used_as_spec(spec_requires_remote)]
    pub fn requires_remote(&self) -> (b: bool)
        ensures
            b == self.spec_requires_remote(),
    {
        matches!(self, ExecutorPreference::RequiresRemote)
    }

    /// Whether the local backend is the one to try first.
    #[verifier::when_used_as_spec(spec_prefers_local)]
    pub fn prefers_local(&self) -> (b: bool)
        ensures
            b == self.spec_prefers_local(),
    {
        matches!(self, ExecutorPreference::PrefersLocal | ExecutorPreference::RequiresLocal)
    }

    /// Whether the remote backend is the one to try first.
    #[verifier::when_used_as_spec(spec_prefers_remote)]
    pub fn prefers_remote(&self) -> (b: bool)
        ensures
            b == self.spec_prefers_remote(),
    {
        matches!(self, ExecutorPreference::PrefersRemote | ExecutorPreference::RequiresRemote)
    }
}

} // verus!
