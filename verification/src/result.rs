//! Severity levels and rule violations.

use vstd::prelude::*;

verus! {

/// The severity of a violation. The variants are totally ordered by
/// [`Level::rank`]: `Warning` is below `Error`.
#[derive(Clone, Copy, Debug, Hash, PartialEq, Eq, Structural)]
pub enum Level {
    Warning,
    Error,
}

impl Level {
    /// The rank of this level in the severity order.
    pub open spec fn spec_rank(self) -> nat {
        match self {
            Level::Warning => 0,
            Level::Error => 1,
        }
    }

    /// Returns the rank of this level; a level with a greater rank is more
    /// severe.
    pub fn rank(&self) -> (r: u32)
        ensures
            r == self.spec_rank(),
    {
        match self {
            Level::Warning => 0,
            Level::Error => 1,
        }
    }

    /// Returns whether this level is at least as severe as `other`.
    pub fn at_least(&self, other: &Level) -> (r: bool)
        ensures
            r == (self.spec_rank() >= other.spec_rank()),
    {
        self.rank() >= other.rank()
    }
}

/// The result of one failed rule check: a severity and a human-readable
/// description. Immutable once constructed.
#[derive(Clone, Debug, PartialEq, Eq)]
pub struct Violation {
    /// The severity the rule resolved for this failure.
    pub level: Level,
    /// The human-readable description of the failure.
    pub message: String,
}

/// The mathematical model of a [`Violation`]: the same severity, with the
/// message text as a sequence of characters.
pub struct ViolationModel {
    pub level: Level,
    pub message: Seq<char>,
}

impl View for Violation {
    type V = ViolationModel;

    open spec fn view(&self) -> ViolationModel {
        ViolationModel { level: self.level, message: self.message@ }
    }
}

impl DeepView for Violation {
    type V = ViolationModel;

    open spec fn deep_view(&self) -> ViolationModel {
        self.view()
    }
}

} // verus!
