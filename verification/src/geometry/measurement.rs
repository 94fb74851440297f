//! The constraints a parent widget places on the size of a child.

use vstd::prelude::*;

verus! {

/// A constraint on one dimension of a widget.
#[derive(Clone, Copy, Debug, PartialEq, Eq, Structural)]
pub enum MeasureConstraint {
    /// The widget may take up to this much space.
    AtMost(u32),
    /// The widget takes exactly this much space.
    Exactly(u32),
    /// The widget may take as much space as it wants.
    Unspecified,
}

/// Constraints on both dimensions of a widget.
#[derive(Clone, Copy, Debug, PartialEq, Eq, Structural)]
pub struct MeasureSpec {
    pub width: MeasureConstraint,
    pub height: MeasureConstraint,
}

impl MeasureConstraint {
    pub open spec fn spec_shrink(self, by: u32) -> MeasureConstraint {
        match self {
            MeasureConstraint::AtMost(size) => MeasureConstraint::AtMost(
                if size >= by { (size - by) as u32 } else { 0 },
            ),
            MeasureConstraint::Exactly(size) => MeasureConstraint::Exactly(
                if size >= by { (size - by) as u32 } else { 0 },
            ),
            MeasureConstraint::Unspecified => MeasureConstraint::Unspecified,
        }
    }

    pub open spec fn spec_largest(self) -> Option<u32> {
        match self {
            MeasureConstraint::AtMost(size) => Some(size),
            MeasureConstraint::Exactly(size) => Some(size),
            MeasureConstraint::Unspecified => None,
        }
    }

    pub open spec fn spec_apply_to_measured(self, measured: u32) -> u32 {
        match self {
            MeasureConstraint::AtMost(size) => if measured <= size { measured } else { size },
            MeasureConstraint::Exactly(size) => size,
            MeasureConstraint::Unspecified => measured,
        }
    }

    /// The constraint left for the content once `by` is taken away; a size never goes
    /// below zero.
    pub fn shrink(self, by: u32) -> (r: MeasureConstraint)
        ensures
            r == self.spec_shrink(by),
    {
        match self {
            MeasureConstraint::AtMost(size) => MeasureConstraint::AtMost(size.saturating_sub(by)),
            MeasureConstraint::Exactly(size) => MeasureConstraint::Exactly(size.saturating_sub(by)),
            MeasureConstraint::Unspecified => MeasureConstraint::Unspecified,
        }
    }

    /// The largest size the constraint allows, if it has a limit.
    pub fn largest(self) -> (r: Option<u32>)
        ensures
            r == self.spec_largest(),
    {
        match self {
            MeasureConstraint::AtMost(size) => Some(size),
            MeasureConstraint::Exactly(size) => Some(size),
            MeasureConstraint::Unspecified => None,
        }
    }

    /// The size a widget that wants `measured` gets under this constraint.
    pub fn apply_to_measured(self, measured: u32) -> (r: u32)
        ensures
            r == self.spec_apply_to_measured(measured),
    {
        match self {
            MeasureConstraint::AtMost(size) => if measured <= size {
                measured
            } else {
                size
            },
            MeasureConstraint::Exactly(size) => size,
            MeasureConstraint::Unspecified => measured,
        }
    }
}

/// Law: the size a widget gets under a constraint never exceeds the constraint's limit, is
/// the exact size where the constraint sets one, and is never more than the widget wanted
/// otherwise.
pub proof fn law_apply_to_measured_obeys_constraint(c: MeasureConstraint, measured: u32)
    ensures
        c.spec_largest() matches Some(limit) ==> c.spec_apply_to_measured(measured) <= limit,
        c matches MeasureConstraint::Exactly(size) ==> c.spec_apply_to_measured(measured) == size,
        c.spec_apply_to_measured(measured) <= measured || c is Exactly,
{
}

} // verus!
