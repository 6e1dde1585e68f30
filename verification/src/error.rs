//! The ways in which an operation of the core can refuse its input.
use vstd::prelude::*;

verus! {

/// Why an operation left the state as it was. Each kind is recoverable: the
/// caller decides what to do with the entity concerned.
#[derive(Clone, Copy, Debug, PartialEq, Eq, Structural)]
pub enum CombatError {
    /// A ratio or an elemental degree would have been divided by zero.
    InvalidStat,
    /// A tether slot that was to be followed holds no body of the world.
    UnresolvedTether,
    /// The point to turn to is the body's own position, so no angle exists.
    DegenerateVector,
}

impl CombatError {
    /// A short description for logs and messages.
    pub fn to_string(&self) -> (text: &'static str)
        ensures
            text@ == self.text(),
    {
        match self {
            CombatError::InvalidStat => "invalid stat: division by zero",
            CombatError::UnresolvedTether => "unresolved tether: the slot holds no body",
            CombatError::DegenerateVector => "degenerate vector: the point is the body's position",
        }
    }

    pub open spec fn text(self) -> Seq<char> {
        match self {
            CombatError::InvalidStat => "invalid stat: division by zero"@,
            CombatError::UnresolvedTether => "unresolved tether: the slot holds no body"@,
            CombatError::DegenerateVector => "degenerate vector: the point is the body's position"@,
        }
    }
}

} // verus!
