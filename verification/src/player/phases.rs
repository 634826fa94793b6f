//! The phases a player passes through during a turn.

use vstd::prelude::*;
use vstd::string::StringExecFns;

verus! {

/// The state of a player's turn, also used to tag when a card may be played.
///
/// `Idle` is the state while the opponent acts, `Action` and `Buy` are the
/// two phases in which cards are played and bought, `Cleanup` is the
/// instantaneous end-of-turn step, and `Never` tags cards that are never
/// played (it is not a state a player rests in).
#[derive(Eq, PartialEq, Clone, Copy, Debug, Structural)]
pub enum PlayerPhases {
    Idle,
    Action,
    Buy,
    Cleanup,
    Never,
}

impl PlayerPhases {
    /// The text shown for a phase.
    pub open spec fn label(self) -> Seq<char> {
        match self {
            PlayerPhases::Action => "Actions"@,
            PlayerPhases::Buy => "Buy"@,
            PlayerPhases::Cleanup => "Cleanup"@,
            PlayerPhases::Idle => "Waiting for opponent. . . "@,
            PlayerPhases::Never => "This should never exist!"@,
        }
    }

    /// The phase in which a player rests after advancing from `self`.
    ///
    /// Advancing out of `Buy` passes through `Cleanup` at once and comes to
    /// rest in `Idle`; `Never` is left as it is.
    pub open spec fn next(self) -> PlayerPhases {
        match self {
            PlayerPhases::Idle => PlayerPhases::Action,
            PlayerPhases::Action => PlayerPhases::Buy,
            PlayerPhases::Buy => PlayerPhases::Idle,
            PlayerPhases::Cleanup => PlayerPhases::Idle,
            PlayerPhases::Never => PlayerPhases::Never,
        }
    }

    /// Whether a player can rest in this phase between operations.
    pub open spec fn is_resting(self) -> bool {
        self == PlayerPhases::Idle || self == PlayerPhases::Action || self == PlayerPhases::Buy
    }

    /// Whether advancing out of this phase runs the end-of-turn cleanup.
    pub open spec fn advance_cleans_up(self) -> bool {
        self == PlayerPhases::Buy
    }

    /// Returns the text shown for the phase.
    pub fn to_string(&self) -> (text: String)
        ensures
            text@ == self.label(),
    {
        match self {
            PlayerPhases::Action => String::from_str("Actions"),
            PlayerPhases::Buy => String::from_str("Buy"),
            PlayerPhases::Cleanup => String::from_str("Cleanup"),
            PlayerPhases::Idle => String::from_str("Waiting for opponent. . . "),
            PlayerPhases::Never => String::from_str("This should never exist!"),
        }
    }
}

/// Advancing repeatedly from `Idle` rests in `Action`, then `Buy`, then
/// `Idle` again, and only the step out of `Buy` runs the cleanup; no resting
/// phase ever advances to `Cleanup` or `Never`.
pub proof fn lemma_phase_cycle(phase: PlayerPhases)
    requires
        phase.is_resting(),
    ensures
        PlayerPhases::Idle.next() == PlayerPhases::Action,
        PlayerPhases::Idle.next().next() == PlayerPhases::Buy,
        PlayerPhases::Idle.next().next().next() == PlayerPhases::Idle,
        !PlayerPhases::Idle.advance_cleans_up(),
        !PlayerPhases::Idle.next().advance_cleans_up(),
        PlayerPhases::Idle.next().next().advance_cleans_up(),
        phase.next().is_resting(),
        phase.next().next().next() == phase,
        phase.next() == PlayerPhases::Idle ==> phase.advance_cleans_up(),
{
}

} // verus!
