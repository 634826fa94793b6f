//! The errors that a command of the game can end in.
//!
//! None of them is fatal: each reports a request that the rules refuse and
//! leaves the game as it was.

use vstd::prelude::*;
use vstd::string::StringExecFns;
use vstd::std_specs::convert::FromSpecImpl;

verus! {

/// The decimal digit that stands for `digit`, for `digit` below ten.
pub open spec fn digit_text(digit: nat) -> Seq<char> {
    if digit == 0 {
        "0"@
    } else if digit == 1 {
        "1"@
    } else if digit == 2 {
        "2"@
    } else if digit == 3 {
        "3"@
    } else if digit == 4 {
        "4"@
    } else if digit == 5 {
        "5"@
    } else if digit == 6 {
        "6"@
    } else if digit == 7 {
        "7"@
    } else if digit == 8 {
        "8"@
    } else {
        "9"@
    }
}

/// The number `n` written in decimal without leading zeros.
pub open spec fn decimal_text(n: nat) -> Seq<char>
    decreases n,
{
    if n < 10 {
        digit_text(n)
    } else {
        decimal_text(n / 10) + digit_text(n % 10)
    }
}

/// Returns the decimal digit that stands for `digit`.
fn digit_str(digit: usize) -> (text: &'static str)
    requires
        digit < 10,
    ensures
        text@ == digit_text(digit as nat),
{
    match digit {
        0 => "0",
        1 => "1",
        2 => "2",
        3 => "3",
        4 => "4",
        5 => "5",
        6 => "6",
        7 => "7",
        8 => "8",
        _ => "9",
    }
}

/// Writes `n` in decimal without leading zeros.
pub fn decimal_string(n: usize) -> (text: String)
    ensures
        text@ == decimal_text(n as nat),
{
    let mut rest: usize = n;
    let mut text: String = String::from_str(digit_str(rest % 10));
    rest = rest / 10;
    proof {
        if n >= 10 {
            assert(decimal_text(n as nat) == decimal_text((n / 10) as nat) + digit_text((n % 10) as nat));
        }
    }
    while rest > 0
        invariant
            rest > 0 ==> decimal_text(n as nat) == decimal_text(rest as nat) + text@,
            rest == 0 ==> decimal_text(n as nat) == text@,
        decreases rest,
    {
        let ghost before = text@;
        text = String::from_str(digit_str(rest % 10)).concat(text.as_str());
        proof {
            if rest >= 10 {
                assert(decimal_text(rest as nat) == decimal_text((rest / 10) as nat) + digit_text(
                    (rest % 10) as nat,
                ));
                assert(decimal_text(n as nat) =~= decimal_text((rest / 10) as nat) + text@);
            }
        }
        rest = rest / 10;
    }
    text
}

/// An index into a zone of the board at which no pile lies.
#[derive(Debug)]
pub struct CardNotFoundError {
    pub index: usize,
}

impl CardNotFoundError {
    /// What the error says to a player.
    pub open spec fn message(self) -> Seq<char> {
        "Card at index "@ + decimal_text(self.index as nat) + " not found"@
    }

    /// Returns what the error says to a player.
    pub fn to_string(&self) -> (text: String)
        ensures
            text@ == self.message(),
    {
        String::from_str("Card at index ").concat(decimal_string(self.index).as_str()).concat(
            " not found",
        )
    }
}

/// A draw from a pile that has no cards left.
#[derive(Debug, Clone)]
pub struct OutOfCardsError;

impl OutOfCardsError {
    /// What the error says to a player.
    pub open spec fn message() -> Seq<char> {
        "No more cards in object."@
    }

    /// Returns what the error says to a player.
    pub fn to_string(&self) -> (text: String)
        ensures
            text@ == OutOfCardsError::message(),
    {
        String::from_str("No more cards in object.")
    }
}

/// A command that the phase or the resources of the player do not allow.
#[derive(Debug)]
pub struct InvalidActionError {
    /// What the player tried to do.
    pub action_attempted: String,
}

impl InvalidActionError {
    /// What the error says to a player.
    pub open spec fn message(self) -> Seq<char> {
        "Invalid action: "@ + self.action_attempted@
    }

    /// Returns what the error says to a player.
    pub fn to_string(&self) -> (text: String)
        ensures
            text@ == self.message(),
    {
        String::from_str("Invalid action: ").concat(self.action_attempted.as_str())
    }
}

/// Every error of the game, so that a command has one error type.
#[derive(Debug)]
pub enum GameErrors {
    OutOfCardsError(OutOfCardsError),
    CardNotFoundError(CardNotFoundError),
    InvalidActionError(InvalidActionError),
}

impl GameErrors {
    /// Whether the error refuses a command for its phase or resources, with
    /// the given account of what was tried.
    pub open spec fn is_invalid_action(self, attempted: Seq<char>) -> bool {
        self matches GameErrors::InvalidActionError(inner) && inner.action_attempted@ == attempted
    }

    /// Whether the error reports that no pile lies at `index`.
    pub open spec fn is_card_not_found(self, index: usize) -> bool {
        self matches GameErrors::CardNotFoundError(inner) && inner.index == index
    }

    /// Whether the error reports a draw from an empty pile.
    pub open spec fn is_out_of_cards(self) -> bool {
        self is OutOfCardsError
    }
}

impl From<OutOfCardsError> for GameErrors {
    fn from(value: OutOfCardsError) -> (error: GameErrors) {
        GameErrors::OutOfCardsError(value)
    }
}

impl FromSpecImpl<OutOfCardsError> for GameErrors {
    open spec fn obeys_from_spec() -> bool {
        true
    }

    open spec fn from_spec(value: OutOfCardsError) -> GameErrors {
        GameErrors::OutOfCardsError(value)
    }
}

impl From<CardNotFoundError> for GameErrors {
    fn from(value: CardNotFoundError) -> (error: GameErrors) {
        GameErrors::CardNotFoundError(value)
    }
}

impl FromSpecImpl<CardNotFoundError> for GameErrors {
    open spec fn obeys_from_spec() -> bool {
        true
    }

    open spec fn from_spec(value: CardNotFoundError) -> GameErrors {
        GameErrors::CardNotFoundError(value)
    }
}

impl From<InvalidActionError> for GameErrors {
    fn from(value: InvalidActionError) -> (error: GameErrors) {
        GameErrors::InvalidActionError(value)
    }
}

impl FromSpecImpl<InvalidActionError> for GameErrors {
    open spec fn obeys_from_spec() -> bool {
        true
    }

    open spec fn from_spec(value: InvalidActionError) -> GameErrors {
        GameErrors::InvalidActionError(value)
    }
}

} // verus!
