//! The event log: what the players did, in words, for a display to show.
//!
//! The log keeps every entry of the session and, beside it, the entries
//! that were added since a reader last asked for the new ones.

use vstd::prelude::*;
use vstd::string::StringExecFns;
use crate::card_manager::card::{Card, CardProperties};
use crate::player::player::Player;

verus! {

/// The log of a session.
pub struct PlayerMiddleware {
    game_log: Vec<String>,
    update_log: Vec<String>,
}

/// What a log holds: all entries of the session, and those not yet handed
/// to a reader, both oldest first.
pub struct LogView {
    pub game_log: Seq<Seq<char>>,
    pub update_log: Seq<Seq<char>>,
}

/// The first entry of every log.
pub open spec fn start_message() -> Seq<char> {
    "Game start!"@
}

/// The entry for a card that a player has played.
pub open spec fn played_message(player: Seq<char>, card: Seq<char>) -> Seq<char> {
    player + " played "@ + card
}

/// The entry for a card that a player has bought.
pub open spec fn bought_message(player: Seq<char>, card: Seq<char>) -> Seq<char> {
    player + " bought "@ + card
}

impl LogView {
    /// The log of a session in which nothing has happened yet.
    pub open spec fn fresh() -> LogView {
        LogView { game_log: seq![start_message()], update_log: seq![start_message()] }
    }

    /// The log with one more entry, which no reader has seen.
    pub open spec fn with_entry(self, message: Seq<char>) -> LogView {
        LogView {
            game_log: self.game_log.push(message),
            update_log: self.update_log.push(message),
        }
    }

    /// The log once a reader has taken the new entries.
    pub open spec fn drained(self) -> LogView {
        LogView { game_log: self.game_log, update_log: Seq::empty() }
    }
}

impl View for PlayerMiddleware {
    type V = LogView;

    closed spec fn view(&self) -> LogView {
        LogView { game_log: self.game_log.deep_view(), update_log: self.update_log.deep_view() }
    }
}

/// Returns a copy of `entries`.
fn copy_entries(entries: &Vec<String>) -> (copy: Vec<String>)
    ensures
        copy.deep_view() == entries.deep_view(),
{
    let mut copy: Vec<String> = Vec::new();
    let mut i: usize = 0;
    while i < entries.len()
        invariant
            i <= entries@.len(),
            copy@.len() == i,
            forall|j: int| 0 <= j < i ==> copy@[j]@ == entries@[j]@,
        decreases entries@.len() - i,
    {
        copy.push(entries[i].clone());
        i += 1;
    }
    assert(copy.deep_view() =~= entries.deep_view());
    copy
}

impl PlayerMiddleware {
    /// Returns the log of a session that has just begun: it holds the
    /// opening entry, which no reader has seen.
    pub fn new() -> (log: PlayerMiddleware)
        ensures
            log@ == LogView::fresh(),
    {
        let mut m = PlayerMiddleware { game_log: Vec::new(), update_log: Vec::new() };
        m.game_log.push(String::from_str("Game start!"));
        m.update_log.push(String::from_str("Game start!"));
        assert(m.game_log.deep_view() =~= seq![start_message()]);
        assert(m.update_log.deep_view() =~= seq![start_message()]);
        m
    }

    /// Adds `message` to the log as an entry that no reader has seen.
    fn record(&mut self, message: String)
        ensures
            final(self)@ == old(self)@.with_entry(message@),
    {
        self.game_log.push(message.clone());
        self.update_log.push(message);
        assert(self.game_log.deep_view() =~= old(self).game_log.deep_view().push(message@));
        assert(self.update_log.deep_view() =~= old(self).update_log.deep_view().push(message@));
    }

    /// Records that player `p` has played `card`.
    pub fn played_card_middleware(&mut self, p: &Player, card: &CardProperties)
        ensures
            final(self)@ == old(self)@.with_entry(played_message(p@.name, card@.name)),
    {
        let message = p.name.clone().concat(" played ").concat(card.get_name().as_str());
        self.record(message);
    }

    /// Records that the player called `name` has bought a card called
    /// `card_name`.
    pub fn bought_card_middleware(&mut self, name: String, card_name: String)
        ensures
            final(self)@ == old(self)@.with_entry(bought_message(name@, card_name@)),
    {
        let message = name.concat(" bought ").concat(card_name.as_str());
        self.record(message);
    }

    /// Returns every entry of the session, oldest first.
    pub fn get_log(&self) -> (entries: Vec<String>)
        ensures
            entries.deep_view() == self@.game_log,
    {
        copy_entries(&self.game_log)
    }

    /// Returns the entries added since the last call, oldest first, and
    /// marks them as read.
    pub fn get_update_log(&mut self) -> (entries: Vec<String>)
        ensures
            entries.deep_view() == old(self)@.update_log,
            final(self)@ == old(self)@.drained(),
    {
        let log = copy_entries(&self.update_log);
        self.update_log.clear();
        assert(self.update_log.deep_view() =~= Seq::empty());
        log
    }
}

} // verus!
