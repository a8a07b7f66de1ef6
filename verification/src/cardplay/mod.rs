//! The play of the cards, as far as the board needs it.

use crate::board::Board;
use crate::contract::BidContract;
use vstd::prelude::*;

pub mod trick;

verus! {

/// How far the play of a board has come.
#[derive(Debug, PartialEq, Eq, Structural)]
pub enum PlayState {
    /// No card was led yet
    BeforeLead,
}

/// The play of a board.
pub struct Cardplay {
    tricks: Vec<trick::CompletedTrick>,
    state: PlayState,
}

impl Cardplay {
    /// Starts the play of `_contract` on `_board`: no trick was played, and
    /// no card was led.
    pub fn start(_board: &Board, _contract: BidContract) -> (play: Cardplay)
        ensures
            play.spec_tricks_played() == 0,
            play.spec_state() == PlayState::BeforeLead,
    {
        Cardplay { tricks: Vec::new(), state: PlayState::BeforeLead }
    }

    /// The number of tricks that were played.
    pub closed spec fn spec_tricks_played(&self) -> nat {
        self.tricks@.len()
    }

    /// How far the play has come.
    pub closed spec fn spec_state(&self) -> PlayState {
        self.state
    }

    /// Returns the number of tricks that were played.
    pub fn tricks_played(&self) -> (r: usize)
        ensures
            r == self.spec_tricks_played(),
    {
        self.tricks.len()
    }

    /// Returns how far the play has come.
    pub fn state(&self) -> (r: &PlayState)
        ensures
            *r == self.spec_state(),
    {
        &self.state
    }
}

} // verus!
