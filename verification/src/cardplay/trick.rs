//! Tricks that were played.

use crate::direction::{lemma_turns_modulo, turn_at, turns, BridgeDirection};
use bridge_deck::Card;
use vstd::pervasive::unreached;
use vstd::prelude::*;

verus! {

/// A trick of four cards, each with the player who played it.
#[derive(Debug, PartialEq, Eq)]
pub struct CompletedTrick {
    /// The card that North played
    pub north: Card,
    /// The card that East played
    pub east: Card,
    /// The card that South played
    pub south: Card,
    /// The card that West played
    pub west: Card,
}

impl CompletedTrick {
    /// The card that `seat` played.
    pub open spec fn card_of(&self, seat: BridgeDirection) -> Card {
        match seat {
            BridgeDirection::N => self.north,
            BridgeDirection::E => self.east,
            BridgeDirection::S => self.south,
            BridgeDirection::W => self.west,
        }
    }

    /// Makes a trick of the four cards in `cards`, which were played in
    /// turn, `lead` first: each card goes to the player who played it.
    pub fn new(lead: BridgeDirection, cards: Vec<Card>) -> (trick: CompletedTrick)
        requires
            cards@.len() == 4,
        ensures
            forall|k: nat| k < 4 ==> trick.card_of(turn_at(lead, k)) == cards@[k as int],
    {
        let mut trick = CompletedTrick {
            north: cards[0],
            east: cards[0],
            south: cards[0],
            west: cards[0],
        };
        let mut seats = turns(lead);
        let mut played: usize = 0;
        while played < 4
            invariant
                played <= 4,
                cards@.len() == 4,
                seats@ == turn_at(lead, played as nat),
                forall|k: nat| k < played ==> trick.card_of(turn_at(lead, k)) == cards@[k as int],
            decreases 4 - played,
        {
            let seat: BridgeDirection = match seats.next() {
                Some(seat) => seat,
                None => unreached(),
            };
            proof {
                assert forall|k: nat| k < played implies turn_at(lead, k) != seat by {
                    lemma_turns_modulo(lead, k, played as nat);
                }
            }
            match seat {
                BridgeDirection::N => {
                    trick.north = cards[played];
                },
                BridgeDirection::E => {
                    trick.east = cards[played];
                },
                BridgeDirection::S => {
                    trick.south = cards[played];
                },
                BridgeDirection::W => {
                    trick.west = cards[played];
                },
            }
            played = played + 1;
        }
        trick
    }
}

} // verus!
