//! Boards: the four hands of a deal, and the number that decides who deals
//! and who is vulnerable.

use crate::auction::Auction;
use crate::cardplay::Cardplay;
use crate::contract::Contract;
use crate::deck::{all_cards, cards_in, full_deck, lemma_all_cards, pick};
use crate::direction::{BridgeDirection, Vulnerability};
use bridge_deck::Cards;
use vstd::pervasive::unreached;
use vstd::prelude::*;
use vstd::set_lib::{lemma_len_subset, lemma_set_difference_len};

verus! {

/// The vulnerability of the board with the given number. It repeats every
/// sixteen boards.
pub open spec fn vulnerability_of(number: nat) -> Vulnerability {
    let place = number % 16;
    if place == 1 || place == 8 || place == 11 || place == 14 {
        Vulnerability::NONE
    } else if place == 2 || place == 5 || place == 12 || place == 15 {
        Vulnerability::NS
    } else if place == 3 || place == 6 || place == 9 || place == 0 {
        Vulnerability::EW
    } else {
        Vulnerability::ALL
    }
}

/// The dealer of the board with the given number: North deals board 1, and
/// the deal goes round the table from board to board.
pub open spec fn dealer_of(number: nat) -> BridgeDirection {
    let place = number % 4;
    if place == 1 {
        BridgeDirection::N
    } else if place == 2 {
        BridgeDirection::E
    } else if place == 3 {
        BridgeDirection::S
    } else {
        BridgeDirection::W
    }
}

/// The deal moves one seat on with each board.
pub proof fn lemma_dealer_rotates(number: nat)
    ensures
        dealer_of(number + 1) == dealer_of(number).spec_successor(),
        dealer_of(number + 4) == dealer_of(number),
        vulnerability_of(number + 16) == vulnerability_of(number),
{
}

/// A bridge board: the cards that the four players hold at the start, and
/// the number of the board.
pub struct Board {
    /// The cards held by North
    pub north: Cards,
    /// The cards held by East
    pub east: Cards,
    /// The cards held by South
    pub south: Cards,
    /// The cards held by West
    pub west: Cards,
    /// The number of the board
    pub number: usize,
}

impl Board {
    /// Whether the four hands are a deal: each holds thirteen cards, no
    /// card is in two hands, and together they are the full deck.
    pub open spec fn is_dealt(&self) -> bool {
        let north = cards_in(self.north);
        let east = cards_in(self.east);
        let south = cards_in(self.south);
        let west = cards_in(self.west);
        &&& north.finite() && east.finite() && south.finite() && west.finite()
        &&& north.len() == 13 && east.len() == 13 && south.len() == 13 && west.len() == 13
        &&& north.disjoint(east) && north.disjoint(south) && north.disjoint(west)
        &&& east.disjoint(south) && east.disjoint(west) && south.disjoint(west)
        &&& north + east + south + west == all_cards()
    }

    /// Deals the first board.
    pub fn first() -> (board: Board)
        ensures
            board.is_dealt(),
            board.number == 1,
    {
        Self::new(1)
    }

    /// Deals the board with the given number: each player gets thirteen
    /// cards of the deck, chosen at random.
    pub fn new(number: usize) -> (board: Board)
        ensures
            board.is_dealt(),
            board.number == number,
    {
        let mut full_deck = full_deck();
        let ghost all = cards_in(full_deck);
        proof {
            lemma_all_cards();
        }
        let north = deal_hand(&mut full_deck);
        let ghost after_north = cards_in(full_deck);
        let east = deal_hand(&mut full_deck);
        let ghost after_east = cards_in(full_deck);
        let south = deal_hand(&mut full_deck);
        let ghost after_south = cards_in(full_deck);
        let west = deal_hand(&mut full_deck);
        proof {
            let n = cards_in(north);
            let e = cards_in(east);
            let s = cards_in(south);
            let w = cards_in(west);
            let rest = cards_in(full_deck);
            assert(after_north == all.difference(n));
            assert(after_east == after_north.difference(e));
            assert(after_south == after_east.difference(s));
            assert(rest == after_south.difference(w));
            assert(rest.len() == 0);
            assert(rest =~= Set::<int>::empty());
            assert forall|card: int| all.contains(card) implies (n + e + s + w).contains(card) by {
                if !n.contains(card) && !e.contains(card) && !s.contains(card) && !w.contains(card) {
                    assert(after_north.contains(card));
                    assert(after_east.contains(card));
                    assert(after_south.contains(card));
                    assert(rest.contains(card));
                }
            }
            assert(n + e + s + w =~= all);
        }
        Board { north, east, south, west, number }
    }

    /// Returns the vulnerability of the board.
    pub fn vulnerability(self) -> (r: Vulnerability)
        ensures
            r == vulnerability_of(self.number as nat),
    {
        match self.number % 16 {
            1 | 8 | 11 | 14 => Vulnerability::NONE,
            2 | 5 | 12 | 15 => Vulnerability::NS,
            3 | 6 | 9 | 0 => Vulnerability::EW,
            _ => Vulnerability::ALL,
        }
    }

    /// Returns the dealer of the board.
    pub fn dealer(self) -> (r: BridgeDirection)
        ensures
            r == dealer_of(self.number as nat),
    {
        match self.number % 4 {
            1 => BridgeDirection::N,
            2 => BridgeDirection::E,
            3 => BridgeDirection::S,
            _ => BridgeDirection::W,
        }
    }
}

/// Takes thirteen cards out of a deck that holds at least thirteen.
fn deal_hand(deck: &mut Cards) -> (hand: Cards)
    requires
        cards_in(*old(deck)).finite(),
        cards_in(*old(deck)).len() >= 13,
    ensures
        cards_in(hand).finite(),
        cards_in(hand).len() == 13,
        cards_in(hand).subset_of(cards_in(*old(deck))),
        cards_in(*final(deck)).finite(),
        cards_in(*final(deck)) == cards_in(*old(deck)).difference(cards_in(hand)),
        cards_in(*final(deck)).len() == cards_in(*old(deck)).len() - 13,
{
    let ghost before = cards_in(*deck);
    match pick(deck, 13) {
        Some(hand) => {
            proof {
                lemma_len_subset(cards_in(hand), before);
                lemma_set_difference_len(before, cards_in(hand));
                assert(before.intersect(cards_in(hand)) =~= cards_in(hand));
            }
            hand
        },
        None => unreached(),
    }
}

/// How far a board has come at a table.
enum BoardState {
    /// Nothing happened yet
    NotStarted,
    /// The players are bidding
    Bidding(Auction),
    /// The auction is over, and the opening lead is awaited
    OnLead(Auction),
    /// The cards are played
    Playing(Auction, Contract, Cardplay),
    /// The board was played to its end
    Completed,
}

impl Default for BoardState {
    fn default() -> (state: Self)
        ensures
            state is NotStarted,
    {
        BoardState::NotStarted
    }
}

/// What the play of a board at a table is to its users.
pub struct BoardPlayView {
    /// The number of the board
    pub board_number: nat,
    /// The number of the table
    pub table_number: nat,
    /// Whether the board was played to its end
    pub completed: bool,
    /// The contract, once the auction is over
    pub contract: Option<Contract>,
    /// The tricks that the declaring side took
    pub tricks_taken: nat,
}

/// The score of a board for the declaring side: that of its contract, once
/// the board was played to its end.
pub open spec fn board_score(play: BoardPlayView) -> Option<int> {
    if play.completed && play.contract is Some {
        Some(
            play.contract->Some_0.spec_score(
                play.tricks_taken as int,
                vulnerability_of(play.board_number),
            ),
        )
    } else {
        None
    }
}

/// The play of a board at a table.
pub struct BoardPlay {
    board: Board,
    state: BoardState,
    table_number: usize,
    contract: Option<Contract>,
    tricks_taken: usize,
}

impl View for BoardPlay {
    type V = BoardPlayView;

    closed spec fn view(&self) -> BoardPlayView {
        BoardPlayView {
            board_number: self.board.number as nat,
            table_number: self.table_number as nat,
            completed: self.state is Completed,
            contract: self.contract,
            tricks_taken: self.tricks_taken as nat,
        }
    }
}

impl BoardPlay {
    /// A deal has thirteen tricks.
    #[verifier::type_invariant]
    spec fn well_formed(&self) -> bool {
        self.tricks_taken <= 13
    }

    /// Deals the first board for table 0. Nothing was bid or played yet.
    pub fn new() -> (play: BoardPlay)
        ensures
            play@ == (BoardPlayView {
                board_number: 1,
                table_number: 0,
                completed: false,
                contract: None,
                tricks_taken: 0,
            }),
    {
        BoardPlay {
            board: Board::first(),
            state: BoardState::default(),
            table_number: 0,
            contract: None,
            tricks_taken: 0,
        }
    }

    /// Starts the play of the board.
    pub fn start_play(self) {
    }

    /// Returns the score of the board for the declaring side, or `None`
    /// while the board was not played to its end.
    pub fn score(self) -> (r: Option<i32>)
        ensures
            r is Some <==> board_score(self@) is Some,
            r matches Some(score) ==> board_score(self@) == Some(score as int),
    {
        proof {
            use_type_invariant(&self);
        }
        match self.state {
            BoardState::Completed => match self.contract {
                Some(contract) => Some(
                    contract.get_score_for_tricks(self.tricks_taken, self.board.vulnerability()),
                ),
                None => None,
            },
            _ => None,
        }
    }
}

} // verus!
