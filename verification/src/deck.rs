//! The deck of cards, which the crate `bridge_deck` keeps.
//!
//! The contracts in this file are not proved: they state what the source of
//! `bridge_deck` shows, and the rest of the library is proved from them.

use vstd::prelude::*;
use vstd::set_lib::{lemma_int_range, lemma_set_disjoint_lens, set_int_range};

verus! {

/// `bridge_deck::Cards`, a deck or a hand: a set of cards in which no card
/// occurs twice. Verus sees nothing inside it.
#[verifier::external_type_specification]
#[verifier::external_body]
pub struct ExCards(bridge_deck::Cards);

/// `bridge_deck::Card`, a single card. Verus sees nothing inside it.
#[verifier::external_type_specification]
#[verifier::external_body]
pub struct ExCard(bridge_deck::Card);

/// The cards that `cards` holds, each as its number in `bridge_deck`: 16
/// times the suit (clubs 0, diamonds 1, hearts 2, spades 3) and the rank,
/// which goes from 2 to 14 for the ace.
pub uninterp spec fn cards_in(cards: bridge_deck::Cards) -> Set<int>;

/// The thirteen cards of a suit.
pub open spec fn suit_cards(suit: int) -> Set<int> {
    set_int_range(16 * suit + 2, 16 * suit + 15)
}

/// The fifty-two cards of a deck.
pub open spec fn all_cards() -> Set<int> {
    suit_cards(0) + suit_cards(1) + suit_cards(2) + suit_cards(3)
}

/// A deck has fifty-two cards, thirteen in each suit.
pub proof fn lemma_all_cards()
    ensures
        all_cards().finite(),
        all_cards().len() == 52,
        forall|suit: int| #[trigger] suit_cards(suit).finite() && suit_cards(suit).len() == 13,
{
    assert forall|suit: int| #[trigger] suit_cards(suit).finite() && suit_cards(suit).len()
        == 13 by {
        lemma_int_range(16 * suit + 2, 16 * suit + 15);
    }
    let minors = suit_cards(0) + suit_cards(1);
    let lower = minors + suit_cards(2);
    assert(suit_cards(0).finite() && suit_cards(1).finite() && suit_cards(2).finite()
        && suit_cards(3).finite());
    assert(suit_cards(0).disjoint(suit_cards(1)));
    lemma_set_disjoint_lens(suit_cards(0), suit_cards(1));
    assert(minors.disjoint(suit_cards(2)));
    lemma_set_disjoint_lens(minors, suit_cards(2));
    assert(lower.disjoint(suit_cards(3)));
    lemma_set_disjoint_lens(lower, suit_cards(3));
}

/// `bridge_deck::Cards::ALL`: the full deck. Its source sets, for each of
/// the four suits, the thirteen bits of the ranks 2 to 14.
#[verifier::external_body]
pub(crate) fn full_deck() -> (deck: bridge_deck::Cards)
    ensures
        cards_in(deck) == all_cards(),
{
    bridge_deck::Cards::ALL
}

/// `bridge_deck::Cards::pick`: takes `num` cards out of `deck`, chosen at
/// random, and returns them. With fewer than `num` cards in it the deck
/// stays as it is and nothing is returned. Which cards leave the deck is not
/// stated: only that there are `num` of them, that they were in the deck,
/// and that the deck keeps the others.
#[verifier::external_body]
pub(crate) fn pick(deck: &mut bridge_deck::Cards, num: usize) -> (picked: Option<
    bridge_deck::Cards,
>)
    requires
        cards_in(*old(deck)).finite(),
    ensures
        picked is None <==> num > cards_in(*old(deck)).len(),
        picked is None ==> *final(deck) == *old(deck),
        picked matches Some(hand) ==> {
            &&& cards_in(hand).subset_of(cards_in(*old(deck)))
            &&& cards_in(hand).len() == num
            &&& cards_in(*final(deck)) == cards_in(*old(deck)).difference(cards_in(hand))
        },
{
    deck.pick(num)
}

} // verus!
