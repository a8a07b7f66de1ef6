//! The points for tricks bid and for overtricks.

use crate::contract::{BidContract, Modifier, Strain};
use vstd::prelude::*;

verus! {

/// The points for `how_many` tricks in a strain: 20 each in a minor suit,
/// 30 each in a major suit, and in no-trump 30 each and 10 more for the first.
pub open spec fn spec_trick_score(strain: Strain, how_many: int) -> int {
    match strain {
        Strain::Clubs | Strain::Diamonds => 20 * how_many,
        Strain::Hearts | Strain::Spades => 30 * how_many,
        Strain::NoTrump => 30 * how_many + 10,
    }
}

/// The points for `over` overtricks. Undoubled, an overtrick is worth 20 in
/// a minor suit and 30 in any other strain. Doubled, it is worth 100, or 200
/// when vulnerable; redoubled, twice that.
pub open spec fn spec_over_score(modifier: Modifier, strain: Strain, over: int, vul: bool) -> int {
    match modifier {
        Modifier::Pass => match strain {
            Strain::Clubs | Strain::Diamonds => 20 * over,
            _ => 30 * over,
        },
        Modifier::Double => if vul {
            200 * over
        } else {
            100 * over
        },
        Modifier::Redouble => if vul {
            400 * over
        } else {
            200 * over
        },
    }
}

/// Returns the points for `how_many` tricks bid and made in `strain`, before
/// any doubling.
pub fn trick_score(strain: Strain, how_many: usize) -> (points: usize)
    requires
        30 * how_many + 10 <= usize::MAX,
    ensures
        points == spec_trick_score(strain, how_many as int),
{
    match strain {
        Strain::Clubs | Strain::Diamonds => 20 * how_many,
        Strain::Hearts | Strain::Spades => 30 * how_many,
        Strain::NoTrump => 30 * how_many + 10,
    }
}

/// Returns the points for `over` overtricks in `contract`.
pub fn over_score(contract: &BidContract, over: usize, vul: bool) -> (points: usize)
    requires
        400 * over <= usize::MAX,
    ensures
        points == spec_over_score(contract.modifier, contract.contract.strain, over as int, vul),
{
    match contract.modifier {
        Modifier::Pass => match contract.strain() {
            Strain::Clubs | Strain::Diamonds => 20 * over,
            _ => 30 * over,
        },
        Modifier::Double => {
            if vul {
                200 * over
            } else {
                100 * over
            }
        },
        Modifier::Redouble => {
            if vul {
                400 * over
            } else {
                200 * over
            }
        },
    }
}

} // verus!
