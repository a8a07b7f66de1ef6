//! Contracts and their duplicate-bridge scores.

use crate::auction::StrainBid;
use crate::contract::util::{over_score, spec_over_score, spec_trick_score, trick_score};
use crate::direction::{BridgeDirection, Vulnerability};
use core::cmp::Ordering;
use vstd::prelude::*;
use vstd::std_specs::cmp::PartialOrdSpecImpl;

pub mod util;

verus! {

/// The suit that a bid names, or no-trump.
#[derive(Copy, Clone, Debug, PartialEq, Eq, Structural, Ord)]
pub enum Strain {
    /// Clubs, the lowest strain
    Clubs,
    /// Diamonds
    Diamonds,
    /// Hearts
    Hearts,
    /// Spades
    Spades,
    /// No-trump, the highest strain
    NoTrump,
}

impl Strain {
    /// The strain's place in the order Clubs, Diamonds, Hearts, Spades,
    /// NoTrump, counted from 0.
    pub open spec fn spec_rank(self) -> int {
        match self {
            Strain::Clubs => 0,
            Strain::Diamonds => 1,
            Strain::Hearts => 2,
            Strain::Spades => 3,
            Strain::NoTrump => 4,
        }
    }

    /// Returns the strain's place in the order of strains, counted from 0.
    pub fn rank(self) -> (r: u8)
        ensures
            r == self.spec_rank(),
    {
        match self {
            Strain::Clubs => 0,
            Strain::Diamonds => 1,
            Strain::Hearts => 2,
            Strain::Spades => 3,
            Strain::NoTrump => 4,
        }
    }
}

impl PartialOrd for Strain {
    fn partial_cmp(&self, other: &Self) -> (r: Option<Ordering>) {
        let a: u8 = self.rank();
        let b: u8 = other.rank();
        if a < b {
            Some(Ordering::Less)
        } else if a == b {
            Some(Ordering::Equal)
        } else {
            Some(Ordering::Greater)
        }
    }
}

impl PartialOrdSpecImpl for Strain {
    open spec fn obeys_partial_cmp_spec() -> bool {
        true
    }

    open spec fn partial_cmp_spec(&self, other: &Self) -> Option<Ordering> {
        if self.spec_rank() < other.spec_rank() {
            Some(Ordering::Less)
        } else if self.spec_rank() == other.spec_rank() {
            Some(Ordering::Equal)
        } else {
            Some(Ordering::Greater)
        }
    }
}

/// The number of tricks above six that a bid promises.
#[derive(Copy, Clone, Debug, PartialEq, Eq, Structural, Ord)]
pub enum ContractLevel {
    /// Seven tricks
    One,
    /// Eight tricks
    Two,
    /// Nine tricks
    Three,
    /// Ten tricks
    Four,
    /// Eleven tricks
    Five,
    /// Twelve tricks, a small slam
    Six,
    /// All thirteen tricks, a grand slam
    Seven,
}

impl ContractLevel {
    /// The level as a number from 1 to 7.
    pub open spec fn spec_number(self) -> int {
        match self {
            ContractLevel::One => 1,
            ContractLevel::Two => 2,
            ContractLevel::Three => 3,
            ContractLevel::Four => 4,
            ContractLevel::Five => 5,
            ContractLevel::Six => 6,
            ContractLevel::Seven => 7,
        }
    }

    /// Returns the level as a number from 1 to 7.
    pub fn number(self) -> (n: u8)
        ensures
            n == self.spec_number(),
    {
        match self {
            ContractLevel::One => 1,
            ContractLevel::Two => 2,
            ContractLevel::Three => 3,
            ContractLevel::Four => 4,
            ContractLevel::Five => 5,
            ContractLevel::Six => 6,
            ContractLevel::Seven => 7,
        }
    }

    /// Returns the level that has the number `n`, if `n` is one of 1 to 7.
    pub fn from_u8(n: u8) -> (r: Option<ContractLevel>)
        ensures
            r is Some <==> 1 <= n <= 7,
            r matches Some(level) ==> level.spec_number() == n,
    {
        match n {
            1 => Some(ContractLevel::One),
            2 => Some(ContractLevel::Two),
            3 => Some(ContractLevel::Three),
            4 => Some(ContractLevel::Four),
            5 => Some(ContractLevel::Five),
            6 => Some(ContractLevel::Six),
            7 => Some(ContractLevel::Seven),
            _ => None,
        }
    }
}

impl PartialOrd for ContractLevel {
    fn partial_cmp(&self, other: &Self) -> (r: Option<Ordering>) {
        let a: u8 = self.number();
        let b: u8 = other.number();
        if a < b {
            Some(Ordering::Less)
        } else if a == b {
            Some(Ordering::Equal)
        } else {
            Some(Ordering::Greater)
        }
    }
}

impl PartialOrdSpecImpl for ContractLevel {
    open spec fn obeys_partial_cmp_spec() -> bool {
        true
    }

    open spec fn partial_cmp_spec(&self, other: &Self) -> Option<Ordering> {
        if self.spec_number() < other.spec_number() {
            Some(Ordering::Less)
        } else if self.spec_number() == other.spec_number() {
            Some(Ordering::Equal)
        } else {
            Some(Ordering::Greater)
        }
    }
}

/// A level is known by its number, and a strain by its rank.
pub proof fn lemma_number_and_rank_injective(
    a: ContractLevel,
    b: ContractLevel,
    s: Strain,
    t: Strain,
)
    ensures
        1 <= a.spec_number() <= 7,
        0 <= s.spec_rank() <= 4,
        a.spec_number() == b.spec_number() <==> a == b,
        s.spec_rank() == t.spec_rank() <==> s == t,
{
}

/// A call that names no strain, and the state of a contract that such calls
/// leave behind: undoubled, doubled or redoubled.
#[derive(Copy, Clone, Debug, PartialEq, Eq, Structural)]
pub enum Modifier {
    /// Pass; of a contract: undoubled
    Pass,
    /// Double; of a contract: doubled
    Double,
    /// Redouble; of a contract: redoubled
    Redouble,
}

/// A contract that was bid: the winning bid, whether it was doubled or
/// redoubled, and the player who plays it.
#[derive(Debug, PartialEq, Eq, Structural)]
pub struct BidContract {
    /// The last strain bid of the auction
    pub contract: StrainBid,
    /// Undoubled, doubled or redoubled
    pub modifier: Modifier,
    /// The player of the winning side who first named the strain
    pub declarer: BridgeDirection,
}

impl BidContract {
    /// Returns the level of the contract.
    pub fn level(&self) -> (r: ContractLevel)
        ensures
            r == self.contract.level,
    {
        self.contract.level
    }

    /// Returns the strain of the contract.
    pub fn strain(&self) -> (r: Strain)
        ensures
            r == self.contract.strain,
    {
        self.contract.strain
    }
}

/// The result of an auction.
#[derive(Debug, PartialEq, Eq, Structural)]
pub enum Contract {
    /// Nobody made a strain bid
    PassedOut,
    /// The side of the declarer undertakes to make the bid
    BidContract(BidContract),
}

/// The tricks that a contract of the given level needs: six and the level.
pub open spec fn tricks_needed(level: ContractLevel) -> int {
    6 + level.spec_number()
}

/// What a doubled contract loses for its `k`-th undertrick, counted from 1.
///
/// Not vulnerable, the first undertrick costs 100, the second and third 200
/// each, and every further one 300. Vulnerable, the first costs 200 and every
/// further one 300.
pub open spec fn doubled_undertrick_penalty(vul: bool, k: int) -> int {
    if vul {
        if k == 1 {
            200
        } else {
            300
        }
    } else {
        if k == 1 {
            100
        } else if k <= 3 {
            200
        } else {
            300
        }
    }
}

/// What the declaring side loses for its `k`-th undertrick, counted from 1.
///
/// Undoubled, every undertrick costs 50, or 100 when vulnerable. Redoubled
/// undertricks cost twice the doubled ones.
pub open spec fn undertrick_penalty(modifier: Modifier, vul: bool, k: int) -> int {
    match modifier {
        Modifier::Pass => if vul {
            100
        } else {
            50
        },
        Modifier::Double => doubled_undertrick_penalty(vul, k),
        Modifier::Redouble => 2 * doubled_undertrick_penalty(vul, k),
    }
}

/// What the declaring side loses for `n` undertricks: the sum of what each
/// of them costs.
pub open spec fn penalty_sum(modifier: Modifier, vul: bool, n: nat) -> int
    decreases n,
{
    if n == 0 {
        0
    } else {
        penalty_sum(modifier, vul, (n - 1) as nat) + undertrick_penalty(modifier, vul, n as int)
    }
}

/// The part of a doubled, not vulnerable penalty that counts the second and
/// third undertrick: `down + 1`, but at least -2, and 0 for one down.
pub open spec fn second_tier(down: int) -> int {
    if down < -1 {
        if down + 1 < -2 {
            -2
        } else {
            down + 1
        }
    } else {
        0
    }
}

/// The part of a doubled, not vulnerable penalty that counts the fourth and
/// further undertricks: `down + 3` from four down on, else 0.
pub open spec fn third_tier(down: int) -> int {
    if down < -3 {
        down + 3
    } else {
        0
    }
}

/// The score of a defeated contract. `down` is the tricks taken less the
/// tricks needed, so it is negative, and so is the score.
pub open spec fn defeated_score(modifier: Modifier, vul: bool, down: int) -> int {
    match modifier {
        Modifier::Pass => if vul {
            100 * down
        } else {
            50 * down
        },
        Modifier::Double => if vul {
            down * 300 + 100
        } else {
            third_tier(down) * 300 + second_tier(down) * 200 - 100
        },
        Modifier::Redouble => if vul {
            down * 600 + 200
        } else {
            third_tier(down) * 600 + second_tier(down) * 400 - 200
        },
    }
}

/// By how much doubling multiplies the points for the tricks bid.
pub open spec fn multiplier(modifier: Modifier) -> int {
    match modifier {
        Modifier::Pass => 1,
        Modifier::Double => 2,
        Modifier::Redouble => 4,
    }
}

/// The points for the tricks bid, as doubling and redoubling change them:
/// once, twice or four times `points`.
pub open spec fn multiplied(modifier: Modifier, points: int) -> int {
    match modifier {
        Modifier::Pass => points,
        Modifier::Double => 2 * points,
        Modifier::Redouble => 4 * points,
    }
}

/// The bonus for a game (100 or more points for the tricks bid), or else
/// for a part score.
pub open spec fn made_bonus(trick_points: int, vul: bool) -> int {
    if trick_points >= 100 {
        if vul {
            500
        } else {
            300
        }
    } else {
        50
    }
}

/// The bonus for making a doubled or redoubled contract.
pub open spec fn insult_bonus(modifier: Modifier) -> int {
    match modifier {
        Modifier::Pass => 0,
        Modifier::Double => 50,
        Modifier::Redouble => 100,
    }
}

/// The bonus for a slam that was bid and made.
pub open spec fn slam_bonus(level: ContractLevel, vul: bool) -> int {
    match level {
        ContractLevel::Six => if vul {
            750
        } else {
            500
        },
        ContractLevel::Seven => if vul {
            1500
        } else {
            1000
        },
        _ => 0,
    }
}

/// The score of a contract that was made with `overtricks` tricks to spare:
/// the points for the tricks bid, those for the overtricks, and the bonuses
/// for game or part score, for making a doubled contract, and for a slam.
pub open spec fn made_score(bid: BidContract, vul: bool, overtricks: int) -> int {
    let trick_points = multiplied(
        bid.modifier,
        spec_trick_score(bid.contract.strain, bid.contract.level.spec_number()),
    );
    trick_points + spec_over_score(bid.modifier, bid.contract.strain, overtricks, vul) + made_bonus(
        trick_points,
        vul,
    ) + insult_bonus(bid.modifier) + slam_bonus(bid.contract.level, vul)
}

/// Returns the score of a contract that went `-down` tricks down.
fn defeated_points(modifier: Modifier, vul: bool, down: i32) -> (score: i32)
    requires
        -13 <= down <= -1,
    ensures
        score == defeated_score(modifier, vul, down as int),
{
    match modifier {
        Modifier::Pass => {
            if vul {
                100 * down
            } else {
                50 * down
            }
        },
        Modifier::Double => {
            if vul {
                down * 300 + 100
            } else {
                let bad: i32 = if down < -1 {
                    if down + 1 < -2 {
                        -2
                    } else {
                        down + 1
                    }
                } else {
                    0
                };
                let worse: i32 = if down < -3 {
                    down + 3
                } else {
                    0
                };
                worse * 300 + bad * 200 - 100
            }
        },
        Modifier::Redouble => {
            if vul {
                down * 600 + 200
            } else {
                let bad: i32 = if down < -1 {
                    if down + 1 < -2 {
                        -2
                    } else {
                        down + 1
                    }
                } else {
                    0
                };
                let worse: i32 = if down < -3 {
                    down + 3
                } else {
                    0
                };
                worse * 600 + bad * 400 - 200
            }
        },
    }
}

/// Returns the score of a contract that was made with `overtricks` tricks
/// to spare.
fn made_points(actual_contract: &BidContract, vul: bool, overtricks: usize) -> (score: i32)
    requires
        overtricks <= 6,
    ensures
        score == made_score(*actual_contract, vul, overtricks as int),
{
    let level_bid: usize = actual_contract.level().number() as usize;
    let multiplier: usize = match actual_contract.modifier {
        Modifier::Pass => 1,
        Modifier::Double => 2,
        Modifier::Redouble => 4,
    };
    let trick_points: usize = trick_score(actual_contract.strain(), level_bid);
    assert(trick_points * multiplier == multiplied(actual_contract.modifier, trick_points as int))
        by (nonlinear_arith)
        requires
            multiplier == self::multiplier(actual_contract.modifier),
    {
    }
    let made_score: usize = trick_points * multiplier;
    let over_score: usize = over_score(actual_contract, overtricks, vul);
    let is_game = made_score >= 100;
    let made_bonus: i32 = if is_game {
        if vul {
            500
        } else {
            300
        }
    } else {
        50
    };
    let insult_bonus: i32 = match actual_contract.modifier {
        Modifier::Pass => 0,
        Modifier::Double => 50,
        Modifier::Redouble => 100,
    };
    let slam_bonus: i32 = match actual_contract.level() {
        ContractLevel::Six => {
            if vul {
                750
            } else {
                500
            }
        },
        ContractLevel::Seven => {
            if vul {
                1500
            } else {
                1000
            }
        },
        _ => 0,
    };
    made_score as i32 + over_score as i32 + made_bonus + insult_bonus + slam_bonus
}

impl Contract {
    /// The score of the declaring side for a contract in which it took
    /// `tricks_taken` tricks.
    pub open spec fn spec_score(self, tricks_taken: int, vulnerability: Vulnerability) -> int {
        match self {
            Contract::PassedOut => 0,
            Contract::BidContract(bid) => {
                let vul = vulnerability.spec_is_vulnerable(bid.declarer);
                let down = tricks_taken - tricks_needed(bid.contract.level);
                if down < 0 {
                    defeated_score(bid.modifier, vul, down)
                } else {
                    made_score(bid, vul, down)
                }
            },
        }
    }

    /// Returns the score of the declaring side, given the tricks that it
    /// took. A deal has thirteen tricks.
    pub fn get_score_for_tricks(&self, tricks_taken: usize, vulnerability: Vulnerability) -> (score:
        i32)
        requires
            tricks_taken <= 13,
        ensures
            score == self.spec_score(tricks_taken as int, vulnerability),
    {
        match self {
            Contract::PassedOut => 0,
            Contract::BidContract(actual_contract) => {
                let tricks_needed: usize = 6 + actual_contract.level().number() as usize;

                let vul = vulnerability.is_vulnerable(actual_contract.declarer);
                if tricks_needed > tricks_taken {
                    let down: i32 = tricks_taken as i32 - tricks_needed as i32;
                    defeated_points(actual_contract.modifier, vul, down)
                } else {
                    let overtricks: usize = tricks_taken - tricks_needed;
                    made_points(actual_contract, vul, overtricks)
                }
            },
        }
    }
}

/// A defeated contract costs the sum of what its undertricks cost, one by
/// one.
pub proof fn lemma_defeated_score_is_penalty_sum(modifier: Modifier, vul: bool, n: nat)
    requires
        n >= 1,
    ensures
        defeated_score(modifier, vul, -(n as int)) == -penalty_sum(modifier, vul, n),
    decreases n,
{
    if n == 1 {
        assert(penalty_sum(modifier, vul, 0) == 0);
    } else {
        lemma_defeated_score_is_penalty_sum(modifier, vul, (n - 1) as nat);
    }
}

/// A contract that was passed out scores nothing, a defeated contract
/// scores less than nothing, and a contract that was made scores more.
pub proof fn lemma_score_sign(contract: Contract, tricks_taken: int, vulnerability: Vulnerability)
    requires
        0 <= tricks_taken <= 13,
    ensures
        contract is PassedOut ==> contract.spec_score(tricks_taken, vulnerability) == 0,
        contract matches Contract::BidContract(bid) ==> (tricks_taken < tricks_needed(
            bid.contract.level,
        ) <==> contract.spec_score(tricks_taken, vulnerability) < 0),
        contract matches Contract::BidContract(bid) ==> (tricks_taken >= tricks_needed(
            bid.contract.level,
        ) <==> contract.spec_score(tricks_taken, vulnerability) > 0),
{
}

} // verus!
