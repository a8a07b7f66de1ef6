//! The auction: the calls that players make, and the rules that decide
//! which call is legal, when the bidding ends and what contract it ends in.

use crate::contract::{BidContract, Contract, ContractLevel, Modifier, Strain};
use crate::direction::{turn_at, turns, BridgeDirection};
use core::cmp::Ordering;
use vstd::pervasive::unreached;
use vstd::prelude::*;
use vstd::std_specs::cmp::PartialOrdSpec;

pub mod notation;
pub mod rules;

use rules::{
    can_double, can_redouble, completed, contract_of, is_legal, is_sufficient, last_bidder_of,
    last_meaningful, last_real_index, last_strain_bid_of, legal_history, lemma_calls_before_first_bid,
    lemma_declarer, lemma_last_real_index, lemma_push, lemma_trailing_passes, names_strain,
    rejection, trailing_passes,
};

verus! {

/// The bid of a number of tricks in a strain.
///
/// Bids are ordered by level first and by strain second.
#[derive(Copy, Clone, Debug, PartialEq, Eq, Structural, Ord)]
pub struct StrainBid {
    /// The level of the bid
    pub level: ContractLevel,
    /// The strain of the bid
    pub strain: Strain,
}

impl StrainBid {
    /// Whether this bid is lower than `other`: its level is lower, or the
    /// levels are the same and its strain comes first in the order Clubs,
    /// Diamonds, Hearts, Spades, NoTrump.
    pub open spec fn is_below(self, other: StrainBid) -> bool {
        self.level.spec_number() < other.level.spec_number() || (self.level.spec_number()
            == other.level.spec_number() && self.strain.spec_rank() < other.strain.spec_rank())
    }
}

impl PartialOrd for StrainBid {
    fn partial_cmp(&self, other: &Self) -> (r: Option<Ordering>) {
        let a: u8 = self.level.number();
        let b: u8 = other.level.number();
        let s: u8 = self.strain.rank();
        let t: u8 = other.strain.rank();
        if a < b || (a == b && s < t) {
            Some(Ordering::Less)
        } else if a == b && s == t {
            Some(Ordering::Equal)
        } else {
            Some(Ordering::Greater)
        }
    }
}

impl vstd::std_specs::cmp::PartialOrdSpecImpl for StrainBid {
    open spec fn obeys_partial_cmp_spec() -> bool {
        true
    }

    open spec fn partial_cmp_spec(&self, other: &Self) -> Option<Ordering> {
        if self.is_below(*other) {
            Some(Ordering::Less)
        } else if *self == *other {
            Some(Ordering::Equal)
        } else {
            Some(Ordering::Greater)
        }
    }
}

/// Bids compare by level first and by strain second: `a < b` holds exactly
/// when the level of `a` is lower, or the levels are the same and the strain
/// of `a` comes first.
pub proof fn lemma_bid_order(a: StrainBid, b: StrainBid)
    ensures
        a.partial_cmp_spec(&b) == Some(Ordering::Less) <==> (a.level.spec_number()
            < b.level.spec_number() || (a.level == b.level && a.strain.spec_rank()
            < b.strain.spec_rank())),
        a.partial_cmp_spec(&b) == Some(Ordering::Equal) <==> (a.level == b.level && a.strain
            == b.strain),
        a.partial_cmp_spec(&b) == Some(Ordering::Greater) <==> b.partial_cmp_spec(&a) == Some(
            Ordering::Less,
        ),
{
}

/// The order of bids is total and strict: of two bids exactly one is below
/// the other unless they are the same bid, and being below carries over.
pub proof fn lemma_bid_order_total(a: StrainBid, b: StrainBid, c: StrainBid)
    ensures
        !a.is_below(a),
        a.is_below(b) || b.is_below(a) || a == b,
        !(a.is_below(b) && b.is_below(a)),
        a.is_below(b) && b.is_below(c) ==> a.is_below(c),
{
}

/// A call made by a player.
#[derive(Copy, Clone, Debug, PartialEq, Eq, Structural)]
pub enum Bid {
    /// The bid of a strain at a level
    RealBid(StrainBid),
    /// Pass, Double or Redouble
    Other(Modifier),
}

/// Returns the call Pass.
pub fn pass() -> (bid: Bid)
    ensures
        bid == Bid::Other(Modifier::Pass),
{
    Bid::Other(Modifier::Pass)
}

/// Returns the call Double.
pub fn double() -> (bid: Bid)
    ensures
        bid == Bid::Other(Modifier::Double),
{
    Bid::Other(Modifier::Double)
}

/// Returns the call Redouble.
pub fn redouble() -> (bid: Bid)
    ensures
        bid == Bid::Other(Modifier::Redouble),
{
    Bid::Other(Modifier::Redouble)
}

/// Returns the bid of `strain` at `level`.
pub fn strain_bid(level: ContractLevel, strain: Strain) -> (bid: Bid)
    ensures
        bid == Bid::RealBid(StrainBid { level, strain }),
{
    Bid::RealBid(StrainBid { level, strain })
}

/// Why a call was refused.
#[derive(Debug, PartialEq, Eq, Structural)]
pub enum Error {
    /// The bid is not higher than the last strain bid
    InsufficientBid,
    /// There is no bid of the other side to double
    CantDouble,
    /// There is no double of the other side to redouble
    CantRedouble,
}

/// What an auction is to its users: the dealer, who calls first, and the
/// calls made so far, in the order in which they were made.
pub struct AuctionView {
    /// The player who makes the first call
    pub dealer: BridgeDirection,
    /// The calls that were accepted, oldest first
    pub bids: Seq<Bid>,
}

/// A bridge auction.
///
/// Players call in rotation, the dealer first. The auction takes the calls
/// in that order and refuses those that the rules do not allow. It keeps the
/// last strain bid and the seat that made it beside the calls.
#[derive(Debug)]
pub struct Auction {
    dealer: BridgeDirection,
    bids: Vec<Bid>,
    last_strain_bid: Option<StrainBid>,
    last_bidder: Option<BridgeDirection>,
}

impl View for Auction {
    type V = AuctionView;

    closed spec fn view(&self) -> AuctionView {
        AuctionView { dealer: self.dealer, bids: self.bids@ }
    }
}

impl Auction {
    /// What holds of every auction that this library makes: every call was
    /// legal when it was made, and the last strain bid and its bidder, which
    /// the auction keeps beside the calls, are those of the calls.
    pub closed spec fn well_formed(&self) -> bool {
        &&& legal_history(self.bids@)
        &&& self.last_strain_bid == last_strain_bid_of(self.bids@)
        &&& self.last_bidder == last_bidder_of(self.dealer, self.bids@)
    }

    /// Starts an auction in which `dealer` calls first.
    pub fn new(dealer: BridgeDirection) -> (auction: Auction)
        ensures
            auction.well_formed(),
            auction@.dealer == dealer,
            auction@.bids == Seq::<Bid>::empty(),
    {
        Auction { dealer, bids: Vec::new(), last_strain_bid: None, last_bidder: None }
    }

    /// Makes the call `bid` for the player whose turn it is.
    ///
    /// A legal call is added to the calls. A call that the rules do not allow
    /// is refused with the error that belongs to it, and the auction stays as
    /// it was.
    pub fn bid(&mut self, bid: Bid) -> (r: Result<(), Error>)
        requires
            old(self).well_formed(),
        ensures
            final(self).well_formed(),
            r is Ok <==> is_legal(old(self)@.bids, bid),
            r is Ok ==> final(self)@.bids == old(self)@.bids.push(bid),
            r is Err ==> r == Err::<(), Error>(rejection(bid)),
            r is Err ==> *final(self) == *old(self),
            r is Err ==> final(self)@.bids.len() == old(self)@.bids.len(),
            r is Err ==> completed(final(self)@.bids) == completed(old(self)@.bids),
            r is Err ==> contract_of(final(self)@.dealer, final(self)@.bids) == contract_of(
                old(self)@.dealer,
                old(self)@.bids,
            ),
            final(self)@.dealer == old(self)@.dealer,
    {
        proof {
            lemma_push(self.bids@, bid);
            lemma_last_real_index(self.bids@);
        }
        match bid {
            Bid::Other(Modifier::Pass) => {
                self.bids.push(bid);
                Ok(())
            },
            Bid::RealBid(real_bid) => {
                if self.is_bid_sufficient(real_bid) {
                    self.last_strain_bid = Some(real_bid);
                    self.last_bidder = Some(self.whose_turn_is_it());
                    self.bids.push(bid);
                    Ok(())
                } else {
                    Err(Error::InsufficientBid)
                }
            },
            Bid::Other(Modifier::Double) => {
                if self.can_double() {
                    self.bids.push(bid);
                    Ok(())
                } else {
                    Err(Error::CantDouble)
                }
            },
            Bid::Other(Modifier::Redouble) => {
                if self.can_redouble() {
                    self.bids.push(bid);
                    Ok(())
                } else {
                    Err(Error::CantRedouble)
                }
            },
        }
    }

    /// Tells whether the auction is over: everyone has called, and the last
    /// three calls were Passes.
    pub fn is_completed(&self) -> (r: bool)
        ensures
            r == completed(self@.bids),
            self@.bids.len() < 4 ==> !r,
    {
        let len: usize = self.bids.len();
        len >= 4 && is_pass_call(self.bids[len - 1]) && is_pass_call(self.bids[len - 2])
            && is_pass_call(self.bids[len - 3])
    }

    /// Tells whether a strain bid was made. In an auction a call other than
    /// Pass is a strain bid or follows one, so this looks for such a call.
    #[verifier::loop_isolation(false)]
    pub fn has_real_bid(&self) -> (r: bool)
        requires
            self.well_formed(),
        ensures
            r == (last_real_index(self@.bids) >= 0),
            r == exists|i: int| 0 <= i < self@.bids.len() && self@.bids[i] is RealBid,
    {
        proof {
            lemma_last_real_index(self.bids@);
        }
        let mut i: usize = 0;
        while i < self.bids.len()
            invariant
                i <= self.bids@.len(),
                forall|j: int| 0 <= j < i ==> self.bids@[j].is_pass(),
            decreases self.bids@.len() - i,
        {
            if !is_pass_call(self.bids[i]) {
                proof {
                    if last_real_index(self.bids@) < 0 {
                        lemma_calls_before_first_bid(self.bids@);
                    }
                    assert(self.bids@[last_real_index(self.bids@)] is RealBid);
                }
                return true;
            }
            i = i + 1;
        }
        false
    }

    /// Returns the contract that the auction ended in, or `None` while the
    /// auction is not over.
    ///
    /// An auction without a strain bid is passed out. Otherwise the contract
    /// is the last strain bid, doubled or redoubled as the last call other
    /// than Pass says. Its declarer is the player who first bid its strain,
    /// of the two players on the side that made the last strain bid.
    #[verifier::loop_isolation(false)]
    pub fn contract(&self) -> (r: Option<Contract>)
        requires
            self.well_formed(),
        ensures
            r == contract_of(self@.dealer, self@.bids),
            r is Some <==> completed(self@.bids),
    {
        if self.is_completed() {
            match self.last_strain_bid {
                None => Some(Contract::PassedOut),
                Some(contract) => {
                    proof {
                        lemma_last_real_index(self.bids@);
                        lemma_trailing_passes(self.bids@);
                        lemma_declarer(self.dealer, self.bids@);
                    }
                    let modifier: Modifier = match self.last_meaningful_bid() {
                        Some(Bid::RealBid(_)) => Modifier::Pass,
                        Some(Bid::Other(modifier)) => modifier,
                        None => unreached(),
                    };
                    let contract_set_by: BridgeDirection = match self.last_bidder {
                        Some(seat) => seat,
                        None => unreached(),
                    };
                    let ghost first = rules::first_to_name(
                        self.dealer,
                        self.bids@,
                        contract.strain,
                        contract_set_by,
                        0,
                    );
                    let mut seats = turns(self.dealer);
                    let mut i: usize = 0;
                    while i < self.bids.len()
                        invariant
                            i <= first < self.bids@.len(),
                            seats@ == turn_at(self.dealer, i as nat),
                            names_strain(
                                self.dealer,
                                self.bids@,
                                contract.strain,
                                contract_set_by,
                                first,
                            ),
                            forall|j: int|
                                0 <= j < first ==> !names_strain(
                                    self.dealer,
                                    self.bids@,
                                    contract.strain,
                                    contract_set_by,
                                    j,
                                ),
                        decreases self.bids@.len() - i,
                    {
                        let bidder: BridgeDirection = match seats.next() {
                            Some(seat) => seat,
                            None => unreached(),
                        };
                        let names_it = match self.bids[i] {
                            Bid::RealBid(real_bid) => real_bid.strain == contract.strain,
                            Bid::Other(_) => false,
                        };
                        if names_it && (bidder == contract_set_by || bidder
                            == contract_set_by.partner()) {
                            proof {
                                assert(names_strain(
                                    self.dealer,
                                    self.bids@,
                                    contract.strain,
                                    contract_set_by,
                                    i as int,
                                ));
                                assert(i == first);
                            }
                            return Some(
                                Contract::BidContract(
                                    BidContract { contract, modifier, declarer: bidder },
                                ),
                            );
                        }
                        i = i + 1;
                    }
                    unreached()
                },
            }
        } else {
            None
        }
    }

    /// Returns the player who calls first.
    pub fn dealer(&self) -> (r: BridgeDirection)
        ensures
            r == self@.dealer,
    {
        self.dealer
    }

    /// Returns the calls made so far, oldest first.
    pub fn bids(&self) -> (r: &Vec<Bid>)
        ensures
            r@ == self@.bids,
    {
        &self.bids
    }

    /// Returns the last strain bid, if one was made.
    pub fn last_strain_bid(&self) -> (r: Option<StrainBid>)
        requires
            self.well_formed(),
        ensures
            r == last_strain_bid_of(self@.bids),
    {
        self.last_strain_bid
    }

    /// Returns the player who made the last strain bid, if one was made.
    pub fn last_bidder(&self) -> (r: Option<BridgeDirection>)
        requires
            self.well_formed(),
        ensures
            r == last_bidder_of(self@.dealer, self@.bids),
    {
        self.last_bidder
    }

    /// Tells whether `other_bid` is higher than the last strain bid, or the
    /// first strain bid.
    pub fn is_bid_sufficient(&self, other_bid: StrainBid) -> (r: bool)
        requires
            self.well_formed(),
        ensures
            r == is_sufficient(self@.bids, other_bid),
    {
        match self.last_strain_bid {
            Some(this_bid) => {
                proof {
                    lemma_bid_order(other_bid, this_bid);
                }
                other_bid > this_bid
            },
            None => true,
        }
    }

    /// Tells whether Double is a legal call now.
    pub fn can_double(&self) -> (r: bool)
        ensures
            r == can_double(self@.bids),
    {
        if let Some(Bid::RealBid(_)) = self.last_meaningful_bid() {
            self.trailing_passes() != 1
        } else {
            false
        }
    }

    /// Tells whether Redouble is a legal call now.
    pub fn can_redouble(&self) -> (r: bool)
        ensures
            r == can_redouble(self@.bids),
    {
        if let Some(Bid::Other(Modifier::Double)) = self.last_meaningful_bid() {
            self.trailing_passes() != 1
        } else {
            false
        }
    }

    /// Returns the last call that is not a Pass.
    pub fn last_meaningful_bid(&self) -> (r: Option<Bid>)
        ensures
            r == last_meaningful(self@.bids),
    {
        let passes: usize = self.trailing_passes();
        proof {
            lemma_trailing_passes(self.bids@);
        }
        if passes < self.bids.len() {
            Some(self.bids[self.bids.len() - 1 - passes])
        } else {
            None
        }
    }

    /// Returns the number of Passes at the end of the calls.
    pub fn trailing_passes(&self) -> (count: usize)
        ensures
            count == trailing_passes(self@.bids),
    {
        let len: usize = self.bids.len();
        let mut count: usize = 0;
        proof {
            assert(self.bids@.take(len as int) =~= self.bids@);
        }
        while count < len && is_pass_call(self.bids[len - 1 - count])
            invariant
                len == self.bids@.len(),
                count <= len,
                trailing_passes(self.bids@) == count + trailing_passes(
                    self.bids@.take(len - count),
                ),
            decreases len - count,
        {
            proof {
                assert(self.bids@.take(len - count).drop_last() =~= self.bids@.take(
                    len - count - 1,
                ));
            }
            count = count + 1;
        }
        count
    }

    /// The calls of a well-formed auction are a legal history.
    pub proof fn lemma_legal(&self)
        requires
            self.well_formed(),
        ensures
            legal_history(self@.bids),
    {
    }

    /// Returns the player whose turn it is to call.
    pub fn whose_turn_is_it(&self) -> (seat: BridgeDirection)
        ensures
            seat == turn_at(self@.dealer, self@.bids.len()),
    {
        let delta: usize = self.bids.len() % 4;
        let mut seats = turns(self.dealer);
        let mut skipped: usize = 0;
        while skipped < delta
            invariant
                skipped <= delta,
                seats@ == turn_at(self.dealer, skipped as nat),
            decreases delta - skipped,
        {
            let _ = seats.next();
            skipped = skipped + 1;
        }
        proof {
            crate::direction::lemma_turns_modulo(self.dealer, delta as nat, self.bids@.len());
        }
        match seats.next() {
            Some(seat) => seat,
            None => unreached(),
        }
    }
}

/// Tells whether a call is a Pass.
fn is_pass_call(bid: Bid) -> (r: bool)
    ensures
        r == bid.is_pass(),
{
    match bid {
        Bid::Other(Modifier::Pass) => true,
        _ => false,
    }
}

} // verus!
