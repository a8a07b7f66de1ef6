//! The rules of the auction, stated over the sequence of calls made so far.

use crate::auction::{Bid, Error, StrainBid};
use crate::contract::{BidContract, Contract, Modifier, Strain};
use crate::direction::{turn_at, BridgeDirection};
use vstd::prelude::*;

verus! {

impl Bid {
    /// Whether the call is a Pass.
    pub open spec fn is_pass(self) -> bool {
        self == Bid::Other(Modifier::Pass)
    }
}

/// The number of Passes at the end of `bids`.
pub open spec fn trailing_passes(bids: Seq<Bid>) -> nat
    decreases bids.len(),
{
    if bids.len() == 0 || !bids.last().is_pass() {
        0
    } else {
        1 + trailing_passes(bids.drop_last())
    }
}

/// The last call that is not a Pass, if there is one.
pub open spec fn last_meaningful(bids: Seq<Bid>) -> Option<Bid> {
    if trailing_passes(bids) < bids.len() {
        Some(bids[bids.len() - 1 - trailing_passes(bids)])
    } else {
        None
    }
}

/// The place of the last strain bid in `bids`, or -1 if there is none.
pub open spec fn last_real_index(bids: Seq<Bid>) -> int
    decreases bids.len(),
{
    if bids.len() == 0 {
        -1
    } else if bids.last() is RealBid {
        bids.len() - 1
    } else {
        last_real_index(bids.drop_last())
    }
}

/// The last strain bid, if there is one.
pub open spec fn last_strain_bid_of(bids: Seq<Bid>) -> Option<StrainBid> {
    if last_real_index(bids) >= 0 {
        Some(bids[last_real_index(bids)]->RealBid_0)
    } else {
        None
    }
}

/// The seat that made the last strain bid, if there is one. The dealer makes
/// the first call, and the others follow in rotation.
pub open spec fn last_bidder_of(dealer: BridgeDirection, bids: Seq<Bid>) -> Option<
    BridgeDirection,
> {
    if last_real_index(bids) >= 0 {
        Some(turn_at(dealer, last_real_index(bids) as nat))
    } else {
        None
    }
}

/// Whether `bid` may follow `bids` as a strain bid: it is higher than the
/// last strain bid, or it is the first.
pub open spec fn is_sufficient(bids: Seq<Bid>, bid: StrainBid) -> bool {
    match last_strain_bid_of(bids) {
        Some(previous) => previous.is_below(bid),
        None => true,
    }
}

/// Whether a Double may follow `bids`: the last call that is not a Pass is a
/// strain bid, and it is not followed by exactly one Pass, which would make
/// it the bid of the doubler's partner.
pub open spec fn can_double(bids: Seq<Bid>) -> bool {
    last_meaningful(bids) matches Some(Bid::RealBid(_)) && trailing_passes(bids) != 1
}

/// Whether a Redouble may follow `bids`: the last call that is not a Pass is
/// a Double, and it is not followed by exactly one Pass, which would make it
/// the double of the redoubler's partner.
pub open spec fn can_redouble(bids: Seq<Bid>) -> bool {
    last_meaningful(bids) == Some(Bid::Other(Modifier::Double)) && trailing_passes(bids) != 1
}

/// Whether `bid` may follow `bids`.
pub open spec fn is_legal(bids: Seq<Bid>, bid: Bid) -> bool {
    match bid {
        Bid::Other(Modifier::Pass) => true,
        Bid::RealBid(real_bid) => is_sufficient(bids, real_bid),
        Bid::Other(Modifier::Double) => can_double(bids),
        Bid::Other(Modifier::Redouble) => can_redouble(bids),
    }
}

/// The error that refuses `bid` where it is not legal. A Pass is always
/// legal.
pub open spec fn rejection(bid: Bid) -> Error {
    match bid {
        Bid::Other(Modifier::Double) => Error::CantDouble,
        Bid::Other(Modifier::Redouble) => Error::CantRedouble,
        _ => Error::InsufficientBid,
    }
}

/// Whether every call of `bids` was legal when it was made.
pub open spec fn legal_history(bids: Seq<Bid>) -> bool
    decreases bids.len(),
{
    bids.len() == 0 || (legal_history(bids.drop_last()) && is_legal(
        bids.drop_last(),
        bids.last(),
    ))
}

/// Whether the auction is over: everyone has called, and the last three
/// calls were Passes.
pub open spec fn completed(bids: Seq<Bid>) -> bool {
    bids.len() >= 4 && bids[bids.len() - 1].is_pass() && bids[bids.len() - 2].is_pass()
        && bids[bids.len() - 3].is_pass()
}

/// Whether the contract ends up undoubled, doubled or redoubled: as the last
/// call that is not a Pass says.
pub open spec fn final_modifier(bids: Seq<Bid>) -> Modifier {
    match last_meaningful(bids) {
        Some(Bid::Other(modifier)) => modifier,
        _ => Modifier::Pass,
    }
}

/// Whether call `i` is a bid of `strain` made by `side` or its partner.
pub open spec fn names_strain(
    dealer: BridgeDirection,
    bids: Seq<Bid>,
    strain: Strain,
    side: BridgeDirection,
    i: int,
) -> bool {
    &&& 0 <= i < bids.len()
    &&& bids[i] matches Bid::RealBid(real_bid)
    &&& real_bid.strain == strain
    &&& side.same_side(turn_at(dealer, i as nat))
}

/// The place of the first call from `from` on that is a bid of `strain` by
/// `side` or its partner, or the length of `bids` if there is none.
pub open spec fn first_to_name(
    dealer: BridgeDirection,
    bids: Seq<Bid>,
    strain: Strain,
    side: BridgeDirection,
    from: int,
) -> int
    decreases bids.len() - from,
{
    if from >= bids.len() {
        bids.len() as int
    } else if names_strain(dealer, bids, strain, side, from) {
        from
    } else {
        first_to_name(dealer, bids, strain, side, from + 1)
    }
}

/// The declarer: of the side that made the last strain bid, the player who
/// was first to bid its strain.
pub open spec fn declarer_of(dealer: BridgeDirection, bids: Seq<Bid>) -> BridgeDirection {
    let winner = last_real_index(bids);
    let strain = bids[winner]->RealBid_0.strain;
    let side = turn_at(dealer, winner as nat);
    turn_at(dealer, first_to_name(dealer, bids, strain, side, 0) as nat)
}

/// The contract that the auction ends in, once it is over.
pub open spec fn contract_of(dealer: BridgeDirection, bids: Seq<Bid>) -> Option<Contract> {
    if !completed(bids) {
        None
    } else {
        match last_strain_bid_of(bids) {
            None => Some(Contract::PassedOut),
            Some(contract) => Some(
                Contract::BidContract(
                    BidContract {
                        contract,
                        modifier: final_modifier(bids),
                        declarer: declarer_of(dealer, bids),
                    },
                ),
            ),
        }
    }
}

/// Adding a call changes the trailing Passes, the last strain bid and the
/// history as the definitions say.
pub proof fn lemma_push(bids: Seq<Bid>, bid: Bid)
    ensures
        bids.push(bid).drop_last() == bids,
        bids.push(bid).last() == bid,
        trailing_passes(bids.push(bid)) == if bid.is_pass() {
            1 + trailing_passes(bids)
        } else {
            0
        },
        last_real_index(bids.push(bid)) == if bid is RealBid {
            bids.len() as int
        } else {
            last_real_index(bids)
        },
        legal_history(bids.push(bid)) <==> legal_history(bids) && is_legal(bids, bid),
{
    assert(bids.push(bid).drop_last() =~= bids);
}

/// The trailing Passes are Passes, and the call before them is not.
pub proof fn lemma_trailing_passes(bids: Seq<Bid>)
    ensures
        trailing_passes(bids) <= bids.len(),
        forall|i: int| bids.len() - trailing_passes(bids) <= i < bids.len() ==> bids[i].is_pass(),
        trailing_passes(bids) < bids.len() ==> !bids[bids.len() - 1 - trailing_passes(
            bids,
        )].is_pass(),
    decreases bids.len(),
{
    if bids.len() > 0 && bids.last().is_pass() {
        let before = bids.drop_last();
        lemma_trailing_passes(before);
        assert forall|i: int| bids.len() - trailing_passes(bids) <= i < bids.len() implies bids[i].is_pass() by {
            if i < before.len() {
                assert(before[i] == bids[i]);
            }
        }
        if trailing_passes(bids) < bids.len() {
            assert(before[before.len() - 1 - trailing_passes(before)] == bids[bids.len() - 1
                - trailing_passes(bids)]);
        }
    }
}

/// The last strain bid is a strain bid, and no strain bid follows it.
pub proof fn lemma_last_real_index(bids: Seq<Bid>)
    ensures
        -1 <= last_real_index(bids) < bids.len(),
        last_real_index(bids) >= 0 ==> bids[last_real_index(bids)] is RealBid,
        forall|i: int| last_real_index(bids) < i < bids.len() ==> !(bids[i] is RealBid),
    decreases bids.len(),
{
    if bids.len() > 0 && !(bids.last() is RealBid) {
        let before = bids.drop_last();
        lemma_last_real_index(before);
        assert forall|i: int| last_real_index(bids) < i < bids.len() implies !(bids[i] is RealBid) by {
            if i < before.len() {
                assert(before[i] == bids[i]);
            }
        }
    }
}

/// A legal history stays legal when calls are taken from its end.
pub proof fn lemma_legal_prefix(bids: Seq<Bid>, n: int)
    requires
        legal_history(bids),
        0 <= n <= bids.len(),
    ensures
        legal_history(bids.take(n)),
        n < bids.len() ==> is_legal(bids.take(n), bids[n]),
    decreases bids.len(),
{
    if n == bids.len() {
        assert(bids.take(n) =~= bids);
    } else {
        lemma_legal_prefix(bids.drop_last(), n);
        assert(bids.drop_last().take(n) =~= bids.take(n));
        if n == bids.len() - 1 {
            assert(bids.take(n) =~= bids.drop_last());
        }
    }
}

/// In a legal history the first call that is not a Pass is a strain bid: a
/// history without a strain bid holds nothing but Passes.
pub proof fn lemma_calls_before_first_bid(bids: Seq<Bid>)
    requires
        legal_history(bids),
        last_real_index(bids) < 0,
    ensures
        forall|i: int| 0 <= i < bids.len() ==> bids[i].is_pass(),
        trailing_passes(bids) == bids.len(),
    decreases bids.len(),
{
    if bids.len() > 0 {
        let before = bids.drop_last();
        lemma_calls_before_first_bid(before);
        assert(last_meaningful(before) is None);
        assert forall|i: int| 0 <= i < bids.len() implies bids[i].is_pass() by {
            if i < before.len() {
                assert(before[i] == bids[i]);
            }
        }
    }
}

/// In a legal history each strain bid is higher than every strain bid made
/// before it.
pub proof fn lemma_real_bids_increase(bids: Seq<Bid>, i: int, j: int)
    requires
        legal_history(bids),
        0 <= i < j < bids.len(),
        bids[i] is RealBid,
        bids[j] is RealBid,
    ensures
        bids[i]->RealBid_0.is_below(bids[j]->RealBid_0),
    decreases j - i,
{
    lemma_legal_prefix(bids, j);
    let before = bids.take(j);
    lemma_last_real_index(before);
    let k = last_real_index(before);
    assert(before[i] is RealBid);
    assert(k >= i);
    assert(before[k] == bids[k]);
    if k > i {
        lemma_real_bids_increase(bids, i, k);
        crate::auction::lemma_bid_order_total(
            bids[i]->RealBid_0,
            bids[k]->RealBid_0,
            bids[j]->RealBid_0,
        );
    }
}

/// An auction with fewer than four calls is not over, and a longer one is
/// over exactly when it ends in three Passes or more.
pub proof fn lemma_completed(bids: Seq<Bid>)
    ensures
        bids.len() < 4 ==> !completed(bids),
        completed(bids) <==> bids.len() >= 4 && trailing_passes(bids) >= 3,
{
    lemma_trailing_passes(bids);
    if bids.len() >= 4 {
        let n = bids.len() as int;
        if completed(bids) {
            assert(bids.drop_last().last() == bids[n - 2]);
            assert(bids.drop_last().drop_last().last() == bids[n - 3]);
            assert(trailing_passes(bids) == 1 + trailing_passes(bids.drop_last()));
            assert(trailing_passes(bids.drop_last()) == 1 + trailing_passes(
                bids.drop_last().drop_last(),
            ));
            assert(trailing_passes(bids.drop_last().drop_last()) >= 1);
        }
    }
}

/// While the auction is not over, the last call other than Pass is followed
/// by at most two Passes, and by exactly one where it was made by the
/// partner of the player whose turn it is. So a Double is legal exactly when
/// that call is a strain bid of the other side, and a Redouble exactly when
/// it is a Double of the other side, whoever dealt.
pub proof fn lemma_double_is_of_other_side(dealer: BridgeDirection, bids: Seq<Bid>)
    requires
        !completed(bids),
        last_meaningful(bids) is Some,
    ensures
        ({
            let target = bids.len() - 1 - trailing_passes(bids);
            let caller = turn_at(dealer, bids.len());
            let other_side = !caller.same_side(turn_at(dealer, target as nat));
            &&& 0 <= target < bids.len()
            &&& trailing_passes(bids) <= 2
            &&& trailing_passes(bids) != 1 <==> other_side
            &&& can_double(bids) <==> bids[target] is RealBid && other_side
            &&& can_redouble(bids) <==> bids[target] == Bid::Other(Modifier::Double) && other_side
        }),
{
    lemma_trailing_passes(bids);
    lemma_completed(bids);
}

/// The declarer of a history with a strain bid made a bid of the winning
/// strain, sits on the side that made the last strain bid, and no player of
/// that side bid the strain earlier.
pub proof fn lemma_declarer(dealer: BridgeDirection, bids: Seq<Bid>)
    requires
        last_real_index(bids) >= 0,
    ensures
        ({
            let winner = last_real_index(bids);
            let strain = bids[winner]->RealBid_0.strain;
            let side = turn_at(dealer, winner as nat);
            let first = first_to_name(dealer, bids, strain, side, 0);
            &&& 0 <= first <= winner
            &&& names_strain(dealer, bids, strain, side, first)
            &&& forall|j: int| 0 <= j < first ==> !names_strain(dealer, bids, strain, side, j)
            &&& declarer_of(dealer, bids) == turn_at(dealer, first as nat)
            &&& side.same_side(declarer_of(dealer, bids))
        }),
{
    lemma_last_real_index(bids);
    let winner = last_real_index(bids);
    let strain = bids[winner]->RealBid_0.strain;
    let side = turn_at(dealer, winner as nat);
    lemma_first_to_name(dealer, bids, strain, side, 0, winner);
}

/// The search for the first player to name a strain finds the first such
/// call at or after `from`, and no later than any call `hit` that does.
pub proof fn lemma_first_to_name(
    dealer: BridgeDirection,
    bids: Seq<Bid>,
    strain: Strain,
    side: BridgeDirection,
    from: int,
    hit: int,
)
    requires
        0 <= from <= hit,
        names_strain(dealer, bids, strain, side, hit),
    ensures
        from <= first_to_name(dealer, bids, strain, side, from) <= hit,
        names_strain(dealer, bids, strain, side, first_to_name(dealer, bids, strain, side, from)),
        forall|j: int|
            from <= j < first_to_name(dealer, bids, strain, side, from) ==> !names_strain(
                dealer,
                bids,
                strain,
                side,
                j,
            ),
    decreases bids.len() - from,
{
    if !names_strain(dealer, bids, strain, side, from) {
        lemma_first_to_name(dealer, bids, strain, side, from + 1, hit);
    }
}

} // verus!
