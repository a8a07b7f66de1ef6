//! Seats at the table, the order in which they act, and vulnerability.

use vstd::prelude::*;

verus! {

/// A seat at a bridge table.
#[derive(Copy, Clone, Debug, PartialEq, Eq, Structural)]
pub enum BridgeDirection {
    /// North
    N,
    /// East
    E,
    /// South
    S,
    /// West
    W,
}

impl BridgeDirection {
    /// The seat's position in the rotation that starts at North: 0 for
    /// North, 1 for East, 2 for South, 3 for West.
    pub open spec fn index(self) -> int {
        match self {
            BridgeDirection::N => 0,
            BridgeDirection::E => 1,
            BridgeDirection::S => 2,
            BridgeDirection::W => 3,
        }
    }

    /// The seat at position `i` of the rotation, counted modulo 4.
    pub open spec fn at_index(i: int) -> BridgeDirection {
        if i % 4 == 0 {
            BridgeDirection::N
        } else if i % 4 == 1 {
            BridgeDirection::E
        } else if i % 4 == 2 {
            BridgeDirection::S
        } else {
            BridgeDirection::W
        }
    }

    /// The seat that acts right after this one.
    pub open spec fn spec_successor(self) -> BridgeDirection {
        match self {
            BridgeDirection::N => BridgeDirection::E,
            BridgeDirection::E => BridgeDirection::S,
            BridgeDirection::S => BridgeDirection::W,
            BridgeDirection::W => BridgeDirection::N,
        }
    }

    /// The seat across the table.
    pub open spec fn spec_partner(self) -> BridgeDirection {
        match self {
            BridgeDirection::N => BridgeDirection::S,
            BridgeDirection::E => BridgeDirection::W,
            BridgeDirection::S => BridgeDirection::N,
            BridgeDirection::W => BridgeDirection::E,
        }
    }

    /// Whether `other` sits on this seat's side: the seat itself or its partner.
    pub open spec fn same_side(self, other: BridgeDirection) -> bool {
        other == self || other == self.spec_partner()
    }

    /// Returns the seat that acts right after this one.
    #[verifier::when_used_as_spec(spec_successor)]
    pub fn successor(self) -> (r: BridgeDirection)
        ensures
            r == self.spec_successor(),
    {
        match self {
            BridgeDirection::N => BridgeDirection::E,
            BridgeDirection::E => BridgeDirection::S,
            BridgeDirection::S => BridgeDirection::W,
            BridgeDirection::W => BridgeDirection::N,
        }
    }

    /// Returns the partner of a player.
    pub fn partner(&self) -> (r: BridgeDirection)
        ensures
            r == self.spec_partner(),
    {
        match self {
            BridgeDirection::N => BridgeDirection::S,
            BridgeDirection::E => BridgeDirection::W,
            BridgeDirection::S => BridgeDirection::N,
            BridgeDirection::W => BridgeDirection::E,
        }
    }
}

/// The seat that acts `n` turns after `start`, in the rotation
/// North, East, South, West, North, and so on.
pub open spec fn turn_at(start: BridgeDirection, n: nat) -> BridgeDirection {
    BridgeDirection::at_index(start.index() + n)
}

/// The endless sequence of turns that starts at a given seat.
///
/// It is made by [`turns`]. Its view is the seat that acts next.
#[derive(Debug)]
pub struct Turns {
    last: BridgeDirection,
}

impl View for Turns {
    type V = BridgeDirection;

    closed spec fn view(&self) -> BridgeDirection {
        self.last
    }
}

impl Turns {
    /// The seat that the `k`-th call of [`Turns::next`] from now returns,
    /// counted from 0.
    pub open spec fn upcoming(&self, k: nat) -> BridgeDirection {
        turn_at(self@, k)
    }

    /// Returns the seat whose turn it is and moves on to the next seat.
    /// The sequence never ends, so the result is never `None`.
    pub fn next(&mut self) -> (r: Option<BridgeDirection>)
        ensures
            r == Some(old(self)@),
            final(self)@ == old(self)@.spec_successor(),
            forall|k: nat| final(self).upcoming(k) == old(self).upcoming(k + 1),
    {
        let res = self.last;
        self.last = res.successor();
        proof {
            assert forall|k: nat| turn_at(res.spec_successor(), k) == turn_at(res, k + 1) by {
                lemma_turn_step(res, k);
            }
        }
        Some(res)
    }
}

/// Starts the sequence of turns at `dealer`.
pub fn turns(dealer: BridgeDirection) -> (r: Turns)
    ensures
        r@ == dealer,
{
    Turns { last: dealer }
}

/// The rotation starts at its first seat, and moving one turn on is the same
/// as starting one seat later.
pub proof fn lemma_turn_step(start: BridgeDirection, n: nat)
    ensures
        turn_at(start, 0) == start,
        turn_at(start, n + 1) == turn_at(start, n).spec_successor(),
        turn_at(start, n + 1) == turn_at(start.spec_successor(), n),
{
}

/// The rotation has period 4: after four turns it is the starting seat's turn
/// again, and the seats `n` and `n + 4` turns from the start are the same.
pub proof fn lemma_turns_periodic(start: BridgeDirection, n: nat)
    ensures
        turn_at(start, 4) == start,
        turn_at(start, n + 4) == turn_at(start, n),
{
}

/// A turn depends only on its distance from the start modulo 4, and four
/// turns in a row are taken by four different seats.
pub proof fn lemma_turns_modulo(start: BridgeDirection, m: nat, n: nat)
    ensures
        turn_at(start, m) == turn_at(start, n) <==> m % 4 == n % 4,
{
}

/// The partner sits two turns away, is another seat, and the partner's
/// partner is the seat itself.
pub proof fn lemma_partner(seat: BridgeDirection)
    ensures
        seat.spec_partner() == turn_at(seat, 2),
        seat.spec_partner() != seat,
        seat.spec_partner().spec_partner() == seat,
        seat.spec_successor() != seat.spec_partner(),
{
}

/// Which sides of a board are vulnerable.
#[derive(Debug, PartialEq, Eq, Structural)]
pub enum Vulnerability {
    /// North-South vulnerable
    NS,
    /// East-West vulnerable
    EW,
    /// Both sides vulnerable
    ALL,
    /// No side vulnerable
    NONE,
}

impl Vulnerability {
    /// Whether the side of `who` is vulnerable.
    pub open spec fn spec_is_vulnerable(self, who: BridgeDirection) -> bool {
        match self {
            Vulnerability::NS => who == BridgeDirection::N || who == BridgeDirection::S,
            Vulnerability::EW => who == BridgeDirection::E || who == BridgeDirection::W,
            Vulnerability::ALL => true,
            Vulnerability::NONE => false,
        }
    }

    /// Tests the vulnerability of a player.
    pub fn is_vulnerable(self, who: BridgeDirection) -> (r: bool)
        ensures
            r == self.spec_is_vulnerable(who),
    {
        match self {
            Vulnerability::NS => who == BridgeDirection::N || who == BridgeDirection::S,
            Vulnerability::EW => who == BridgeDirection::E || who == BridgeDirection::W,
            Vulnerability::ALL => true,
            Vulnerability::NONE => false,
        }
    }
}

/// Partners are vulnerable together.
pub proof fn lemma_partners_share_vulnerability(v: Vulnerability, who: BridgeDirection)
    ensures
        v.spec_is_vulnerable(who) == v.spec_is_vulnerable(who.spec_partner()),
{
}

} // verus!
