use bridge_backend::auction::{double, pass, redouble, strain_bid, Auction, Bid, Error, StrainBid};
use bridge_backend::contract::{BidContract, Contract, ContractLevel, Modifier, Strain};
use bridge_backend::BridgeDirection;
use std::convert::{TryFrom, TryInto};

fn one_diamond() -> Bid {
    strain_bid(ContractLevel::One, Strain::Diamonds)
}

fn one_heart() -> Bid {
    strain_bid(ContractLevel::One, Strain::Hearts)
}

fn one_spade() -> Bid {
    strain_bid(ContractLevel::One, Strain::Spades)
}

fn one_notrump() -> Bid {
    strain_bid(ContractLevel::One, Strain::NoTrump)
}

fn two_clubs() -> Bid {
    strain_bid(ContractLevel::Two, Strain::Clubs)
}

fn two_diamonds() -> Bid {
    strain_bid(ContractLevel::Two, Strain::Diamonds)
}

fn two_hearts() -> Bid {
    strain_bid(ContractLevel::Two, Strain::Hearts)
}

fn two_spades() -> Bid {
    strain_bid(ContractLevel::Two, Strain::Spades)
}

fn two_notrump() -> Bid {
    strain_bid(ContractLevel::Two, Strain::NoTrump)
}

fn three_diamonds() -> Bid {
    strain_bid(ContractLevel::Three, Strain::Diamonds)
}

fn three_spades() -> Bid {
    strain_bid(ContractLevel::Three, Strain::Spades)
}

fn three_notrump() -> Bid {
    strain_bid(ContractLevel::Three, Strain::NoTrump)
}

fn four_diamonds() -> Bid {
    strain_bid(ContractLevel::Four, Strain::Diamonds)
}

fn four_hearts() -> Bid {
    strain_bid(ContractLevel::Four, Strain::Hearts)
}

#[test]
fn can_pass_out() -> Result<(), Error> {
    let mut auction = Auction::new(BridgeDirection::N);
    auction.bid(pass())?;
    assert_eq!(auction.is_completed(), false);
    auction.bid(pass())?;
    auction.bid(pass())?;
    assert_eq!(auction.is_completed(), false);
    assert!(auction.contract().is_none());

    auction.bid(pass())?;
    assert_eq!(auction.is_completed(), true);
    assert_eq!(auction.contract(), Some(Contract::PassedOut));

    Ok(())
}

#[test]
fn can_bid_strain() -> Result<(), Error> {
    let mut auction = Auction::new(BridgeDirection::S);
    auction.bid(pass())?;
    auction.bid(one_diamond())?;

    auction.bid(pass())?;
    auction.bid(pass())?;

    assert_eq!(auction.is_completed(), false);
    auction.bid(pass())?;
    assert_eq!(auction.is_completed(), true);

    Ok(())
}

#[test]
fn disallow_insufficient() -> Result<(), Error> {
    let mut auction = Auction::new(BridgeDirection::S);
    auction.bid(pass())?;
    auction.bid(one_diamond())?;

    auction.bid(pass())?;
    assert!(auction.last_strain_bid().is_some());

    auction.bid(one_spade())?;
    let insufficient = auction.bid(one_heart()).unwrap_err();
    assert_eq!(insufficient, Error::InsufficientBid);

    if let Some(strain_bid) = auction.last_strain_bid() {
        assert_eq!(strain_bid.strain, Strain::Spades)
    } else {
        panic!("We should have something other than Pass by now")
    }

    auction.bid(pass())?;
    auction.bid(one_spade()).unwrap_err();

    auction.bid(three_spades())?;

    assert_eq!(auction.bid(two_clubs()).unwrap_err(), Error::InsufficientBid);

    Ok(())
}

#[test]
fn doubles() -> Result<(), Error> {
    let mut auction = Auction::new(BridgeDirection::S);
    auction.bid(one_diamond())?;
    auction.bid(double())?;
    assert_eq!(auction.bid(double()).unwrap_err(), Error::CantDouble);

    auction.bid(pass())?;
    assert_eq!(auction.bid(double()).unwrap_err(), Error::CantDouble);

    assert_eq!(
        auction.bid(one_diamond()).unwrap_err(),
        Error::InsufficientBid
    );

    auction.bid(three_diamonds())?;
    auction.bid(pass())?;
    assert_eq!(auction.bid(double()).unwrap_err(), Error::CantDouble);
    auction.bid(pass())?;
    auction.bid(double())?;

    let mut auction = Auction::new(BridgeDirection::S);
    assert_eq!(auction.bid(double()).unwrap_err(), Error::CantDouble);
    auction.bid(pass())?;
    assert_eq!(auction.bid(double()).unwrap_err(), Error::CantDouble);

    Ok(())
}

#[test]
fn redoubles() -> Result<(), Error> {
    let mut auction = Auction::new(BridgeDirection::E);
    assert_eq!(auction.bid(redouble()).unwrap_err(), Error::CantRedouble);

    auction.bid(pass())?;
    assert_eq!(auction.bid(redouble()).unwrap_err(), Error::CantRedouble);

    auction.bid(three_diamonds())?;
    auction.bid(pass())?;
    auction.bid(pass())?;
    auction.bid(double())?;
    auction.bid(pass())?;

    assert_eq!(auction.bid(redouble()).unwrap_err(), Error::CantRedouble);

    auction.bid(pass())?;
    auction.bid(redouble())?;

    assert_eq!(auction.bid(double()).unwrap_err(), Error::CantDouble);
    assert_eq!(auction.bid(redouble()).unwrap_err(), Error::CantRedouble);

    let mut auction = Auction::new(BridgeDirection::S);
    assert_eq!(auction.bid(redouble()).unwrap_err(), Error::CantRedouble);
    auction.bid(pass())?;
    assert_eq!(auction.bid(redouble()).unwrap_err(), Error::CantRedouble);

    Ok(())
}

#[test]
fn auction_finished() -> Result<(), Error> {
    let mut auction = Auction::new(BridgeDirection::W);
    assert_eq!(auction.is_completed(), false);
    auction.bid(pass())?;
    auction.bid(pass())?;
    auction.bid(pass())?;
    assert_eq!(auction.is_completed(), false);
    auction.bid(pass())?;
    assert_eq!(auction.is_completed(), true);

    let mut auction = Auction::new(BridgeDirection::W);

    auction.bid(pass())?;
    auction.bid(three_diamonds())?;
    auction.bid(double())?;
    auction.bid(pass())?;
    auction.bid(pass())?;
    assert_eq!(auction.is_completed(), false);

    auction.bid(pass())?;
    assert_eq!(auction.is_completed(), true);

    Ok(())
}

#[test]
fn passout() -> Result<(), Error> {
    let mut auction = Auction::new(BridgeDirection::S);
    assert_eq!(auction.contract(), None);
    auction.bid(pass())?;
    auction.bid(pass())?;
    auction.bid(pass())?;
    assert_eq!(auction.contract(), None);
    auction.bid(pass())?;
    assert_eq!(auction.contract(), Some(Contract::PassedOut));

    Ok(())
}

#[test]
fn basic_contract() -> Result<(), Error> {
    let mut auction = Auction::new(BridgeDirection::S);
    auction.bid(two_spades())?;
    auction.bid(pass())?;
    auction.bid(pass())?;
    assert_eq!(auction.contract(), None);

    auction.bid(pass())?;
    assert_eq!(
        auction.contract(),
        Some(Contract::BidContract(BidContract {
            contract: "2s".try_into().unwrap(),
            modifier: Modifier::Pass,
            declarer: BridgeDirection::S
        }))
    );

    Ok(())
}

#[test]
fn doubled_contract() -> Result<(), Error> {
    let mut auction = Auction::new(BridgeDirection::S);
    auction.bid(Bid::RealBid(StrainBid::try_from("3n").unwrap()))?;
    auction.bid(pass())?;
    auction.bid(pass())?;
    auction.bid(double())?;
    assert_eq!(auction.contract(), None);
    auction.bid(pass())?;
    assert_eq!(auction.contract(), None);
    auction.bid(pass())?;
    auction.bid(pass())?;
    assert_eq!(
        auction.contract(),
        Some(Contract::BidContract(BidContract {
            contract: "3N".try_into().unwrap(),
            modifier: Modifier::Double,
            declarer: BridgeDirection::S
        }))
    );

    Ok(())
}

#[test]
fn redoubled_contract() -> Result<(), Error> {
    let mut auction = Auction::new(BridgeDirection::S);

    auction.bid(one_notrump())?;
    auction.bid(double())?;
    auction.bid(pass())?;
    auction.bid(redouble()).unwrap_err();
    auction.bid(two_notrump())?;

    auction.bid(double())?;
    auction.bid(three_notrump())?;
    auction.bid(double())?;
    auction.bid(redouble())?;

    assert_eq!(auction.contract(), None);
    auction.bid(pass())?;
    assert_eq!(auction.contract(), None);
    auction.bid(pass())?;
    auction.bid(pass())?;

    assert_eq!(
        auction.contract(),
        Some(Contract::BidContract(BidContract {
            contract: "3N".try_into().unwrap(),
            modifier: Modifier::Redouble,
            declarer: BridgeDirection::E
        }))
    );

    Ok(())
}

#[test]
fn declarer_is_first_to_name_contract() -> Result<(), Error> {
    let mut auction = Auction::new(BridgeDirection::S);
    auction.bid(one_notrump())?;
    auction.bid(pass())?;
    auction.bid(three_notrump())?;
    auction.bid(pass())?;
    auction.bid(pass())?;
    assert_eq!(auction.contract(), None);

    auction.bid(pass())?;
    assert_eq!(
        auction.contract(),
        Some(Contract::BidContract(BidContract {
            contract: "3N".try_into().unwrap(),
            modifier: Modifier::Pass,
            declarer: BridgeDirection::S
        }))
    );

    Ok(())
}

#[test]
fn other_declarers() -> Result<(), Error> {
    let mut auction = Auction::new(BridgeDirection::W);
    auction.bid(pass())?;
    auction.bid(pass())?;
    auction.bid(four_diamonds())?;
    auction.bid(pass())?;
    auction.bid(pass())?;
    auction.bid(pass())?;

    assert_eq!(
        auction.contract(),
        Some(Contract::BidContract(BidContract {
            contract: "4D".try_into().unwrap(),
            modifier: Modifier::Pass,
            declarer: BridgeDirection::E
        }))
    );

    let mut auction = Auction::new(BridgeDirection::W);
    auction.bid(one_diamond())?;
    auction.bid(one_spade())?;
    auction.bid(two_diamonds())?;
    auction.bid(two_hearts())?;
    auction.bid(pass())?;
    auction.bid(four_hearts())?;
    auction.bid(pass())?;
    auction.bid(pass())?;
    auction.bid(pass())?;
    assert_eq!(
        auction.contract(),
        Some(Contract::BidContract(BidContract {
            contract: "4H".try_into().unwrap(),
            modifier: Modifier::Pass,
            declarer: BridgeDirection::S
        }))
    );

    Ok(())
}

#[test]
fn declarer_did_actually_win_auction() -> Result<(), Error> {
    let mut auction = Auction::new(BridgeDirection::N);
    auction.bid(one_diamond())?;
    auction.bid(two_diamonds())?;
    auction.bid(pass())?;
    auction.bid(three_diamonds())?;
    auction.bid(pass())?;
    auction.bid(pass())?;
    auction.bid(pass())?;
    assert_eq!(
        auction.contract(),
        Some(Contract::BidContract(BidContract {
            contract: "3d".try_into().unwrap(),
            modifier: Modifier::Pass,
            declarer: BridgeDirection::E
        }))
    );
    Ok(())
}

#[test]
fn comparisons() {
    let two_clubs = StrainBid {
        level: ContractLevel::Two,
        strain: Strain::Clubs,
    };
    let three_spades = StrainBid {
        level: ContractLevel::Three,
        strain: Strain::Spades,
    };
    assert!(&two_clubs < &three_spades);
}

#[test]
fn read_strain_bid() -> Result<(), &'static str> {
    assert_eq!(
        StrainBid::try_from("1c")?,
        StrainBid {
            level: ContractLevel::One,
            strain: Strain::Clubs
        }
    );
    assert_eq!(
        StrainBid::try_from("2c")?,
        StrainBid {
            level: ContractLevel::Two,
            strain: Strain::Clubs
        }
    );
    assert_eq!(
        StrainBid::try_from("4s")?,
        StrainBid {
            level: ContractLevel::Four,
            strain: Strain::Spades
        }
    );

    Ok(())
}
