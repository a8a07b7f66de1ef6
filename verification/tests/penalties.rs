use bridge_backend::auction::StrainBid;
use bridge_backend::contract::util::{over_score, trick_score};
use bridge_backend::contract::{BidContract, Contract, ContractLevel, Modifier, Strain};
use bridge_backend::{BridgeDirection, Vulnerability};

fn levels() -> [ContractLevel; 7] {
    [
        ContractLevel::One,
        ContractLevel::Two,
        ContractLevel::Three,
        ContractLevel::Four,
        ContractLevel::Five,
        ContractLevel::Six,
        ContractLevel::Seven,
    ]
}

fn strains() -> [Strain; 5] {
    [
        Strain::Clubs,
        Strain::Diamonds,
        Strain::Hearts,
        Strain::Spades,
        Strain::NoTrump,
    ]
}

fn bid_contract(level: ContractLevel, strain: Strain, modifier: Modifier) -> BidContract {
    BidContract {
        contract: StrainBid { level, strain },
        modifier,
        declarer: BridgeDirection::W,
    }
}

fn vulnerability(vul: bool) -> Vulnerability {
    if vul {
        Vulnerability::EW
    } else {
        Vulnerability::NS
    }
}

/// What the `k`-th undertrick costs, counted from 1.
fn undertrick(modifier: Modifier, vul: bool, k: usize) -> i32 {
    let doubled = match (vul, k) {
        (true, 1) => 200,
        (true, _) => 300,
        (false, 1) => 100,
        (false, 2) | (false, 3) => 200,
        (false, _) => 300,
    };
    match modifier {
        Modifier::Pass => {
            if vul {
                100
            } else {
                50
            }
        }
        Modifier::Double => doubled,
        Modifier::Redouble => 2 * doubled,
    }
}

#[test]
fn a_defeated_contract_costs_its_undertricks_one_by_one() {
    for level in levels() {
        for strain in strains() {
            for modifier in [Modifier::Pass, Modifier::Double, Modifier::Redouble] {
                for vul in [false, true] {
                    let needed = 6 + level.number() as usize;
                    let contract = Contract::BidContract(bid_contract(level, strain, modifier));
                    for taken in 0..needed {
                        let cost: i32 = (1..=needed - taken)
                            .map(|k| undertrick(modifier, vul, k))
                            .sum();
                        assert_eq!(
                            contract.get_score_for_tricks(taken, vulnerability(vul)),
                            -cost
                        );
                    }
                }
            }
        }
    }
}

#[test]
fn a_grand_slam_without_a_trick() {
    let score = |modifier, vul| {
        Contract::BidContract(bid_contract(ContractLevel::Seven, Strain::NoTrump, modifier))
            .get_score_for_tricks(0, vulnerability(vul))
    };
    assert_eq!(score(Modifier::Pass, false), -650);
    assert_eq!(score(Modifier::Pass, true), -1300);
    assert_eq!(score(Modifier::Double, false), -3500);
    assert_eq!(score(Modifier::Double, true), -3800);
    assert_eq!(score(Modifier::Redouble, false), -7000);
    assert_eq!(score(Modifier::Redouble, true), -7600);
}

#[test]
fn a_made_contract_scores_its_tricks_and_bonuses() {
    for level in levels() {
        for strain in strains() {
            for modifier in [Modifier::Pass, Modifier::Double, Modifier::Redouble] {
                for vul in [false, true] {
                    let needed = 6 + level.number() as usize;
                    let per_trick = match strain {
                        Strain::Clubs | Strain::Diamonds => 20,
                        _ => 30,
                    };
                    let first = if strain == Strain::NoTrump { 10 } else { 0 };
                    let times = match modifier {
                        Modifier::Pass => 1,
                        Modifier::Double => 2,
                        Modifier::Redouble => 4,
                    };
                    let bid = (per_trick * level.number() as i32 + first) * times;
                    let game = if bid >= 100 {
                        if vul {
                            500
                        } else {
                            300
                        }
                    } else {
                        50
                    };
                    let insult = match modifier {
                        Modifier::Pass => 0,
                        Modifier::Double => 50,
                        Modifier::Redouble => 100,
                    };
                    let slam = match (level, vul) {
                        (ContractLevel::Six, false) => 500,
                        (ContractLevel::Six, true) => 750,
                        (ContractLevel::Seven, false) => 1000,
                        (ContractLevel::Seven, true) => 1500,
                        _ => 0,
                    };
                    let overtrick = match (modifier, vul) {
                        (Modifier::Pass, _) => per_trick,
                        (Modifier::Double, false) => 100,
                        (Modifier::Double, true) => 200,
                        (Modifier::Redouble, false) => 200,
                        (Modifier::Redouble, true) => 400,
                    };
                    let contract = Contract::BidContract(bid_contract(level, strain, modifier));
                    for taken in needed..=13 {
                        let over = (taken - needed) as i32;
                        assert_eq!(
                            contract.get_score_for_tricks(taken, vulnerability(vul)),
                            bid + over * overtrick + game + insult + slam
                        );
                    }
                }
            }
        }
    }
}

#[test]
fn tricks_score_by_strain() {
    assert_eq!(trick_score(Strain::Clubs, 0), 0);
    assert_eq!(trick_score(Strain::NoTrump, 0), 10);
    assert_eq!(trick_score(Strain::Clubs, 3), 60);
    assert_eq!(trick_score(Strain::Diamonds, 5), 100);
    assert_eq!(trick_score(Strain::Hearts, 4), 120);
    assert_eq!(trick_score(Strain::Spades, 7), 210);
    assert_eq!(trick_score(Strain::NoTrump, 1), 40);
    assert_eq!(trick_score(Strain::NoTrump, 3), 100);
    assert_eq!(trick_score(Strain::NoTrump, 7), 220);
}

#[test]
fn overtricks_score_by_doubling() {
    let minor = bid_contract(ContractLevel::One, Strain::Diamonds, Modifier::Pass);
    assert_eq!(over_score(&minor, 0, true), 0);
    assert_eq!(over_score(&minor, 3, false), 60);
    assert_eq!(over_score(&minor, 3, true), 60);
    let major = bid_contract(ContractLevel::One, Strain::Hearts, Modifier::Pass);
    assert_eq!(over_score(&major, 2, false), 60);
    let notrump = bid_contract(ContractLevel::One, Strain::NoTrump, Modifier::Pass);
    assert_eq!(over_score(&notrump, 6, true), 180);
    let doubled = bid_contract(ContractLevel::One, Strain::Clubs, Modifier::Double);
    assert_eq!(over_score(&doubled, 2, false), 200);
    assert_eq!(over_score(&doubled, 2, true), 400);
    let redoubled = bid_contract(ContractLevel::One, Strain::Clubs, Modifier::Redouble);
    assert_eq!(over_score(&redoubled, 2, false), 400);
    assert_eq!(over_score(&redoubled, 6, true), 2400);
    assert_eq!(redoubled.level(), ContractLevel::One);
    assert_eq!(redoubled.strain(), Strain::Clubs);
}
