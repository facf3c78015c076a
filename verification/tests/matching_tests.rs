use liquid_staking::errors::Error;
use liquid_staking::matching::{ArithmeticKind, MatchingLedger};

fn pool(stake: u128, unstake: u128) -> MatchingLedger {
    MatchingLedger { total_stake_amount: stake, total_unstake_amount: unstake }
}

#[test]
fn net_inflow_becomes_bond_only() {
    let p = pool(100, 40);
    assert_eq!(p.matching(0), (60, 0, 0));
    assert_eq!(p.matching(500), (60, 0, 0));
}

#[test]
fn balanced_flow_is_idle() {
    let p = pool(50, 50);
    assert_eq!(p.matching(10), (0, 0, 0));
}

#[test]
fn deficit_fully_covered_by_rebond() {
    let p = pool(40, 100);
    assert_eq!(p.matching(70), (0, 60, 0));
}

#[test]
fn deficit_split_between_rebond_and_unbond() {
    let p = pool(40, 100);
    assert_eq!(p.matching(30), (0, 30, 30));
}

#[test]
fn deficit_without_unbonded_funds_unbonds_all() {
    let p = pool(0, 100);
    assert_eq!(p.matching(0), (0, 0, 100));
}

#[test]
fn rebond_never_exceeds_available() {
    let p = pool(10, 1000);
    let (bond, rebond, unbond) = p.matching(250);
    assert_eq!(bond, 0);
    assert!(rebond <= 250);
    assert_eq!(rebond + unbond, 990);
}

#[test]
fn bond_excludes_other_directions() {
    for (s, u, avail) in [(9u128, 3u128, 0u128), (9, 3, 100), (7, 7, 5), (100, 0, 1)] {
        let (bond, rebond, unbond) = pool(s, u).matching(avail);
        if bond > 0 {
            assert_eq!(rebond, 0);
            assert_eq!(unbond, 0);
        }
    }
}

#[test]
fn stake_accumulator_addition_and_subtraction() {
    let mut p = pool(0, 0);
    assert_eq!(p.update_total_stake_amount(70, ArithmeticKind::Addition), Ok(()));
    assert_eq!(p.total_stake_amount, 70);
    assert_eq!(p.update_total_stake_amount(30, ArithmeticKind::Subtraction), Ok(()));
    assert_eq!(p.total_stake_amount, 40);
    assert_eq!(p.total_unstake_amount, 0);
}

#[test]
fn stake_accumulator_overflow_is_rejected() {
    let mut p = pool(u128::MAX, 0);
    assert_eq!(
        p.update_total_stake_amount(1, ArithmeticKind::Addition),
        Err(Error::ArithmeticOverflow)
    );
    assert_eq!(p.total_stake_amount, u128::MAX);
}

#[test]
fn unstake_accumulator_underflow_is_rejected() {
    let mut p = pool(0, 5);
    assert_eq!(
        p.update_total_unstake_amount(6, ArithmeticKind::Subtraction),
        Err(Error::ArithmeticUnderflow)
    );
    assert_eq!(p.total_unstake_amount, 5);
}
