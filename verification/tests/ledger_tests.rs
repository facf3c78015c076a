use liquid_staking::errors::Error;
use liquid_staking::ledger::{StakingLedger, UnlockChunk};
use liquid_staking::rate::{ratio_mul_floor, RATIO_ONE};

#[test]
fn new_ledger_is_fully_active() {
    let l = StakingLedger::new(7, 1000);
    assert_eq!(l.stash, 7);
    assert_eq!(l.total, 1000);
    assert_eq!(l.active, 1000);
    assert!(l.unlocking.is_empty());
    assert!(l.check_well_formed());
}

#[test]
fn bond_extra_raises_total_and_active() {
    let mut l = StakingLedger::new(7, 1000);
    assert_eq!(l.bond_extra(250), Ok(()));
    assert_eq!(l.total, 1250);
    assert_eq!(l.active, 1250);
    assert!(l.check_well_formed());
}

#[test]
fn bond_extra_overflow_leaves_ledger_unchanged() {
    let mut l = StakingLedger::new(7, u128::MAX - 10);
    assert_eq!(l.bond_extra(11), Err(Error::ArithmeticOverflow));
    assert_eq!(l.total, u128::MAX - 10);
    assert_eq!(l.active, u128::MAX - 10);
}

#[test]
fn unbond_appends_chunk_and_lowers_active() {
    let mut l = StakingLedger::new(7, 1000);
    assert_eq!(l.unbond(300, 12), Ok(()));
    assert_eq!(l.active, 700);
    assert_eq!(l.total, 1000);
    assert_eq!(l.unlocking, vec![UnlockChunk { value: 300, era: 12 }]);
    assert!(l.check_well_formed());
}

#[test]
fn unbond_merges_into_newest_chunk_of_same_era() {
    let mut l = StakingLedger::new(7, 1000);
    assert_eq!(l.unbond(300, 12), Ok(()));
    assert_eq!(l.unbond(100, 12), Ok(()));
    assert_eq!(l.unlocking, vec![UnlockChunk { value: 400, era: 12 }]);
    assert_eq!(l.active, 600);
    assert!(l.check_well_formed());
}

#[test]
fn unbond_beyond_active_is_rejected() {
    let mut l = StakingLedger::new(7, 100);
    assert_eq!(l.unbond(101, 5), Err(Error::ArithmeticUnderflow));
    assert_eq!(l.active, 100);
    assert!(l.unlocking.is_empty());
}

#[test]
fn unbond_at_capacity_fails_and_changes_nothing() {
    let mut l = StakingLedger::new(7, 10_000);
    for era in 0..32u32 {
        assert_eq!(l.unbond(10, era), Ok(()));
    }
    assert_eq!(l.unlocking.len(), 32);
    let before = l.clone();
    assert_eq!(l.unbond(10, 99), Err(Error::NoMoreChunks));
    assert_eq!(l, before);
    assert!(l.check_well_formed());
}

#[test]
fn rebond_consumes_newest_chunks_first() {
    let mut l = StakingLedger::new(7, 1000);
    assert_eq!(l.unbond(100, 5), Ok(()));
    assert_eq!(l.unbond(50, 6), Ok(()));
    let moved = l.rebond(120);
    assert_eq!(moved, 120);
    assert_eq!(l.active, 850 + 120);
    assert_eq!(l.total, 1000);
    assert_eq!(l.unlocking, vec![UnlockChunk { value: 30, era: 5 }]);
    assert!(l.check_well_formed());
}

#[test]
fn rebond_is_capped_by_unlocking_value() {
    let mut l = StakingLedger::new(7, 1000);
    assert_eq!(l.unbond(100, 5), Ok(()));
    let moved = l.rebond(500);
    assert_eq!(moved, 100);
    assert_eq!(l.active, 1000);
    assert!(l.unlocking.is_empty());
    assert!(l.check_well_formed());
}

#[test]
fn consolidate_removes_only_reached_eras() {
    let mut l = StakingLedger::new(7, 1000);
    assert_eq!(l.unbond(100, 5), Ok(()));
    assert_eq!(l.unbond(200, 8), Ok(()));
    assert_eq!(l.unbond(50, 11), Ok(()));
    let freed = l.consolidate_unlocked(8);
    assert_eq!(freed, 300);
    assert_eq!(l.total, 700);
    assert_eq!(l.active, 650);
    assert_eq!(l.unlocking, vec![UnlockChunk { value: 50, era: 11 }]);
    assert!(l.check_well_formed());
}

#[test]
fn invariant_holds_through_a_mutation_sequence() {
    let mut l = StakingLedger::new(7, 5000);
    assert!(l.check_well_formed());
    assert_eq!(l.bond_extra(1000), Ok(()));
    assert!(l.check_well_formed());
    assert_eq!(l.unbond(1500, 4), Ok(()));
    assert!(l.check_well_formed());
    assert_eq!(l.unbond(500, 6), Ok(()));
    assert!(l.check_well_formed());
    let _ = l.rebond(800);
    assert!(l.check_well_formed());
    let _ = l.consolidate_unlocked(4);
    assert!(l.check_well_formed());
    assert_eq!(l.total, l.active + l.unlocking.iter().map(|c| c.value).sum::<u128>());
}

#[test]
fn check_well_formed_rejects_inconsistent_totals() {
    let l = StakingLedger {
        stash: 1,
        total: 100,
        active: 50,
        unlocking: vec![UnlockChunk { value: 20, era: 3 }],
        claimed_rewards: Vec::new(),
    };
    assert!(!l.check_well_formed());
}

#[test]
fn ratio_mul_floor_exact_values() {
    assert_eq!(ratio_mul_floor(0, 12345), 0);
    assert_eq!(ratio_mul_floor(RATIO_ONE, 12345), 12345);
    assert_eq!(ratio_mul_floor(100_000, 995), 99);
    assert_eq!(ratio_mul_floor(500_000, u128::MAX), (u128::MAX - 1) / 2);
}
