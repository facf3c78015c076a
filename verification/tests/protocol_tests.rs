use liquid_staking::errors::Error;
use liquid_staking::ledger::{StakingLedger, UnlockChunk};
use liquid_staking::protocol::{AssetEffect, LiquidStaking, XcmRequest};
use liquid_staking::rate::RATE_ONE;

const UNIT: u128 = 1_000_000_000_000;

fn setup(rate: u128, factor: u32, fee: u128) -> LiquidStaking {
    let mut s = LiquidStaking::new(rate, factor, 1, 1, fee, 2, 10, 7);
    assert_eq!(s.update_market_cap(u128::MAX), Ok(()));
    s
}

#[test]
fn stake_skims_fee_and_reserve_and_mints_at_rate_one() {
    // reserve factor one tenth, messaging fee five units, deposit a
    // thousand units: reserves take a tenth of the 995 remaining.
    let mut s = setup(RATE_ONE, 100_000, 5 * UNIT);
    s.min_stake = 10;
    let out = s.stake(1000 * UNIT).unwrap();
    assert_eq!(out.reserves, 99 * UNIT + UNIT / 2);
    assert_eq!(out.matched_amount, 895 * UNIT + UNIT / 2);
    assert_eq!(out.liquid_minted, 895 * UNIT + UNIT / 2);
    assert_eq!(s.total_reserves, 99 * UNIT + UNIT / 2);
    assert_eq!(s.matching_pool.total_stake_amount, 895 * UNIT + UNIT / 2);
    assert_eq!(s.liquid_issuance, 895 * UNIT + UNIT / 2);
}

#[test]
fn stake_below_minimum_is_rejected() {
    let mut s = setup(RATE_ONE, 100_000, 0);
    s.min_stake = 1000;
    assert_eq!(s.stake(999), Err(Error::StakeTooSmall));
    assert_eq!(s.matching_pool.total_stake_amount, 0);
}

#[test]
fn stake_below_fee_is_rejected() {
    let mut s = setup(RATE_ONE, 100_000, 500);
    assert_eq!(s.stake(499), Err(Error::ArithmeticUnderflow));
}

#[test]
fn stake_with_zero_rate_is_rejected() {
    let mut s = setup(0, 100_000, 0);
    assert_eq!(s.stake(1000), Err(Error::InvalidExchangeRate));
}

#[test]
fn stake_beyond_market_cap_is_rejected() {
    let mut s = setup(RATE_ONE, 0, 0);
    assert_eq!(s.update_market_cap(500), Ok(()));
    assert_eq!(s.stake(501), Err(Error::CapExceeded));
    assert_eq!(s.stake(500), Ok(liquid_staking::protocol::StakeOutcome {
        liquid_minted: 500,
        reserves: 0,
        matched_amount: 500,
    }));
}

#[test]
fn conversions_follow_the_stored_rate() {
    let mut s = setup(RATE_ONE, 0, 0);
    s.exchange_rate = RATE_ONE / 2;
    assert_eq!(s.staking_to_liquid(100), Some(200));
    assert_eq!(s.liquid_to_staking(200), Some(100));
    assert_eq!(s.get_exchange_rate(), RATE_ONE / 2);
}

#[test]
fn unstake_queues_chunk_after_bonding_duration() {
    // unstaking 200 at era ten with a bonding duration of 28 queues
    // one chunk claimable at era 39.
    let mut s = setup(RATE_ONE, 0, 0);
    s.bonding_duration = 28;
    s.current_era = 10;
    s.liquid_issuance = 1000;
    assert_eq!(s.unstake(1, 200), Ok(200));
    assert_eq!(s.liquid_issuance, 800);
    assert_eq!(s.matching_pool.total_unstake_amount, 200);
    let queue = s.unlockings.get(&1).unwrap();
    assert_eq!(queue.as_slice(), &[UnlockChunk { value: 200, era: 39 }]);
}

#[test]
fn claim_fails_before_target_era_and_pays_at_it() {
    let mut s = setup(RATE_ONE, 0, 0);
    s.bonding_duration = 28;
    s.current_era = 10;
    s.liquid_issuance = 1000;
    assert_eq!(s.unstake(1, 200), Ok(200));
    assert_eq!(s.claim_for(1), Err(Error::NothingToClaim));
    s.current_era = 38;
    assert_eq!(s.claim_for(1), Err(Error::NothingToClaim));
    s.current_era = 39;
    assert_eq!(s.claim_for(1), Ok(200));
    assert!(s.unlockings.get(&1).is_none());
}

#[test]
fn claim_pays_exactly_the_reached_chunks() {
    let mut s = setup(RATE_ONE, 0, 0);
    s.liquid_issuance = 10_000;
    s.bonding_duration = 4;
    s.current_era = 0;
    assert_eq!(s.unstake(9, 100), Ok(100)); // era 5
    s.current_era = 3;
    assert_eq!(s.unstake(9, 250), Ok(250)); // era 8
    s.current_era = 6;
    assert_eq!(s.unstake(9, 40), Ok(40)); // era 11
    s.current_era = 8;
    assert_eq!(s.claim_for(9), Ok(350));
    let queue = s.unlockings.get(&9).unwrap();
    assert_eq!(queue.as_slice(), &[UnlockChunk { value: 40, era: 11 }]);
    assert_eq!(s.claim_for(9), Err(Error::NothingToClaim));
}

#[test]
fn claim_for_unknown_account_fails() {
    let mut s = setup(RATE_ONE, 0, 0);
    assert_eq!(s.claim_for(77), Err(Error::NothingToClaim));
}

#[test]
fn unstake_below_minimum_is_rejected() {
    let mut s = setup(RATE_ONE, 0, 0);
    s.min_unstake = 100;
    s.liquid_issuance = 1000;
    assert_eq!(s.unstake(1, 99), Err(Error::UnstakeTooSmall));
}

#[test]
fn unstake_beyond_issuance_is_rejected() {
    let mut s = setup(RATE_ONE, 0, 0);
    s.liquid_issuance = 50;
    assert_eq!(s.unstake(1, 51), Err(Error::ArithmeticUnderflow));
}

#[test]
fn unstake_stops_at_thirty_two_chunks() {
    let mut s = setup(RATE_ONE, 0, 0);
    s.liquid_issuance = 10_000;
    for era in 0..32u32 {
        s.current_era = era;
        assert_eq!(s.unstake(1, 10), Ok(10));
    }
    assert_eq!(s.unlockings.get(&1).unwrap().len(), 32);
    assert_eq!(s.unstake(1, 10), Err(Error::NoMoreChunks));
    assert_eq!(s.unlockings.get(&1).unwrap().len(), 32);
}

#[test]
fn stake_then_unstake_nets_to_zero_at_rate_one() {
    // the round trip: what the stake matched, the immediate unstake of
    // the minted units takes out again in full.
    let mut s = setup(RATE_ONE, 100_000, 5 * UNIT);
    let out = s.stake(1000 * UNIT).unwrap();
    assert_eq!(s.unstake(1, out.liquid_minted), Ok(out.matched_amount));
    assert_eq!(
        s.matching_pool.total_stake_amount,
        s.matching_pool.total_unstake_amount
    );
}

#[test]
fn round_trip_never_gains_value_at_other_rates() {
    // at a rate of three tenths, a thousand staked units mint 3333
    // liquid units; unstaking them claims only 999 staking units, so
    // rounding always favours the pool.
    let mut s = setup(300_000_000_000_000_000, 0, 0);
    let out = s.stake(1000).unwrap();
    assert_eq!(out.liquid_minted, 3333);
    assert_eq!(s.unstake(1, 3333), Ok(999));
    assert!(s.matching_pool.total_unstake_amount <= s.matching_pool.total_stake_amount);
}

#[test]
fn update_reserve_factor_accepts_proper_fractions_only() {
    let mut s = setup(RATE_ONE, 100_000, 0);
    assert_eq!(s.update_reserve_factor(0), Err(Error::InvalidFactor));
    assert_eq!(s.update_reserve_factor(1_000_000), Err(Error::InvalidFactor));
    assert_eq!(s.reserve_factor, 100_000);
    assert_eq!(s.update_reserve_factor(250_000), Ok(()));
    assert_eq!(s.reserve_factor, 250_000);
}

#[test]
fn update_market_cap_rejects_zero() {
    let mut s = setup(RATE_ONE, 0, 0);
    assert_eq!(s.update_market_cap(0), Err(Error::InvalidCap));
    assert_eq!(s.market_cap, u128::MAX);
}

#[test]
fn update_staking_ledger_requires_a_bond() {
    let mut s = setup(RATE_ONE, 0, 0);
    let fed = StakingLedger::new(7, 1000);
    assert_eq!(s.update_staking_ledger(fed), Err(Error::NotBonded));
}

#[test]
fn update_staking_ledger_recomputes_the_rate() {
    let mut s = setup(RATE_ONE, 0, 0);
    s.ledger = Some(StakingLedger::new(7, 1000));
    s.liquid_issuance = 1000;
    let fed = StakingLedger::new(7, 1100);
    assert_eq!(s.update_staking_ledger(fed.clone()), Ok(()));
    // rewards raised the active stake by a tenth, so one liquid unit is
    // now worth one and a tenth staking units.
    assert_eq!(s.exchange_rate, RATE_ONE + RATE_ONE / 10);
    assert_eq!(s.ledger, Some(fed));
    assert_eq!(s.staking_to_liquid(110), Some(100));
}

#[test]
fn era_offset_follows_the_block_height() {
    let mut s = setup(RATE_ONE, 0, 0);
    s.era_start_block = 100;
    s.era_length = 10;
    assert_eq!(s.era_offset(99), 0);
    assert_eq!(s.era_offset(100), 0);
    assert_eq!(s.era_offset(109), 0);
    assert_eq!(s.era_offset(110), 1);
    assert_eq!(s.era_offset(145), 4);
    s.era_length = 0;
    assert_eq!(s.era_offset(1000), 0);
}

#[test]
fn era_offset_beyond_index_range_counts_as_zero() {
    let mut s = setup(RATE_ONE, 0, 0);
    s.era_start_block = 0;
    s.era_length = 1;
    assert_eq!(s.era_offset(u32::MAX as u64), u32::MAX);
    assert_eq!(s.era_offset(u32::MAX as u64 + 1), 0);
}

#[test]
fn era_index_saturates_at_its_maximum() {
    let mut s = setup(RATE_ONE, 0, 0);
    s.current_era = u32::MAX - 1;
    s.era_length = 10;
    let requests = s.on_initialize(100);
    assert!(requests.is_empty());
    assert_eq!(s.current_era, u32::MAX);
}

#[test]
fn privileged_bond_records_a_request() {
    let mut s = setup(RATE_ONE, 0, 0);
    assert_eq!(s.bond(0), Ok(None));
    assert_eq!(s.bond(500), Ok(Some(0)));
    assert_eq!(s.xcm_requests.get(&0), Some(&XcmRequest::Bond { amount: 500 }));
    assert_eq!(s.next_query_id, 1);
    s.ledger = Some(StakingLedger::new(7, 500));
    assert_eq!(s.bond(500), Err(Error::AlreadyBonded));
}

#[test]
fn privileged_unbond_needs_a_ledger() {
    let mut s = setup(RATE_ONE, 0, 0);
    assert_eq!(s.unbond(100), Err(Error::NotBonded));
    s.ledger = Some(StakingLedger::new(7, 500));
    assert_eq!(s.unbond(100), Ok(Some(0)));
    assert_eq!(s.xcm_requests.get(&0), Some(&XcmRequest::Unbond { amount: 100 }));
}

#[test]
fn nominate_records_targets() {
    let mut s = setup(RATE_ONE, 0, 0);
    assert_eq!(s.nominate(vec![3, 4, 5]), Ok(0));
    assert_eq!(
        s.xcm_requests.get(&0),
        Some(&XcmRequest::Nominate { targets: vec![3, 4, 5] })
    );
}

#[test]
fn failed_acknowledgement_keeps_the_request() {
    let mut s = setup(RATE_ONE, 0, 0);
    assert_eq!(s.stake(1000), Ok(liquid_staking::protocol::StakeOutcome {
        liquid_minted: 1000,
        reserves: 0,
        matched_amount: 1000,
    }));
    assert_eq!(s.bond(1000), Ok(Some(0)));
    assert_eq!(s.notification_received(0, false), Ok(AssetEffect::NoEffect));
    assert!(s.xcm_requests.get(&0).is_some());
    assert!(s.ledger.is_none());
}

#[test]
fn duplicate_acknowledgement_is_a_no_op() {
    let mut s = setup(RATE_ONE, 0, 0);
    let _ = s.stake(1000).unwrap();
    assert_eq!(s.bond(1000), Ok(Some(0)));
    assert_eq!(
        s.notification_received(0, true),
        Ok(AssetEffect::BurnReserved { amount: 1000 })
    );
    assert!(s.xcm_requests.get(&0).is_none());
    assert_eq!(s.notification_received(0, true), Ok(AssetEffect::NoEffect));
}

#[test]
fn acknowledgement_for_unknown_id_is_a_no_op() {
    let mut s = setup(RATE_ONE, 0, 0);
    assert_eq!(s.notification_received(9999, true), Ok(AssetEffect::NoEffect));
}

#[test]
fn full_cycle_from_stake_to_claim() {
    let mut s = setup(RATE_ONE, 0, 0);
    s.era_length = 10;
    s.bonding_duration = 2;

    // a user stakes a thousand units; the matching pool accumulates.
    let out = s.stake(1000).unwrap();
    assert_eq!(out.liquid_minted, 1000);

    // first era boundary: the pool nets into a first bond.
    let requests = s.on_initialize(10);
    assert_eq!(s.current_era, 1);
    assert_eq!(s.era_start_block, 10);
    assert_eq!(requests, vec![(0, XcmRequest::Bond { amount: 1000 })]);

    // the bond is confirmed: the ledger appears, the pool drains, and
    // the set-aside staking asset burns.
    assert_eq!(
        s.notification_received(0, true),
        Ok(AssetEffect::BurnReserved { amount: 1000 })
    );
    let l = s.ledger.as_ref().unwrap();
    assert_eq!((l.total, l.active), (1000, 1000));
    assert_eq!(s.matching_pool.total_stake_amount, 0);
    // issuance is a thousand and the bonded value a thousand: the rate
    // stays at one.
    assert_eq!(s.exchange_rate, RATE_ONE);

    // a user unstakes 300; the claim matures at era 1 + 2 + 1.
    assert_eq!(s.unstake(1, 300), Ok(300));
    assert_eq!(
        s.unlockings.get(&1).unwrap().as_slice(),
        &[UnlockChunk { value: 300, era: 4 }]
    );

    // second era boundary: the deficit becomes an unbond.
    let requests = s.on_initialize(20);
    assert_eq!(s.current_era, 2);
    assert_eq!(requests, vec![(1, XcmRequest::Unbond { amount: 300 })]);
    assert_eq!(s.notification_received(1, true), Ok(AssetEffect::NoEffect));
    let l = s.ledger.as_ref().unwrap();
    assert_eq!((l.total, l.active), (1000, 700));
    assert_eq!(l.unlocking.as_slice(), &[UnlockChunk { value: 300, era: 4 }]);
    assert_eq!(s.matching_pool.total_unstake_amount, 0);

    // third era boundary: something is unbonding, so a withdrawal goes
    // out, but nothing has unlocked yet.
    let requests = s.on_initialize(30);
    assert_eq!(s.current_era, 3);
    assert_eq!(
        requests,
        vec![(2, XcmRequest::WithdrawUnbonded { num_slashing_spans: 0 })]
    );
    assert_eq!(
        s.notification_received(2, true),
        Ok(AssetEffect::MintUnbonded { amount: 0 })
    );

    // fourth era boundary: the chunk's era is reached; the withdrawal
    // frees it remotely and the user can claim.
    let requests = s.on_initialize(40);
    assert_eq!(s.current_era, 4);
    assert_eq!(
        requests,
        vec![(3, XcmRequest::WithdrawUnbonded { num_slashing_spans: 0 })]
    );
    assert_eq!(
        s.notification_received(3, true),
        Ok(AssetEffect::MintUnbonded { amount: 300 })
    );
    let l = s.ledger.as_ref().unwrap();
    assert_eq!((l.total, l.active), (700, 700));
    assert!(l.unlocking.is_empty());

    assert_eq!(s.claim_for(1), Ok(300));
    assert!(s.unlockings.get(&1).is_none());
    assert_eq!(s.liquid_issuance, 700);
}

#[test]
fn second_stake_becomes_bond_extra() {
    let mut s = setup(RATE_ONE, 0, 0);
    s.era_length = 10;
    let _ = s.stake(1000).unwrap();
    let requests = s.on_initialize(10);
    assert_eq!(requests, vec![(0, XcmRequest::Bond { amount: 1000 })]);
    assert_eq!(
        s.notification_received(0, true),
        Ok(AssetEffect::BurnReserved { amount: 1000 })
    );
    let _ = s.stake(500).unwrap();
    let requests = s.on_initialize(20);
    assert_eq!(requests, vec![(1, XcmRequest::BondExtra { amount: 500 })]);
    assert_eq!(
        s.notification_received(1, true),
        Ok(AssetEffect::BurnReserved { amount: 500 })
    );
    let l = s.ledger.as_ref().unwrap();
    assert_eq!((l.total, l.active), (1500, 1500));
    // fifteen hundred bonded against fifteen hundred liquid units: the
    // rate is still one.
    assert_eq!(s.exchange_rate, RATE_ONE);
}

#[test]
fn rebond_acknowledgement_reverses_newest_chunks() {
    let mut s = setup(RATE_ONE, 0, 0);
    let mut l = StakingLedger::new(7, 1000);
    assert_eq!(l.unbond(300, 10), Ok(()));
    s.ledger = Some(l);
    s.matching_pool.total_stake_amount = 500;
    assert_eq!(s.rebond(200), Ok(Some(0)));
    assert_eq!(s.notification_received(0, true), Ok(AssetEffect::NoEffect));
    let l = s.ledger.as_ref().unwrap();
    assert_eq!((l.total, l.active), (1000, 900));
    assert_eq!(l.unlocking.as_slice(), &[UnlockChunk { value: 100, era: 10 }]);
    assert_eq!(s.matching_pool.total_stake_amount, 300);
    assert!(s.xcm_requests.get(&0).is_none());
}

#[test]
fn failing_acknowledgement_application_leaves_request_stuck() {
    // a rebond ack draws the amount from the stake accumulator; when
    // that accumulator cannot cover it, the call aborts and the request
    // stays tracked, with no retry.
    let mut s = setup(RATE_ONE, 0, 0);
    let mut l = StakingLedger::new(7, 1000);
    assert_eq!(l.unbond(300, 10), Ok(()));
    s.ledger = Some(l);
    assert_eq!(s.rebond(200), Ok(Some(0)));
    assert_eq!(s.notification_received(0, true), Err(Error::ArithmeticUnderflow));
    assert!(s.xcm_requests.get(&0).is_some());
    let l = s.ledger.as_ref().unwrap();
    assert_eq!((l.total, l.active), (1000, 700));
}

#[test]
fn withdraw_acknowledgement_without_ledger_is_rejected() {
    let mut s = setup(RATE_ONE, 0, 0);
    assert_eq!(s.withdraw_unbonded(0), Ok(0));
    assert_eq!(s.notification_received(0, true), Err(Error::NotBonded));
    assert!(s.xcm_requests.get(&0).is_some());
}

#[test]
fn blocked_era_advance_changes_nothing() {
    // a deficit that needs a fresh unbond cannot be served without a
    // ledger: the round is skipped and retried later.
    let mut s = setup(RATE_ONE, 0, 0);
    s.era_length = 10;
    s.liquid_issuance = 500;
    assert_eq!(s.unstake(1, 200), Ok(200));
    let requests = s.on_initialize(10);
    assert!(requests.is_empty());
    assert_eq!(s.current_era, 0);
    assert_eq!(s.era_start_block, 0);
    assert_eq!(s.matching_pool.total_unstake_amount, 200);
}
