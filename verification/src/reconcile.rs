//! Reconciliation of acknowledged remote requests.
//!
//! Submitting a remote operation records an [`XcmRequest`] under a fresh
//! query identifier; the remote chain answers later, out of band.  Only
//! that answer mutates the staking ledger and draws down the matching
//! pool: a success applies exactly the recorded mutation and removes the
//! record, so a duplicate acknowledgement finds nothing and does nothing.
//! A reported failure leaves the record tracked and the state untouched;
//! no retry is attempted.

use vstd::prelude::*;
use crate::errors::Error;
use crate::ledger::{
    claimable_sum, rebond_split, remaining_after, sum_chunks, unbond_chunks, StakingLedger,
    MAX_UNLOCKING_CHUNKS,
};
use crate::protocol::{updated_rate, AssetEffect, LiquidStaking, XcmRequest};
use crate::rate::Rate;
use crate::{Balance, EraIndex, QueryId};

verus! {

broadcast use vstd::std_specs::hash::group_hash_axioms;

/// Everything a reconciliation step leaves untouched: only the staking
/// ledger, the matching pool, the exchange rate and the request tracker
/// may move.
pub open spec fn reconcile_frame(a: LiquidStaking, b: LiquidStaking) -> bool {
    &&& b.unlockings@ == a.unlockings@
    &&& b.total_reserves == a.total_reserves
    &&& b.market_cap == a.market_cap
    &&& b.reserve_factor == a.reserve_factor
    &&& b.current_era == a.current_era
    &&& b.era_start_block == a.era_start_block
    &&& b.next_query_id == a.next_query_id
    &&& b.liquid_issuance == a.liquid_issuance
    &&& b.min_stake == a.min_stake
    &&& b.min_unstake == a.min_unstake
    &&& b.xcm_fees == a.xcm_fees
    &&& b.bonding_duration == a.bonding_duration
    &&& b.era_length == a.era_length
    &&& b.derivative_account == a.derivative_account
}

/// Effect of a successful `Bond` acknowledgement: the staking ledger is
/// created, the bonded amount leaves the stake accumulator, the rate is
/// recomputed, and the caller burns the set-aside staking asset.
pub open spec fn bond_ack(
    pre: LiquidStaking,
    post: LiquidStaking,
    r: Result<AssetEffect, Error>,
    amount: Balance,
) -> bool {
    if pre.ledger is Some {
        r == Err::<AssetEffect, Error>(Error::AlreadyBonded)
    } else if amount > pre.matching_pool.total_stake_amount {
        r == Err::<AssetEffect, Error>(Error::ArithmeticUnderflow)
    } else {
        let stake_after = (pre.matching_pool.total_stake_amount - amount) as Balance;
        match updated_rate(
            pre.liquid_issuance,
            pre.exchange_rate,
            amount,
            stake_after,
            pre.matching_pool.total_unstake_amount,
        ) {
            Result::Err(e) => r == Err::<AssetEffect, Error>(e),
            Result::Ok(new_rate) => {
                &&& r == Ok::<AssetEffect, Error>(AssetEffect::BurnReserved { amount })
                &&& post.ledger matches Some(l) && l.stash == pre.derivative_account && l.total
                    == amount && l.active == amount && l.unlocking@.len() == 0
                    && l.claimed_rewards@.len() == 0
                &&& post.matching_pool.total_stake_amount == stake_after
                &&& post.matching_pool.total_unstake_amount
                    == pre.matching_pool.total_unstake_amount
                &&& post.exchange_rate == new_rate
            },
        }
    }
}

/// Effect of a successful `BondExtra` acknowledgement: the bonded amount
/// joins the ledger's total and active balances, leaves the stake
/// accumulator, the rate is recomputed, and the caller burns the
/// set-aside staking asset.
pub open spec fn bond_extra_ack(
    pre: LiquidStaking,
    post: LiquidStaking,
    r: Result<AssetEffect, Error>,
    amount: Balance,
) -> bool {
    if pre.ledger is None {
        r == Err::<AssetEffect, Error>(Error::NotBonded)
    } else {
        let l = pre.ledger->0;
        if l.total + amount > Balance::MAX {
            r == Err::<AssetEffect, Error>(Error::ArithmeticOverflow)
        } else if amount > pre.matching_pool.total_stake_amount {
            r == Err::<AssetEffect, Error>(Error::ArithmeticUnderflow)
        } else {
            let stake_after = (pre.matching_pool.total_stake_amount - amount) as Balance;
            let new_active = (l.active + amount) as Balance;
            match updated_rate(
                pre.liquid_issuance,
                pre.exchange_rate,
                new_active,
                stake_after,
                pre.matching_pool.total_unstake_amount,
            ) {
                Result::Err(e) => r == Err::<AssetEffect, Error>(e),
                Result::Ok(new_rate) => {
                    &&& r == Ok::<AssetEffect, Error>(AssetEffect::BurnReserved { amount })
                    &&& post.ledger matches Some(pl) && pl == (StakingLedger {
                        total: (l.total + amount) as Balance,
                        active: new_active,
                        ..l
                    })
                    &&& post.matching_pool.total_stake_amount == stake_after
                    &&& post.matching_pool.total_unstake_amount
                        == pre.matching_pool.total_unstake_amount
                    &&& post.exchange_rate == new_rate
                },
            }
        }
    }
}

/// Effect of a successful `Unbond` acknowledgement: the amount moves
/// from the ledger's active balance into an unlock chunk targeting the
/// current era plus the bonding duration, and leaves the unstake
/// accumulator.
pub open spec fn unbond_ack(
    pre: LiquidStaking,
    post: LiquidStaking,
    r: Result<AssetEffect, Error>,
    amount: Balance,
) -> bool {
    if pre.ledger is None {
        r == Err::<AssetEffect, Error>(Error::NotBonded)
    } else if pre.current_era + pre.bonding_duration > EraIndex::MAX {
        r == Err::<AssetEffect, Error>(Error::ArithmeticOverflow)
    } else {
        let l = pre.ledger->0;
        let target_era = (pre.current_era + pre.bonding_duration) as EraIndex;
        if l.unlocking@.len() >= MAX_UNLOCKING_CHUNKS {
            r == Err::<AssetEffect, Error>(Error::NoMoreChunks)
        } else if amount > l.active {
            r == Err::<AssetEffect, Error>(Error::ArithmeticUnderflow)
        } else if amount > pre.matching_pool.total_unstake_amount {
            r == Err::<AssetEffect, Error>(Error::ArithmeticUnderflow)
        } else {
            &&& r == Ok::<AssetEffect, Error>(AssetEffect::NoEffect)
            &&& post.ledger matches Some(pl) && pl.active == l.active - amount && pl.total
                == l.total && pl.unlocking@ == unbond_chunks(l.unlocking@, amount, target_era)
                && pl.stash == l.stash && pl.claimed_rewards == l.claimed_rewards
            &&& post.matching_pool.total_unstake_amount == pre.matching_pool.total_unstake_amount
                - amount
            &&& post.matching_pool.total_stake_amount == pre.matching_pool.total_stake_amount
            &&& post.exchange_rate == pre.exchange_rate
        }
    }
}

/// Effect of a successful `Rebond` acknowledgement: up to the amount is
/// moved back from the unlocking chunks, newest first, into the active
/// balance, and the full amount leaves the stake accumulator.
pub open spec fn rebond_ack(
    pre: LiquidStaking,
    post: LiquidStaking,
    r: Result<AssetEffect, Error>,
    amount: Balance,
) -> bool {
    if pre.ledger is None {
        r == Err::<AssetEffect, Error>(Error::NotBonded)
    } else if amount > pre.matching_pool.total_stake_amount {
        r == Err::<AssetEffect, Error>(Error::ArithmeticUnderflow)
    } else {
        let l = pre.ledger->0;
        let moved = vstd::math::min(amount as int, sum_chunks(l.unlocking@));
        &&& r == Ok::<AssetEffect, Error>(AssetEffect::NoEffect)
        &&& post.ledger matches Some(pl) && pl.active == l.active + moved && pl.total == l.total
            && pl.unlocking@ == rebond_split(l.unlocking@, amount as int).0 && pl.stash == l.stash
            && pl.claimed_rewards == l.claimed_rewards
        &&& post.matching_pool.total_stake_amount == pre.matching_pool.total_stake_amount - amount
        &&& post.matching_pool.total_unstake_amount == pre.matching_pool.total_unstake_amount
        &&& post.exchange_rate == pre.exchange_rate
    }
}

/// Effect of a successful `WithdrawUnbonded` acknowledgement: every
/// chunk whose era has been reached leaves the ledger, and the caller
/// mints the freed value back into the protocol account.
pub open spec fn withdraw_unbonded_ack(
    pre: LiquidStaking,
    post: LiquidStaking,
    r: Result<AssetEffect, Error>,
) -> bool {
    if pre.ledger is None {
        r == Err::<AssetEffect, Error>(Error::NotBonded)
    } else {
        let l = pre.ledger->0;
        let freed = claimable_sum(l.unlocking@, pre.current_era);
        &&& r == Ok::<AssetEffect, Error>(AssetEffect::MintUnbonded { amount: freed as Balance })
        &&& post.ledger matches Some(pl) && pl.unlocking@ == remaining_after(
            l.unlocking@,
            pre.current_era,
        ) && pl.total == l.total - freed && pl.active == l.active && pl.stash == l.stash
            && pl.claimed_rewards == l.claimed_rewards
        &&& post.matching_pool == pre.matching_pool
        &&& post.exchange_rate == pre.exchange_rate
    }
}

impl LiquidStaking {
    /// Applies the acknowledgement for `query_id`.  A reported failure
    /// or an unknown identifier changes nothing; a success applies the
    /// recorded mutation, removes the record, and returns the asset
    /// operation the caller must perform.  Any error rolls the whole
    /// call back, leaving the record in place.
    pub fn notification_received(&mut self, query_id: QueryId, success: bool) -> (r: Result<
        AssetEffect,
        Error,
    >)
        requires
            old(self).wf(),
        ensures
            final(self).wf(),
            r is Err ==> *final(self) == *old(self),
            !success ==> r == Ok::<AssetEffect, Error>(AssetEffect::NoEffect) && *final(self)
                == *old(self),
            success && !old(self).xcm_requests@.contains_key(query_id) ==> r == Ok::<
                AssetEffect,
                Error,
            >(AssetEffect::NoEffect) && *final(self) == *old(self),
            success && old(self).xcm_requests@.contains_key(query_id) ==> ({
                let pre = *old(self);
                let post = *final(self);
                &&& (r is Ok ==> post.xcm_requests@ == pre.xcm_requests@.remove(query_id)
                    && reconcile_frame(pre, post))
                &&& match pre.xcm_requests@[query_id] {
                    XcmRequest::Bond { amount } => bond_ack(pre, post, r, amount),
                    XcmRequest::BondExtra { amount } => bond_extra_ack(pre, post, r, amount),
                    XcmRequest::Unbond { amount } => unbond_ack(pre, post, r, amount),
                    XcmRequest::Rebond { amount } => rebond_ack(pre, post, r, amount),
                    XcmRequest::WithdrawUnbonded { .. } => withdraw_unbonded_ack(pre, post, r),
                    XcmRequest::Nominate { .. } => r == Ok::<AssetEffect, Error>(
                        AssetEffect::NoEffect,
                    ),
                }
            }),
    {
        if !success {
            return Ok(AssetEffect::NoEffect);
        }
        let effect: AssetEffect = match self.xcm_requests.get(&query_id) {
            Option::None => {
                return Ok(AssetEffect::NoEffect);
            },
            Option::Some(request) => match request {
                XcmRequest::Bond { amount } => {
                    let amount: Balance = *amount;
                    if self.ledger.is_some() {
                        return Err(Error::AlreadyBonded);
                    }
                    let stake_after = match self.matching_pool.total_stake_amount.checked_sub(
                        amount,
                    ) {
                        Option::None => {
                            return Err(Error::ArithmeticUnderflow);
                        },
                        Option::Some(v) => v,
                    };
                    let new_rate = match self.rate_for_ack(amount, stake_after) {
                        Err(e) => {
                            return Err(e);
                        },
                        Ok(v) => v,
                    };
                    self.ledger = Option::Some(StakingLedger::new(self.derivative_account, amount));
                    self.matching_pool.total_stake_amount = stake_after;
                    self.exchange_rate = new_rate;
                    AssetEffect::BurnReserved { amount }
                },
                XcmRequest::BondExtra { amount } => {
                    let amount: Balance = *amount;
                    let (ledger_total, ledger_active) = match &self.ledger {
                        Option::None => {
                            return Err(Error::NotBonded);
                        },
                        Option::Some(l) => (l.total, l.active),
                    };
                    if ledger_total > Balance::MAX - amount {
                        return Err(Error::ArithmeticOverflow);
                    }
                    let stake_after = match self.matching_pool.total_stake_amount.checked_sub(
                        amount,
                    ) {
                        Option::None => {
                            return Err(Error::ArithmeticUnderflow);
                        },
                        Option::Some(v) => v,
                    };
                    proof {
                        crate::ledger::lemma_sum_nonneg(self.ledger->0.unlocking@);
                    }
                    let new_active = ledger_active + amount;
                    let new_rate = match self.rate_for_ack(new_active, stake_after) {
                        Err(e) => {
                            return Err(e);
                        },
                        Ok(v) => v,
                    };
                    match &mut self.ledger {
                        Option::Some(l) => {
                            match l.bond_extra(amount) {
                                Ok(()) => {},
                                Err(e) => {
                                    return Err(e);
                                },
                            }
                        },
                        Option::None => {
                            return Err(Error::NotBonded);
                        },
                    }
                    self.matching_pool.total_stake_amount = stake_after;
                    self.exchange_rate = new_rate;
                    AssetEffect::BurnReserved { amount }
                },
                XcmRequest::Unbond { amount } => {
                    let amount: Balance = *amount;
                    let (ledger_active, ledger_chunks) = match &self.ledger {
                        Option::None => {
                            return Err(Error::NotBonded);
                        },
                        Option::Some(l) => (l.active, l.unlocking.len()),
                    };
                    let target_era = match self.current_era.checked_add(self.bonding_duration) {
                        Option::None => {
                            return Err(Error::ArithmeticOverflow);
                        },
                        Option::Some(v) => v,
                    };
                    if ledger_chunks >= MAX_UNLOCKING_CHUNKS {
                        return Err(Error::NoMoreChunks);
                    }
                    if amount > ledger_active {
                        return Err(Error::ArithmeticUnderflow);
                    }
                    let unstake_after = match self.matching_pool.total_unstake_amount.checked_sub(
                        amount,
                    ) {
                        Option::None => {
                            return Err(Error::ArithmeticUnderflow);
                        },
                        Option::Some(v) => v,
                    };
                    match &mut self.ledger {
                        Option::Some(l) => {
                            match l.unbond(amount, target_era) {
                                Ok(()) => {},
                                Err(e) => {
                                    return Err(e);
                                },
                            }
                        },
                        Option::None => {
                            return Err(Error::NotBonded);
                        },
                    }
                    self.matching_pool.total_unstake_amount = unstake_after;
                    AssetEffect::NoEffect
                },
                XcmRequest::Rebond { amount } => {
                    let amount: Balance = *amount;
                    if self.ledger.is_none() {
                        return Err(Error::NotBonded);
                    }
                    let stake_after = match self.matching_pool.total_stake_amount.checked_sub(
                        amount,
                    ) {
                        Option::None => {
                            return Err(Error::ArithmeticUnderflow);
                        },
                        Option::Some(v) => v,
                    };
                    match &mut self.ledger {
                        Option::Some(l) => {
                            let _moved = l.rebond(amount);
                        },
                        Option::None => {
                            return Err(Error::NotBonded);
                        },
                    }
                    self.matching_pool.total_stake_amount = stake_after;
                    AssetEffect::NoEffect
                },
                XcmRequest::WithdrawUnbonded { .. } => {
                    let current_era = self.current_era;
                    let freed = match &mut self.ledger {
                        Option::Some(l) => l.consolidate_unlocked(current_era),
                        Option::None => {
                            return Err(Error::NotBonded);
                        },
                    };
                    AssetEffect::MintUnbonded { amount: freed }
                },
                XcmRequest::Nominate { .. } => AssetEffect::NoEffect,
            },
        };
        self.xcm_requests.remove(&query_id);
        Ok(effect)
    }

    /// Recomputes the exchange rate for a bond acknowledgement, against
    /// the stake accumulator as it will stand after the draw-down.
    fn rate_for_ack(&self, bonding_amount: Balance, stake_after: Balance) -> (r: Result<
        Rate,
        Error,
    >)
        ensures
            r == updated_rate(
                self.liquid_issuance,
                self.exchange_rate,
                bonding_amount,
                stake_after,
                self.matching_pool.total_unstake_amount,
            ),
    {
        if self.liquid_issuance == 0 {
            return Ok(self.exchange_rate);
        }
        let with_stake = match bonding_amount.checked_add(stake_after) {
            Option::None => {
                return Err(Error::ArithmeticOverflow);
            },
            Option::Some(v) => v,
        };
        let effective = match with_stake.checked_sub(self.matching_pool.total_unstake_amount) {
            Option::None => {
                return Err(Error::ArithmeticUnderflow);
            },
            Option::Some(v) => v,
        };
        match crate::rate::rate_from_rational(effective, self.liquid_issuance) {
            Option::None => Err(Error::InvalidExchangeRate),
            Option::Some(new_rate) => Ok(new_rate),
        }
    }
}

} // verus!
