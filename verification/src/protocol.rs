//! The protocol state and the user-facing operations on it.
//!
//! All shared ledgers live in one `LiquidStaking` value: the exchange
//! rate, the reserve accounting, the matching pool, the per-user unlock
//! queues, the staking ledger of the derivative account, and the tracker
//! of in-flight remote requests.  Every operation either completes and
//! commits all of its effects, or rejects with an [`Error`] and changes
//! nothing.
//!
//! Asset movements and remote messages are carried out by the caller:
//! an operation returns what must be minted, burned, transferred or
//! submitted, and the caller reports acknowledgements back through
//! [`LiquidStaking::notification_received`].

use std::collections::HashMap;
use vstd::prelude::*;
use crate::errors::Error;
use crate::ledger::{
    remaining_after, MAX_UNLOCKING_CHUNKS, StakingLedger, UnlockChunk,
};
use crate::matching::MatchingLedger;
use crate::rate::{
    liquid_to_staking, liquid_to_staking_spec, ratio_mul_floor, ratio_mul_floor_spec, Rate, Ratio,
    staking_to_liquid, staking_to_liquid_spec, RATE_ONE, RATIO_ONE,
};
use crate::{AccountId, Balance, BlockNumber, EraIndex, QueryId};

verus! {

broadcast use vstd::std_specs::hash::group_hash_axioms;

/// A remote staking operation that has been submitted and awaits its
/// acknowledgement.  Exactly one record exists per in-flight request.
#[derive(Clone, Debug, PartialEq, Eq)]
pub enum XcmRequest {
    /// Create the remote bond with this amount.
    Bond { amount: Balance },
    /// Add this amount to the existing remote bond.
    BondExtra { amount: Balance },
    /// Begin unlocking this amount of the active remote stake.
    Unbond { amount: Balance },
    /// Cancel unlocking for this amount of unbonding remote stake.
    Rebond { amount: Balance },
    /// Withdraw every remotely unlocked balance.
    WithdrawUnbonded {
        /// Slashing-span count forwarded to the remote call.
        num_slashing_spans: u32,
    },
    /// Elect remote validators; no ledger effect.
    Nominate {
        /// The accounts nominated.
        targets: Vec<AccountId>,
    },
}

/// Asset operation the caller must perform after an acknowledgement has
/// been applied.
#[derive(Clone, Copy, Debug, PartialEq, Eq, Structural)]
pub enum AssetEffect {
    /// Nothing to do.
    NoEffect,
    /// Burn this amount of the staking asset from the protocol account:
    /// it was set aside at stake time and is now bonded remotely.
    BurnReserved {
        /// The amount to burn.
        amount: Balance,
    },
    /// Mint this amount of the staking asset into the protocol account:
    /// it has been withdrawn from the remote chain.
    MintUnbonded {
        /// The amount to mint.
        amount: Balance,
    },
}

/// What a successful `stake` call decided.
#[derive(Clone, Copy, Debug, PartialEq, Eq, Structural)]
pub struct StakeOutcome {
    /// Derivative units to mint for the staker.
    pub liquid_minted: Balance,
    /// Portion of the deposit withheld for the protocol reserve.
    pub reserves: Balance,
    /// Portion of the deposit recorded for bonding in the matching pool.
    pub matched_amount: Balance,
}

/// The complete protocol state together with its configuration.
pub struct LiquidStaking {
    /// Exchange rate between staking value and derivative units.
    pub exchange_rate: Rate,
    /// Fraction of stake inflow withheld as protocol reserve.
    pub reserve_factor: Ratio,
    /// Reserve accumulated so far.
    pub total_reserves: Balance,
    /// Net stake and unstake flow of the current era.
    pub matching_pool: MatchingLedger,
    /// Cap on the issuance of the derivative asset.
    pub market_cap: Balance,
    /// In-flight remote requests by query identifier.
    pub xcm_requests: HashMap<QueryId, XcmRequest>,
    /// Identifier the next submitted request will receive.
    pub next_query_id: QueryId,
    /// Current era index.
    pub current_era: EraIndex,
    /// Remote block at which the current era began.
    pub era_start_block: BlockNumber,
    /// Pending redemption chunks per user.
    pub unlockings: HashMap<AccountId, Vec<UnlockChunk>>,
    /// Staking ledger of the derivative account, once bonded.
    pub ledger: Option<StakingLedger>,
    /// Issuance of the derivative asset, tracked through mint and burn.
    pub liquid_issuance: Balance,
    /// Smallest accepted stake.
    pub min_stake: Balance,
    /// Smallest accepted unstake.
    pub min_unstake: Balance,
    /// Messaging fee set aside from every stake.
    pub xcm_fees: Balance,
    /// Eras between an unbond and its withdrawability.
    pub bonding_duration: EraIndex,
    /// Remote blocks per era.
    pub era_length: BlockNumber,
    /// Account holding the remote stake.
    pub derivative_account: AccountId,
}

impl LiquidStaking {
    /// The state invariant: the reserve factor is a valid fraction, the
    /// staking ledger satisfies its own invariant, every unlock queue is
    /// non-empty and within capacity, and tracked requests use already
    /// issued identifiers only.
    pub open spec fn wf(self) -> bool {
        &&& self.reserve_factor <= RATIO_ONE
        &&& (self.ledger matches Some(l) ==> l.wf())
        &&& forall|a: AccountId| #[trigger]
            self.unlockings@.contains_key(a) ==> 1 <= self.unlockings@[a]@.len()
                <= MAX_UNLOCKING_CHUNKS
        &&& forall|q: QueryId| #[trigger]
            self.xcm_requests@.contains_key(q) ==> q < self.next_query_id
    }

    /// A fresh protocol state: empty ledgers, no pending requests, and
    /// the given configuration.  The market cap starts at zero, so
    /// staking stays blocked until `update_market_cap` raises it.
    pub fn new(
        exchange_rate: Rate,
        reserve_factor: Ratio,
        min_stake: Balance,
        min_unstake: Balance,
        xcm_fees: Balance,
        bonding_duration: EraIndex,
        era_length: BlockNumber,
        derivative_account: AccountId,
    ) -> (r: LiquidStaking)
        requires
            reserve_factor <= RATIO_ONE,
        ensures
            r.wf(),
            r.exchange_rate == exchange_rate,
            r.reserve_factor == reserve_factor,
            r.total_reserves == 0,
            r.matching_pool.total_stake_amount == 0,
            r.matching_pool.total_unstake_amount == 0,
            r.market_cap == 0,
            r.xcm_requests@ == Map::<QueryId, XcmRequest>::empty(),
            r.next_query_id == 0,
            r.current_era == 0,
            r.era_start_block == 0,
            r.unlockings@ == Map::<AccountId, Vec<UnlockChunk>>::empty(),
            r.ledger is None,
            r.liquid_issuance == 0,
            r.min_stake == min_stake,
            r.min_unstake == min_unstake,
            r.xcm_fees == xcm_fees,
            r.bonding_duration == bonding_duration,
            r.era_length == era_length,
            r.derivative_account == derivative_account,
    {
        LiquidStaking {
            exchange_rate,
            reserve_factor,
            total_reserves: 0,
            matching_pool: MatchingLedger::new(),
            market_cap: 0,
            xcm_requests: HashMap::new(),
            next_query_id: 0,
            current_era: 0,
            era_start_block: 0,
            unlockings: HashMap::new(),
            ledger: Option::None,
            liquid_issuance: 0,
            min_stake,
            min_unstake,
            xcm_fees,
            bonding_duration,
            era_length,
            derivative_account,
        }
    }

    /// The stored exchange rate.
    pub fn get_exchange_rate(&self) -> (r: Rate)
        ensures
            r == self.exchange_rate,
    {
        self.exchange_rate
    }

    /// Converts a staking amount into derivative units at the stored
    /// rate.
    pub fn staking_to_liquid(&self, amount: Balance) -> (r: Option<Balance>)
        ensures
            r == staking_to_liquid_spec(self.exchange_rate, amount),
    {
        staking_to_liquid(self.exchange_rate, amount)
    }

    /// Converts a derivative amount into staking units at the stored
    /// rate.
    pub fn liquid_to_staking(&self, liquid_amount: Balance) -> (r: Option<Balance>)
        ensures
            r == liquid_to_staking_spec(self.exchange_rate, liquid_amount),
    {
        liquid_to_staking(self.exchange_rate, liquid_amount)
    }

    /// Replaces the reserve factor.  Only fractions strictly between
    /// zero and one are accepted.
    pub fn update_reserve_factor(&mut self, reserve_factor: Ratio) -> (r: Result<(), Error>)
        requires
            old(self).wf(),
        ensures
            final(self).wf(),
            (r is Ok <==> 0 < reserve_factor < RATIO_ONE),
            r is Err ==> *final(self) == *old(self) && r == Err::<(), Error>(Error::InvalidFactor),
            r is Ok ==> *final(self) == (LiquidStaking { reserve_factor, ..*old(self) }),
    {
        if reserve_factor > 0 && reserve_factor < RATIO_ONE {
            self.reserve_factor = reserve_factor;
            Ok(())
        } else {
            Err(Error::InvalidFactor)
        }
    }

    /// Replaces the market cap of the derivative asset.  A cap of zero
    /// is rejected.
    pub fn update_market_cap(&mut self, cap: Balance) -> (r: Result<(), Error>)
        requires
            old(self).wf(),
        ensures
            final(self).wf(),
            (r is Ok <==> cap != 0),
            r is Err ==> *final(self) == *old(self) && r == Err::<(), Error>(Error::InvalidCap),
            r is Ok ==> *final(self) == (LiquidStaking { market_cap: cap, ..*old(self) }),
    {
        if cap != 0 {
            self.market_cap = cap;
            Ok(())
        } else {
            Err(Error::InvalidCap)
        }
    }

    /// Checks that minting `amount` derivative units would keep the
    /// issuance within the market cap.
    pub fn ensure_market_cap(&self, amount: Balance) -> (r: Result<(), Error>)
        ensures
            (r is Ok <==> self.liquid_issuance + amount <= self.market_cap),
            self.liquid_issuance + amount > Balance::MAX ==> r == Err::<(), Error>(
                Error::ArithmeticOverflow,
            ),
            self.liquid_issuance + amount <= Balance::MAX && self.liquid_issuance + amount
                > self.market_cap ==> r == Err::<(), Error>(Error::CapExceeded),
    {
        match self.liquid_issuance.checked_add(amount) {
            None => Err(Error::ArithmeticOverflow),
            Some(new_issuance) => {
                if new_issuance <= self.market_cap {
                    Ok(())
                } else {
                    Err(Error::CapExceeded)
                }
            },
        }
    }

    /// Net amount a deposit of `amount` feeds into the matching pool:
    /// the deposit less the messaging fee, less the reserve skim taken
    /// from that remainder.
    pub open spec fn stake_matched_of(self, amount: Balance) -> int {
        amount - self.xcm_fees - ratio_mul_floor_spec(
            self.reserve_factor,
            (amount - self.xcm_fees) as Balance,
        )
    }

    /// Reserve skim of a deposit of `amount`, taken after the messaging
    /// fee.
    pub open spec fn stake_reserves_of(self, amount: Balance) -> int {
        ratio_mul_floor_spec(self.reserve_factor, (amount - self.xcm_fees) as Balance)
    }

    /// Accepts a deposit of the staking asset.  The messaging fee is set
    /// aside first, the reserve skim is withheld next, and the rest is
    /// recorded as stake inflow and converted into derivative units for
    /// the caller to mint, subject to the market cap.
    ///
    /// The caller transfers `amount - xcm_fees` into the protocol
    /// account, forwards the fee to the messaging layer, and mints
    /// `liquid_minted` to the staker.
    pub fn stake(&mut self, amount: Balance) -> (r: Result<StakeOutcome, Error>)
        requires
            old(self).wf(),
        ensures
            final(self).wf(),
            r is Err ==> *final(self) == *old(self),
            (r == Err::<StakeOutcome, Error>(Error::StakeTooSmall) <==> amount < old(
                self,
            ).min_stake),
            amount >= old(self).min_stake && amount < old(self).xcm_fees ==> r
                == Err::<StakeOutcome, Error>(Error::ArithmeticUnderflow),
            amount >= old(self).min_stake && amount >= old(self).xcm_fees ==> ({
                let matched = old(self).stake_matched_of(amount) as Balance;
                let reserves = old(self).stake_reserves_of(amount) as Balance;
                match staking_to_liquid_spec(old(self).exchange_rate, matched) {
                    Option::None => r == Err::<StakeOutcome, Error>(Error::InvalidExchangeRate),
                    Option::Some(liquid) => {
                        if old(self).liquid_issuance + liquid > Balance::MAX {
                            r == Err::<StakeOutcome, Error>(Error::ArithmeticOverflow)
                        } else if old(self).liquid_issuance + liquid > old(self).market_cap {
                            r == Err::<StakeOutcome, Error>(Error::CapExceeded)
                        } else if old(self).matching_pool.total_stake_amount + matched
                            > Balance::MAX {
                            r == Err::<StakeOutcome, Error>(Error::ArithmeticOverflow)
                        } else if old(self).total_reserves + reserves > Balance::MAX {
                            r == Err::<StakeOutcome, Error>(Error::ArithmeticOverflow)
                        } else {
                            &&& r == Ok::<StakeOutcome, Error>(
                                StakeOutcome { liquid_minted: liquid, reserves, matched_amount: matched },
                            )
                            &&& *final(self) == (LiquidStaking {
                                total_reserves: (old(self).total_reserves + reserves) as Balance,
                                matching_pool: MatchingLedger {
                                    total_stake_amount: (old(self).matching_pool.total_stake_amount
                                        + matched) as Balance,
                                    total_unstake_amount: old(
                                        self,
                                    ).matching_pool.total_unstake_amount,
                                },
                                liquid_issuance: (old(self).liquid_issuance + liquid) as Balance,
                                ..*old(self)
                            })
                        }
                    },
                }
            }),
    {
        if amount < self.min_stake {
            return Err(Error::StakeTooSmall);
        }
        let net = match amount.checked_sub(self.xcm_fees) {
            Option::None => {
                return Err(Error::ArithmeticUnderflow);
            },
            Option::Some(v) => v,
        };
        let reserves = ratio_mul_floor(self.reserve_factor, net);
        let matched = net - reserves;
        let liquid = match staking_to_liquid(self.exchange_rate, matched) {
            Option::None => {
                return Err(Error::InvalidExchangeRate);
            },
            Option::Some(v) => v,
        };
        match self.ensure_market_cap(liquid) {
            Err(e) => {
                return Err(e);
            },
            Ok(()) => {},
        }
        let new_stake = match self.matching_pool.total_stake_amount.checked_add(matched) {
            Option::None => {
                return Err(Error::ArithmeticOverflow);
            },
            Option::Some(v) => v,
        };
        let new_reserves = match self.total_reserves.checked_add(reserves) {
            Option::None => {
                return Err(Error::ArithmeticOverflow);
            },
            Option::Some(v) => v,
        };
        self.matching_pool.total_stake_amount = new_stake;
        self.total_reserves = new_reserves;
        self.liquid_issuance = self.liquid_issuance + liquid;
        Ok(StakeOutcome { liquid_minted: liquid, reserves, matched_amount: matched })
    }

    /// The unlock queue a user currently has, empty when none exists.
    pub open spec fn unlockings_of(self, who: AccountId) -> Seq<UnlockChunk> {
        if self.unlockings@.contains_key(who) {
            self.unlockings@[who]@
        } else {
            Seq::empty()
        }
    }

    /// Redeems derivative units.  The equivalent staking amount is
    /// queued as an unlock chunk claimable one era after the bonding
    /// duration has passed, the derivative units are burned, and the
    /// amount is recorded as unstake outflow.  Returns the queued
    /// staking amount.
    pub fn unstake(&mut self, who: AccountId, liquid_amount: Balance) -> (r: Result<
        Balance,
        Error,
    >)
        requires
            old(self).wf(),
        ensures
            final(self).wf(),
            r is Err ==> *final(self) == *old(self),
            (r == Err::<Balance, Error>(Error::UnstakeTooSmall) <==> liquid_amount < old(
                self,
            ).min_unstake),
            liquid_amount >= old(self).min_unstake ==> ({
                match liquid_to_staking_spec(old(self).exchange_rate, liquid_amount) {
                    Option::None => r == Err::<Balance, Error>(Error::InvalidExchangeRate),
                    Option::Some(amount) => {
                        if old(self).current_era + old(self).bonding_duration + 1
                            > EraIndex::MAX {
                            r == Err::<Balance, Error>(Error::ArithmeticOverflow)
                        } else if old(self).unlockings_of(who).len() >= MAX_UNLOCKING_CHUNKS {
                            r == Err::<Balance, Error>(Error::NoMoreChunks)
                        } else if liquid_amount > old(self).liquid_issuance {
                            r == Err::<Balance, Error>(Error::ArithmeticUnderflow)
                        } else if old(self).matching_pool.total_unstake_amount + amount
                            > Balance::MAX {
                            r == Err::<Balance, Error>(Error::ArithmeticOverflow)
                        } else {
                            let chunk = UnlockChunk {
                                value: amount,
                                era: (old(self).current_era + old(self).bonding_duration
                                    + 1) as EraIndex,
                            };
                            &&& r == Ok::<Balance, Error>(amount)
                            &&& final(self).unlockings@.contains_key(who)
                            &&& final(self).unlockings@[who]@ == old(self).unlockings_of(
                                who,
                            ).push(chunk)
                            &&& (forall|a: AccountId|
                                a != who ==> (#[trigger] final(self).unlockings@.contains_key(a)
                                    <==> old(self).unlockings@.contains_key(a)))
                            &&& (forall|a: AccountId|
                                a != who && old(self).unlockings@.contains_key(a) ==> #[trigger]
                                    final(self).unlockings@[a] == old(self).unlockings@[a])
                            &&& final(self).liquid_issuance == old(self).liquid_issuance
                                - liquid_amount
                            &&& final(self).matching_pool.total_unstake_amount == old(
                                self,
                            ).matching_pool.total_unstake_amount + amount
                            &&& final(self).matching_pool.total_stake_amount == old(
                                self,
                            ).matching_pool.total_stake_amount
                            &&& same_but_users_pool_issuance(*old(self), *final(self))
                        }
                    },
                }
            }),
    {
        if liquid_amount < self.min_unstake {
            return Err(Error::UnstakeTooSmall);
        }
        let amount = match liquid_to_staking(self.exchange_rate, liquid_amount) {
            Option::None => {
                return Err(Error::InvalidExchangeRate);
            },
            Option::Some(v) => v,
        };
        let era_after_duration = match self.current_era.checked_add(self.bonding_duration) {
            Option::None => {
                return Err(Error::ArithmeticOverflow);
            },
            Option::Some(v) => v,
        };
        let target_era = match era_after_duration.checked_add(1) {
            Option::None => {
                return Err(Error::ArithmeticOverflow);
            },
            Option::Some(v) => v,
        };
        let current_len = match self.unlockings.get(&who) {
            Option::None => 0,
            Option::Some(chunks) => chunks.len(),
        };
        if current_len >= MAX_UNLOCKING_CHUNKS {
            return Err(Error::NoMoreChunks);
        }
        let new_issuance = match self.liquid_issuance.checked_sub(liquid_amount) {
            Option::None => {
                return Err(Error::ArithmeticUnderflow);
            },
            Option::Some(v) => v,
        };
        let new_unstake = match self.matching_pool.total_unstake_amount.checked_add(amount) {
            Option::None => {
                return Err(Error::ArithmeticOverflow);
            },
            Option::Some(v) => v,
        };
        let mut chunks = match self.unlockings.remove(&who) {
            Option::None => Vec::new(),
            Option::Some(existing) => existing,
        };
        chunks.push(UnlockChunk { value: amount, era: target_era });
        self.unlockings.insert(who, chunks);
        self.liquid_issuance = new_issuance;
        self.matching_pool.total_unstake_amount = new_unstake;
        Ok(amount)
    }

    /// Pays out every unlock chunk of `who` whose era has been reached,
    /// removing exactly those chunks from the queue.  Fails with
    /// `NothingToClaim` when no chunk is payable yet.  Returns the
    /// amount of the staking asset the caller must transfer to `who`.
    pub fn claim_for(&mut self, who: AccountId) -> (r: Result<Balance, Error>)
        requires
            old(self).wf(),
        ensures
            final(self).wf(),
            r is Err ==> *final(self) == *old(self),
            !old(self).unlockings@.contains_key(who) ==> r == Err::<Balance, Error>(
                Error::NothingToClaim,
            ),
            old(self).unlockings@.contains_key(who) ==> ({
                let queue = old(self).unlockings@[who]@;
                let era = old(self).current_era;
                let claimable = crate::ledger::claimable_sum(queue, era);
                if claimable > Balance::MAX {
                    r == Err::<Balance, Error>(Error::ArithmeticOverflow)
                } else if claimable == 0 {
                    r == Err::<Balance, Error>(Error::NothingToClaim)
                } else {
                    &&& r == Ok::<Balance, Error>(claimable as Balance)
                    &&& (if remaining_after(queue, era).len() == 0 {
                        !final(self).unlockings@.contains_key(who)
                    } else {
                        final(self).unlockings@.contains_key(who)
                            && final(self).unlockings@[who]@ == remaining_after(queue, era)
                    })
                    &&& (forall|a: AccountId|
                        a != who ==> (#[trigger] final(self).unlockings@.contains_key(a)
                            <==> old(self).unlockings@.contains_key(a)))
                    &&& (forall|a: AccountId|
                        a != who && old(self).unlockings@.contains_key(a)
                            ==> #[trigger] final(self).unlockings@[a] == old(self).unlockings@[a])
                    &&& same_but_users(*old(self), *final(self))
                }
            }),
    {
        let current_era = self.current_era;
        let (kept, paid) = match self.unlockings.get(&who) {
            Option::None => {
                return Err(Error::NothingToClaim);
            },
            Option::Some(chunks) => {
                match crate::ledger::take_claimable(chunks, current_era) {
                    Err(e) => {
                        return Err(e);
                    },
                    Ok(p) => p,
                }
            },
        };
        if paid == 0 {
            return Err(Error::NothingToClaim);
        }
        self.unlockings.remove(&who);
        if kept.len() > 0 {
            self.unlockings.insert(who, kept);
        }
        Ok(paid)
    }

    /// Derives the exchange rate the given active bonded amount implies,
    /// against the pool flow and issuance as they currently stand.
    pub(crate) fn compute_updated_rate(&self, bonding_amount: Balance) -> (r: Result<Rate, Error>)
        ensures
            r == updated_rate(
                self.liquid_issuance,
                self.exchange_rate,
                bonding_amount,
                self.matching_pool.total_stake_amount,
                self.matching_pool.total_unstake_amount,
            ),
    {
        if self.liquid_issuance == 0 {
            return Ok(self.exchange_rate);
        }
        let with_stake = match bonding_amount.checked_add(self.matching_pool.total_stake_amount) {
            Option::None => {
                return Err(Error::ArithmeticOverflow);
            },
            Option::Some(v) => v,
        };
        let effective = match with_stake.checked_sub(self.matching_pool.total_unstake_amount) {
            Option::None => {
                return Err(Error::ArithmeticUnderflow);
            },
            Option::Some(v) => v,
        };
        match crate::rate::rate_from_rational(effective, self.liquid_issuance) {
            Option::None => Err(Error::InvalidExchangeRate),
            Option::Some(new_rate) => Ok(new_rate),
        }
    }

    /// Feeds an externally observed staking ledger into the protocol:
    /// the exchange rate is recomputed from its active balance, and the
    /// stored ledger is replaced.  Fails with `NotBonded` before the
    /// first bond acknowledgement has created a ledger.
    pub fn update_staking_ledger(&mut self, staking_ledger: StakingLedger) -> (r: Result<
        (),
        Error,
    >)
        requires
            old(self).wf(),
            staking_ledger.wf(),
        ensures
            final(self).wf(),
            r is Err ==> *final(self) == *old(self),
            ({
                let derived = updated_rate(
                    old(self).liquid_issuance,
                    old(self).exchange_rate,
                    staking_ledger.active,
                    old(self).matching_pool.total_stake_amount,
                    old(self).matching_pool.total_unstake_amount,
                );
                match derived {
                    Result::Err(e) => r == Err::<(), Error>(e),
                    Result::Ok(new_rate) => {
                        if old(self).ledger is None {
                            r == Err::<(), Error>(Error::NotBonded)
                        } else {
                            r == Ok::<(), Error>(()) && *final(self) == (LiquidStaking {
                                exchange_rate: new_rate,
                                ledger: Option::Some(staking_ledger),
                                ..*old(self)
                            })
                        }
                    },
                }
            }),
    {
        let new_rate = match self.compute_updated_rate(staking_ledger.active) {
            Err(e) => {
                return Err(e);
            },
            Ok(v) => v,
        };
        if self.ledger.is_none() {
            return Err(Error::NotBonded);
        }
        self.exchange_rate = new_rate;
        self.ledger = Option::Some(staking_ledger);
        Ok(())
    }
}

/// The exchange rate after new bonding information arrives: the active
/// bonded amount plus pending stake inflow, net of pending unstake
/// outflow, divided by the derivative issuance.  The rate is held when
/// the issuance is zero; balance overflow, an outflow exceeding the
/// effective value, and a quotient too large for the fixed-point grid
/// are rejected.
pub open spec fn updated_rate(
    issuance: Balance,
    current: Rate,
    bonding_amount: Balance,
    stake: Balance,
    unstake: Balance,
) -> Result<Rate, Error> {
    if issuance == 0 {
        Ok(current)
    } else if bonding_amount + stake > Balance::MAX {
        Err(Error::ArithmeticOverflow)
    } else if bonding_amount + stake < unstake {
        Err(Error::ArithmeticUnderflow)
    } else {
        match crate::rate::rate_from_rational_spec(
            (bonding_amount + stake - unstake) as Balance,
            issuance,
        ) {
            Option::None => Err(Error::InvalidExchangeRate),
            Option::Some(new_rate) => Ok(new_rate),
        }
    }
}

/// Everything except the unlock queues agrees between the two states.
pub open spec fn same_but_users(a: LiquidStaking, b: LiquidStaking) -> bool {
    &&& b.exchange_rate == a.exchange_rate
    &&& b.reserve_factor == a.reserve_factor
    &&& b.total_reserves == a.total_reserves
    &&& b.matching_pool == a.matching_pool
    &&& b.market_cap == a.market_cap
    &&& b.xcm_requests@ == a.xcm_requests@
    &&& b.next_query_id == a.next_query_id
    &&& b.current_era == a.current_era
    &&& b.era_start_block == a.era_start_block
    &&& b.ledger == a.ledger
    &&& b.liquid_issuance == a.liquid_issuance
    &&& b.min_stake == a.min_stake
    &&& b.min_unstake == a.min_unstake
    &&& b.xcm_fees == a.xcm_fees
    &&& b.bonding_duration == a.bonding_duration
    &&& b.era_length == a.era_length
    &&& b.derivative_account == a.derivative_account
}

/// Staking a deposit and then immediately unstaking the derivative
/// units received leaves the matching pool's accumulators in balance,
/// up to the messaging fee and reserve skim taken at stake time:
/// `stake` adds the matched amount to the stake accumulator and mints
/// `liquid`, and `unstake(liquid)` adds the converted-back amount to
/// the unstake accumulator, which equals the matched amount at a rate
/// of exactly one and never exceeds it.
pub proof fn lemma_stake_unstake_round_trip(state: LiquidStaking, amount: Balance, liquid: Balance)
    requires
        state.wf(),
        amount >= state.xcm_fees,
        state.exchange_rate > 0,
        staking_to_liquid_spec(state.exchange_rate, state.stake_matched_of(amount) as Balance)
            == Some(liquid),
    ensures
        liquid_to_staking_spec(state.exchange_rate, liquid) is Some,
        liquid_to_staking_spec(state.exchange_rate, liquid)->0 <= state.stake_matched_of(amount),
        state.exchange_rate == RATE_ONE ==> liquid_to_staking_spec(state.exchange_rate, liquid)->0
            == state.stake_matched_of(amount),
{
    crate::rate::lemma_ratio_mul_floor_bounds(
        state.reserve_factor,
        (amount - state.xcm_fees) as Balance,
    );
    let matched = state.stake_matched_of(amount) as Balance;
    crate::rate::lemma_conversion_round_trip(state.exchange_rate, matched);
}

/// Everything outside the unlock queues, the matching pool and the
/// derivative issuance agrees between the two states.
pub open spec fn same_but_users_pool_issuance(a: LiquidStaking, b: LiquidStaking) -> bool {
    &&& b.exchange_rate == a.exchange_rate
    &&& b.reserve_factor == a.reserve_factor
    &&& b.total_reserves == a.total_reserves
    &&& b.market_cap == a.market_cap
    &&& b.xcm_requests@ == a.xcm_requests@
    &&& b.next_query_id == a.next_query_id
    &&& b.current_era == a.current_era
    &&& b.era_start_block == a.era_start_block
    &&& b.ledger == a.ledger
    &&& b.min_stake == a.min_stake
    &&& b.min_unstake == a.min_unstake
    &&& b.xcm_fees == a.xcm_fees
    &&& b.bonding_duration == a.bonding_duration
    &&& b.era_length == a.era_length
    &&& b.derivative_account == a.derivative_account
}

} // verus!
