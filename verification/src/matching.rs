//! The matching pool: per-era netting of stake against unstake flow.
//!
//! User stake and unstake calls only accumulate here during an era.  At
//! the era boundary the accumulated flow, together with any unbonded
//! funds freed by the remote ledger, is netted into at most one bond,
//! one rebond and one unbond instruction; the accumulators are drawn
//! down again as each instruction is acknowledged.

use vstd::prelude::*;
use crate::errors::Error;
use crate::Balance;

verus! {

/// Direction of an accumulator update.
#[derive(Clone, Copy, Debug, PartialEq, Eq, Structural)]
pub enum ArithmeticKind {
    /// Add to the accumulator (a user intent was recorded).
    Addition,
    /// Subtract from the accumulator (a remote effect was confirmed).
    Subtraction,
}

/// Net stake and unstake flow accumulated in the current era.
#[derive(Clone, Copy, Debug, PartialEq, Eq, Structural)]
pub struct MatchingLedger {
    /// Staking-asset inflow not yet bonded remotely.
    pub total_stake_amount: Balance,
    /// Staking-asset outflow not yet unbonded remotely.
    pub total_unstake_amount: Balance,
}

/// The instructions `matching` derives for one era: how much to newly
/// bond, how much to pull back from unbonding funds, and how much to
/// newly unbond.
pub open spec fn matching_result(
    stake: Balance,
    unstake: Balance,
    unbonding_amount: Balance,
) -> (int, int, int) {
    if stake >= unstake {
        (stake - unstake, 0int, 0int)
    } else {
        let deficit = unstake - stake;
        let rebond = vstd::math::min(deficit, unbonding_amount as int);
        (0int, rebond, deficit - rebond)
    }
}

impl MatchingLedger {
    /// An empty pool, as at the start of an era.
    pub fn new() -> (r: MatchingLedger)
        ensures
            r.total_stake_amount == 0,
            r.total_unstake_amount == 0,
    {
        MatchingLedger { total_stake_amount: 0, total_unstake_amount: 0 }
    }

    /// Moves the stake accumulator by `amount` in the given direction,
    /// rejecting overflow and underflow without any change.
    pub fn update_total_stake_amount(&mut self, amount: Balance, kind: ArithmeticKind) -> (r:
        Result<(), Error>)
        ensures
            final(self).total_unstake_amount == old(self).total_unstake_amount,
            r is Err ==> *final(self) == *old(self),
            kind == ArithmeticKind::Addition ==> {
                &&& (r is Ok <==> old(self).total_stake_amount + amount <= Balance::MAX)
                &&& (r is Err ==> r == Err::<(), Error>(Error::ArithmeticOverflow))
                &&& (r is Ok ==> final(self).total_stake_amount == old(self).total_stake_amount
                    + amount)
            },
            kind == ArithmeticKind::Subtraction ==> {
                &&& (r is Ok <==> amount <= old(self).total_stake_amount)
                &&& (r is Err ==> r == Err::<(), Error>(Error::ArithmeticUnderflow))
                &&& (r is Ok ==> final(self).total_stake_amount == old(self).total_stake_amount
                    - amount)
            },
    {
        match kind {
            ArithmeticKind::Addition => {
                match self.total_stake_amount.checked_add(amount) {
                    None => Err(Error::ArithmeticOverflow),
                    Some(v) => {
                        self.total_stake_amount = v;
                        Ok(())
                    },
                }
            },
            ArithmeticKind::Subtraction => {
                match self.total_stake_amount.checked_sub(amount) {
                    None => Err(Error::ArithmeticUnderflow),
                    Some(v) => {
                        self.total_stake_amount = v;
                        Ok(())
                    },
                }
            },
        }
    }

    /// Moves the unstake accumulator by `amount` in the given direction,
    /// rejecting overflow and underflow without any change.
    pub fn update_total_unstake_amount(&mut self, amount: Balance, kind: ArithmeticKind) -> (r:
        Result<(), Error>)
        ensures
            final(self).total_stake_amount == old(self).total_stake_amount,
            r is Err ==> *final(self) == *old(self),
            kind == ArithmeticKind::Addition ==> {
                &&& (r is Ok <==> old(self).total_unstake_amount + amount <= Balance::MAX)
                &&& (r is Err ==> r == Err::<(), Error>(Error::ArithmeticOverflow))
                &&& (r is Ok ==> final(self).total_unstake_amount == old(self).total_unstake_amount
                    + amount)
            },
            kind == ArithmeticKind::Subtraction ==> {
                &&& (r is Ok <==> amount <= old(self).total_unstake_amount)
                &&& (r is Err ==> r == Err::<(), Error>(Error::ArithmeticUnderflow))
                &&& (r is Ok ==> final(self).total_unstake_amount == old(self).total_unstake_amount
                    - amount)
            },
    {
        match kind {
            ArithmeticKind::Addition => {
                match self.total_unstake_amount.checked_add(amount) {
                    None => Err(Error::ArithmeticOverflow),
                    Some(v) => {
                        self.total_unstake_amount = v;
                        Ok(())
                    },
                }
            },
            ArithmeticKind::Subtraction => {
                match self.total_unstake_amount.checked_sub(amount) {
                    None => Err(Error::ArithmeticUnderflow),
                    Some(v) => {
                        self.total_unstake_amount = v;
                        Ok(())
                    },
                }
            },
        }
    }

    /// Nets the accumulated flow against `unbonding_amount`, the funds a
    /// prior era has already freed from the active stake.  A net inflow
    /// becomes a bond; a net outflow is funded first by rebonding
    /// already-unbonding funds and only for the rest by a fresh unbond.
    /// The rebond share never exceeds `unbonding_amount`, and a nonzero
    /// bond excludes any rebond or unbond.
    pub fn matching(&self, unbonding_amount: Balance) -> (r: (Balance, Balance, Balance))
        ensures
            (r.0 as int, r.1 as int, r.2 as int) == matching_result(
                self.total_stake_amount,
                self.total_unstake_amount,
                unbonding_amount,
            ),
            r.1 <= unbonding_amount,
            r.0 > 0 ==> r.1 == 0 && r.2 == 0,
            r.1 > 0 || r.2 > 0 ==> r.0 == 0,
    {
        if self.total_stake_amount >= self.total_unstake_amount {
            (self.total_stake_amount - self.total_unstake_amount, 0, 0)
        } else {
            let deficit = self.total_unstake_amount - self.total_stake_amount;
            let rebond = if deficit <= unbonding_amount {
                deficit
            } else {
                unbonding_amount
            };
            (0, rebond, deficit - rebond)
        }
    }
}

/// Netting never asks for funds in both directions at once: whenever the
/// freed unbonded funds either vanish or cover the whole deficit, the
/// rebond and unbond instructions cannot both be nonzero, and a nonzero
/// bond always excludes an unbond.  (With partial cover, the deficit is
/// deliberately split between the two.)
pub proof fn lemma_matching_directions(stake: Balance, unstake: Balance, unbonding_amount: Balance)
    requires
        unbonding_amount == 0 || stake + unbonding_amount >= unstake,
    ensures
        !(matching_result(stake, unstake, unbonding_amount).1 != 0 && matching_result(
            stake,
            unstake,
            unbonding_amount,
        ).2 != 0),
        matching_result(stake, unstake, unbonding_amount).0 > 0 ==> matching_result(
            stake,
            unstake,
            unbonding_amount,
        ).2 == 0,
{
}

} // verus!
