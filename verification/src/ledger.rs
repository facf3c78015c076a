//! The staking ledger: bonded balances and their unlock schedule.
//!
//! One ledger records, for the protocol's remote derivative account, the
//! total bonded balance, the part of it that is still active, and an
//! ordered list of unbonding chunks, each waiting for a target era.  The
//! ledger invariant ties the three together: the total always equals the
//! active balance plus the value of all unbonding chunks.

use vstd::prelude::*;
use crate::errors::Error;
use crate::{AccountId, Balance, EraIndex};

verus! {

/// Upper bound on the number of unbonding chunks a ledger may hold.
pub const MAX_UNLOCKING_CHUNKS: usize = 32;

/// A balance that leaves the active stake at `unbond` time and becomes
/// withdrawable once the current era reaches `era`.
#[derive(Clone, Copy, Debug, PartialEq, Eq, Structural)]
pub struct UnlockChunk {
    /// Amount of the staking asset waiting to unlock.
    pub value: Balance,
    /// Era at which the amount becomes withdrawable.
    pub era: EraIndex,
}

/// Sum of the values of a sequence of unlock chunks.
pub open spec fn sum_chunks(s: Seq<UnlockChunk>) -> int
    decreases s.len(),
{
    if s.len() == 0 {
        0
    } else {
        sum_chunks(s.drop_last()) + s.last().value
    }
}

/// The chunks still locked after `era`: those with a later target era.
pub open spec fn remaining_after(s: Seq<UnlockChunk>, era: EraIndex) -> Seq<UnlockChunk> {
    s.filter(|c: UnlockChunk| c.era > era)
}

/// The unlocking list after scheduling `amount` for `target_era`: merged
/// into the newest chunk when that chunk already targets the same era,
/// appended as a fresh chunk otherwise.
pub open spec fn unbond_chunks(s: Seq<UnlockChunk>, amount: Balance, target_era: EraIndex) -> Seq<
    UnlockChunk,
> {
    if s.len() > 0 && s.last().era == target_era {
        s.update(
            s.len() - 1,
            UnlockChunk { value: (s.last().value + amount) as Balance, era: target_era },
        )
    } else {
        s.push(UnlockChunk { value: amount, era: target_era })
    }
}

/// Result of taking back up to `amount` from the unlocking list, newest
/// chunk first: the list that remains, and the amount actually taken.
pub open spec fn rebond_split(s: Seq<UnlockChunk>, amount: int) -> (Seq<UnlockChunk>, int)
    decreases s.len(),
{
    if s.len() == 0 || amount <= 0 {
        (s, 0)
    } else {
        let last = s.last();
        if last.value <= amount {
            let rec = rebond_split(s.drop_last(), amount - last.value);
            (rec.0, rec.1 + last.value)
        } else {
            (
                s.update(
                    s.len() - 1,
                    UnlockChunk { value: (last.value - amount) as Balance, era: last.era },
                ),
                amount,
            )
        }
    }
}

/// The sum of a chunk list is never negative.
pub proof fn lemma_sum_nonneg(s: Seq<UnlockChunk>)
    ensures
        sum_chunks(s) >= 0,
    decreases s.len(),
{
    if s.len() > 0 {
        lemma_sum_nonneg(s.drop_last());
    }
}

/// Appending a chunk adds its value to the sum.
pub proof fn lemma_sum_push(s: Seq<UnlockChunk>, c: UnlockChunk)
    ensures
        sum_chunks(s.push(c)) == sum_chunks(s) + c.value,
{
    assert(s.push(c).drop_last() =~= s);
}

/// Replacing the last chunk adjusts the sum by the difference in value.
pub proof fn lemma_sum_update_last(s: Seq<UnlockChunk>, c: UnlockChunk)
    requires
        s.len() > 0,
    ensures
        sum_chunks(s.update(s.len() - 1, c)) == sum_chunks(s) - s.last().value + c.value,
{
    let t = s.update(s.len() - 1, c);
    assert(t.drop_last() =~= s.drop_last());
    assert(t.last() == c);
}

/// A prefix of a chunk list never sums to more than the whole list.
pub proof fn lemma_sum_prefix_le(s: Seq<UnlockChunk>, i: int)
    requires
        0 <= i <= s.len(),
    ensures
        sum_chunks(s.subrange(0, i)) <= sum_chunks(s),
    decreases s.len(),
{
    if i == s.len() {
        assert(s.subrange(0, i) =~= s);
    } else {
        assert(s.subrange(0, i) =~= s.drop_last().subrange(0, i));
        lemma_sum_prefix_le(s.drop_last(), i);
    }
}

/// Taking one more element into a prefix adds that element's value.
pub proof fn lemma_sum_prefix_step(s: Seq<UnlockChunk>, i: int)
    requires
        0 <= i < s.len(),
    ensures
        sum_chunks(s.subrange(0, i + 1)) == sum_chunks(s.subrange(0, i)) + s[i].value,
{
    assert(s.subrange(0, i + 1) =~= s.subrange(0, i).push(s[i]));
    lemma_sum_push(s.subrange(0, i), s[i]);
}

/// Extending a list by one chunk keeps that chunk past the filter
/// exactly when its era lies after the cutoff.
pub proof fn lemma_remaining_after_push(s: Seq<UnlockChunk>, c: UnlockChunk, era: EraIndex)
    ensures
        remaining_after(s.push(c), era) == if c.era > era {
            remaining_after(s, era).push(c)
        } else {
            remaining_after(s, era)
        },
{
    reveal(Seq::filter);
    assert(s.push(c).drop_last() =~= s);
}

/// The value claimable from a queue at `era`: everything except what
/// must remain locked.
pub open spec fn claimable_sum(s: Seq<UnlockChunk>, era: EraIndex) -> int {
    sum_chunks(s) - sum_chunks(remaining_after(s, era))
}

/// The still-locked part of a queue is no longer and no more valuable
/// than the queue itself, and claiming the rest never pays a negative
/// amount.
pub proof fn lemma_remaining_bounds(s: Seq<UnlockChunk>, era: EraIndex)
    ensures
        remaining_after(s, era).len() <= s.len(),
        0 <= sum_chunks(remaining_after(s, era)) <= sum_chunks(s),
        0 <= claimable_sum(s, era),
    decreases s.len(),
{
    reveal(Seq::filter);
    lemma_sum_nonneg(s);
    lemma_sum_nonneg(remaining_after(s, era));
    if s.len() > 0 {
        lemma_remaining_bounds(s.drop_last(), era);
        let kept = remaining_after(s.drop_last(), era);
        if s.last().era > era {
            lemma_sum_push(kept, s.last());
        }
    }
}

/// Taking one more chunk into a prefix adds its value to the claimable
/// sum when its era has been reached, and nothing otherwise.
pub proof fn lemma_claimable_step(s: Seq<UnlockChunk>, i: int, era: EraIndex)
    requires
        0 <= i < s.len(),
    ensures
        claimable_sum(s.subrange(0, i + 1), era) == claimable_sum(s.subrange(0, i), era) + (
        if s[i].era <= era {
            s[i].value as int
        } else {
            0
        }),
{
    lemma_sum_prefix_step(s, i);
    assert(s.subrange(0, i + 1) =~= s.subrange(0, i).push(s[i]));
    lemma_remaining_after_push(s.subrange(0, i), s[i], era);
    if s[i].era > era {
        lemma_sum_push(remaining_after(s.subrange(0, i), era), s[i]);
    }
}

/// The claimable sum of a prefix never exceeds that of the whole queue.
pub proof fn lemma_claimable_prefix_le(s: Seq<UnlockChunk>, i: int, era: EraIndex)
    requires
        0 <= i <= s.len(),
    ensures
        claimable_sum(s.subrange(0, i), era) <= claimable_sum(s, era),
    decreases s.len() - i,
{
    if i == s.len() {
        assert(s.subrange(0, i) =~= s);
    } else {
        lemma_claimable_step(s, i, era);
        lemma_claimable_prefix_le(s, i + 1, era);
    }
}

/// Splits a queue at `current_era`: the chunks that must stay locked,
/// and the total value of those whose era has been reached.  Rejects a
/// queue whose claimable value does not fit into a balance.
pub fn take_claimable(chunks: &Vec<UnlockChunk>, current_era: EraIndex) -> (r: Result<
    (Vec<UnlockChunk>, Balance),
    Error,
>)
    ensures
        (r is Ok <==> claimable_sum(chunks@, current_era) <= Balance::MAX),
        r is Err ==> r == Err::<(Vec<UnlockChunk>, Balance), Error>(Error::ArithmeticOverflow),
        r matches Ok(p) ==> {
            &&& p.0@ == remaining_after(chunks@, current_era)
            &&& p.1 == claimable_sum(chunks@, current_era)
            &&& p.0@.len() <= chunks@.len()
        },
{
    let ghost all = chunks@;
    let mut kept: Vec<UnlockChunk> = Vec::new();
    let mut paid: Balance = 0;
    let n = chunks.len();
    let mut i: usize = 0;
    while i < n
        invariant
            0 <= i <= n,
            n == all.len(),
            chunks@ == all,
            kept@ == remaining_after(all.subrange(0, i as int), current_era),
            kept@.len() <= i,
            paid == claimable_sum(all.subrange(0, i as int), current_era),
        decreases n - i,
    {
        let c = chunks[i];
        proof {
            lemma_claimable_step(all, i as int, current_era);
            lemma_claimable_prefix_le(all, i + 1, current_era);
            lemma_remaining_after_push(all.subrange(0, i as int), c, current_era);
            assert(all.subrange(0, i + 1) =~= all.subrange(0, i as int).push(c));
        }
        if c.era > current_era {
            kept.push(c);
        } else {
            match paid.checked_add(c.value) {
                Option::None => {
                    return Err(Error::ArithmeticOverflow);
                },
                Option::Some(next) => {
                    paid = next;
                },
            }
        }
        i = i + 1;
    }
    proof {
        assert(all.subrange(0, n as int) =~= all);
        lemma_remaining_bounds(all, current_era);
    }
    Ok((kept, paid))
}

/// What the newest-first take-back of `rebond_split` guarantees: the
/// amount taken is as much as asked for, capped by what is unlocking,
/// and the remaining list sums to the rest.
pub proof fn lemma_rebond_split(s: Seq<UnlockChunk>, amount: int)
    requires
        amount >= 0,
    ensures
        rebond_split(s, amount).1 == vstd::math::min(amount, sum_chunks(s)),
        sum_chunks(rebond_split(s, amount).0) == sum_chunks(s) - rebond_split(s, amount).1,
        rebond_split(s, amount).0.len() <= s.len(),
    decreases s.len(),
{
    lemma_sum_nonneg(s);
    if s.len() == 0 || amount <= 0 {
    } else {
        let last = s.last();
        if last.value <= amount {
            lemma_rebond_split(s.drop_last(), amount - last.value);
            lemma_sum_nonneg(s.drop_last());
        } else {
            let c = UnlockChunk { value: (last.value - amount) as Balance, era: last.era };
            lemma_sum_update_last(s, c);
            lemma_sum_nonneg(s.update(s.len() - 1, c));
        }
    }
}

/// Per-derivative-account record of bonded funds on the remote ledger.
/// Mutated only when a confirmed remote effect is applied.
///
/// Chunks arrive in increasing era order because target eras are always
/// derived from the ever-advancing current era; the ledger itself does
/// not order them, it only merges a repeat of the newest era.
#[derive(Clone, Debug, PartialEq, Eq)]
pub struct StakingLedger {
    /// The remote account holding the stake.
    pub stash: AccountId,
    /// Total balance of the stash: active plus unbonding.
    pub total: Balance,
    /// Portion of the total that is actively staked.
    pub active: Balance,
    /// Balances on their way out of the stake, oldest first.
    pub unlocking: Vec<UnlockChunk>,
    /// Eras whose staking rewards have already been collected.
    pub claimed_rewards: Vec<EraIndex>,
}

impl StakingLedger {
    /// The ledger invariant: the total is the active balance plus all
    /// unbonding value, and the chunk list is within capacity.
    pub open spec fn wf(self) -> bool {
        &&& self.total == self.active + sum_chunks(self.unlocking@)
        &&& self.unlocking@.len() <= MAX_UNLOCKING_CHUNKS
    }

    /// A fresh ledger: everything bonded is active.
    pub fn new(stash: AccountId, amount: Balance) -> (r: StakingLedger)
        ensures
            r.wf(),
            r.stash == stash,
            r.total == amount,
            r.active == amount,
            r.unlocking@.len() == 0,
            r.claimed_rewards@.len() == 0,
    {
        StakingLedger {
            stash,
            total: amount,
            active: amount,
            unlocking: Vec::new(),
            claimed_rewards: Vec::new(),
        }
    }

    /// Adds newly bonded funds to both the total and the active balance.
    /// Rejects the addition when the total would overflow, leaving the
    /// ledger unchanged.
    pub fn bond_extra(&mut self, amount: Balance) -> (r: Result<(), Error>)
        requires
            old(self).wf(),
        ensures
            final(self).wf(),
            (r is Ok <==> old(self).total + amount <= Balance::MAX),
            r is Err ==> *final(self) == *old(self) && r == Err::<(), Error>(
                Error::ArithmeticOverflow,
            ),
            r is Ok ==> *final(self) == (StakingLedger {
                total: (old(self).total + amount) as Balance,
                active: (old(self).active + amount) as Balance,
                ..*old(self)
            }),
    {
        proof {
            lemma_sum_nonneg(self.unlocking@);
        }
        match self.total.checked_add(amount) {
            None => Err(Error::ArithmeticOverflow),
            Some(new_total) => {
                self.total = new_total;
                self.active = self.active + amount;
                Ok(())
            },
        }
    }

    /// Schedules `amount` of the active balance to unlock at
    /// `target_era`.  Fails when the chunk list is already at capacity
    /// (`NoMoreChunks`) or when the amount exceeds the active balance
    /// (`ArithmeticUnderflow`); a failed call leaves the ledger
    /// unchanged.
    pub fn unbond(&mut self, amount: Balance, target_era: EraIndex) -> (r: Result<(), Error>)
        requires
            old(self).wf(),
        ensures
            final(self).wf(),
            r is Err ==> *final(self) == *old(self),
            r == Err::<(), Error>(Error::NoMoreChunks) <==> old(
                self,
            ).unlocking@.len() >= MAX_UNLOCKING_CHUNKS,
            r is Ok <==> old(self).unlocking@.len() < MAX_UNLOCKING_CHUNKS && amount <= old(
                self,
            ).active,
            r is Err ==> r == Err::<(), Error>(Error::NoMoreChunks) || r == Err::<(), Error>(
                Error::ArithmeticUnderflow,
            ),
            r is Ok ==> {
                &&& final(self).active == old(self).active - amount
                &&& final(self).total == old(self).total
                &&& final(self).unlocking@ == unbond_chunks(
                    old(self).unlocking@,
                    amount,
                    target_era,
                )
                &&& final(self).stash == old(self).stash
                &&& final(self).claimed_rewards == old(self).claimed_rewards
            },
    {
        if self.unlocking.len() >= MAX_UNLOCKING_CHUNKS {
            return Err(Error::NoMoreChunks);
        }
        if amount > self.active {
            return Err(Error::ArithmeticUnderflow);
        }
        proof {
            lemma_sum_nonneg(self.unlocking@);
        }
        let n = self.unlocking.len();
        if n > 0 && self.unlocking[n - 1].era == target_era {
            let last = self.unlocking[n - 1];
            proof {
                lemma_sum_nonneg(self.unlocking@.drop_last());
                assert(sum_chunks(self.unlocking@) == sum_chunks(self.unlocking@.drop_last())
                    + last.value);
            }
            let merged = UnlockChunk { value: last.value + amount, era: target_era };
            self.unlocking.set(n - 1, merged);
            proof {
                lemma_sum_update_last(old(self).unlocking@, merged);
            }
        } else {
            self.unlocking.push(UnlockChunk { value: amount, era: target_era });
            proof {
                lemma_sum_push(old(self).unlocking@, UnlockChunk { value: amount, era: target_era });
            }
        }
        self.active = self.active - amount;
        Ok(())
    }

    /// Moves up to `amount` back from the unlocking list into the active
    /// balance, consuming the newest chunks first.  Returns the amount
    /// actually moved, which is capped by the total unlocking value.
    pub fn rebond(&mut self, amount: Balance) -> (moved: Balance)
        requires
            old(self).wf(),
        ensures
            final(self).wf(),
            moved == vstd::math::min(amount as int, sum_chunks(old(self).unlocking@)),
            final(self).unlocking@ == rebond_split(old(self).unlocking@, amount as int).0,
            final(self).active == old(self).active + moved,
            final(self).total == old(self).total,
            final(self).stash == old(self).stash,
            final(self).claimed_rewards == old(self).claimed_rewards,
    {
        let ghost orig = self.unlocking@;
        let ghost orig_total = self.total;
        let ghost orig_active = self.active;
        let ghost orig_stash = self.stash;
        let ghost orig_claimed = self.claimed_rewards;
        proof {
            lemma_rebond_split(orig, amount as int);
            lemma_sum_nonneg(orig);
        }
        let mut moved: Balance = 0;
        loop
            invariant
                moved <= amount,
                self.total == orig_total,
                self.active == orig_active,
                self.stash == orig_stash,
                self.claimed_rewards == orig_claimed,
                orig_total == orig_active + sum_chunks(orig),
                self.unlocking@.len() <= orig.len(),
                orig.len() <= MAX_UNLOCKING_CHUNKS,
                sum_chunks(self.unlocking@) == sum_chunks(orig) - moved,
                rebond_split(orig, amount as int).0 == rebond_split(
                    self.unlocking@,
                    amount - moved,
                ).0,
                rebond_split(orig, amount as int).1 == moved + rebond_split(
                    self.unlocking@,
                    amount - moved,
                ).1,
            ensures
                moved == rebond_split(orig, amount as int).1,
                self.unlocking@ == rebond_split(orig, amount as int).0,
                self.total == orig_total,
                self.active == orig_active,
                self.stash == orig_stash,
                self.claimed_rewards == orig_claimed,
                sum_chunks(self.unlocking@) == sum_chunks(orig) - moved,
                self.unlocking@.len() <= orig.len(),
            decreases self.unlocking.len(),
        {
            proof {
                lemma_rebond_split(self.unlocking@, amount - moved);
                lemma_sum_nonneg(self.unlocking@);
            }
            if moved >= amount {
                break;
            }
            let n = self.unlocking.len();
            if n == 0 {
                break;
            }
            let ghost before = self.unlocking@;
            let last = self.unlocking[n - 1];
            let remaining = amount - moved;
            proof {
                lemma_sum_nonneg(before.drop_last());
                assert(sum_chunks(before) == sum_chunks(before.drop_last()) + last.value);
            }
            if last.value <= remaining {
                self.unlocking.pop();
                proof {
                    assert(self.unlocking@ =~= before.drop_last());
                }
                moved = moved + last.value;
            } else {
                let shrunk = UnlockChunk { value: last.value - remaining, era: last.era };
                self.unlocking.set(n - 1, shrunk);
                proof {
                    lemma_sum_update_last(before, shrunk);
                }
                moved = amount;
                break;
            }
        }
        proof {
            lemma_rebond_split(orig, amount as int);
        }
        self.active = self.active + moved;
        moved
    }

    /// Removes every chunk whose era has been reached and subtracts the
    /// freed value from the total, returning it.  The freed funds are no
    /// longer part of the remote stake and can be withdrawn.
    pub fn consolidate_unlocked(&mut self, current_era: EraIndex) -> (freed: Balance)
        requires
            old(self).wf(),
        ensures
            final(self).wf(),
            final(self).unlocking@ == remaining_after(old(self).unlocking@, current_era),
            freed == sum_chunks(old(self).unlocking@) - sum_chunks(final(self).unlocking@),
            final(self).total == old(self).total - freed,
            final(self).active == old(self).active,
            final(self).stash == old(self).stash,
            final(self).claimed_rewards == old(self).claimed_rewards,
    {
        let ghost orig = self.unlocking@;
        let ghost orig_total = self.total;
        let ghost orig_active = self.active;
        let mut kept: Vec<UnlockChunk> = Vec::new();
        let mut freed: Balance = 0;
        let n = self.unlocking.len();
        let mut i: usize = 0;
        while i < n
            invariant
                0 <= i <= n,
                n == self.unlocking@.len(),
                self.unlocking@ == orig,
                self.total == orig_total,
                self.active == orig_active,
                orig_total == orig_active + sum_chunks(orig),
                kept@ == remaining_after(orig.subrange(0, i as int), current_era),
                freed == sum_chunks(orig.subrange(0, i as int)) - sum_chunks(kept@),
                sum_chunks(kept@) >= 0,
                kept@.len() <= i,
            decreases n - i,
        {
            let c = self.unlocking[i];
            proof {
                lemma_sum_prefix_step(orig, i as int);
                lemma_sum_prefix_le(orig, i + 1);
                lemma_sum_nonneg(orig.subrange(0, i as int));
                lemma_remaining_after_push(orig.subrange(0, i as int), c, current_era);
                assert(orig.subrange(0, i + 1) =~= orig.subrange(0, i as int).push(c));
            }
            if c.era > current_era {
                let ghost kept_before = kept@;
                kept.push(c);
                proof {
                    lemma_sum_push(kept_before, c);
                }
            } else {
                freed = freed + c.value;
            }
            proof {
                lemma_sum_nonneg(kept@);
            }
            i = i + 1;
        }
        proof {
            assert(orig.subrange(0, n as int) =~= orig);
            lemma_sum_nonneg(kept@);
        }
        self.total = self.total - freed;
        self.unlocking = kept;
        freed
    }

    /// Tests the ledger invariant at run time, for callers outside the
    /// verified boundary that receive a ledger from elsewhere.
    pub fn check_well_formed(&self) -> (r: bool)
        ensures
            r == self.wf(),
    {
        if self.unlocking.len() > MAX_UNLOCKING_CHUNKS {
            return false;
        }
        let mut acc: Balance = 0;
        let n = self.unlocking.len();
        let mut i: usize = 0;
        while i < n
            invariant
                0 <= i <= n,
                n == self.unlocking@.len(),
                self.unlocking@.len() <= MAX_UNLOCKING_CHUNKS,
                acc == sum_chunks(self.unlocking@.subrange(0, i as int)),
            decreases n - i,
        {
            let c = self.unlocking[i];
            proof {
                lemma_sum_prefix_step(self.unlocking@, i as int);
                lemma_sum_prefix_le(self.unlocking@, i + 1);
            }
            match acc.checked_add(c.value) {
                None => {
                    return false;
                },
                Some(next) => {
                    acc = next;
                },
            }
            i = i + 1;
        }
        proof {
            assert(self.unlocking@.subrange(0, n as int) =~= self.unlocking@);
        }
        match self.active.checked_add(acc) {
            None => false,
            Some(expected) => self.total == expected,
        }
    }
}

} // verus!
