//! The era clock and the once-per-era netting round.
//!
//! Every local block, the protocol derives an era offset from the remote
//! block height.  When at least one era has passed, the era advances and
//! one netting round runs: already-freed unbonded funds are withdrawn,
//! and the matching pool's accumulated flow is turned into bond, unbond
//! and rebond requests.  Submitting a request only records it under a
//! fresh query identifier; the ledger moves when the acknowledgement
//! arrives.  When any step of the round cannot proceed, the whole round
//! is skipped and retried at the next block.

use vstd::prelude::*;
use crate::errors::Error;
use crate::ledger::MAX_UNLOCKING_CHUNKS;
use crate::matching::matching_result;
use crate::protocol::{LiquidStaking, XcmRequest};
use crate::{AccountId, Balance, BlockNumber, EraIndex, QueryId};

verus! {

broadcast use vstd::std_specs::hash::group_hash_axioms;

/// Eras elapsed since the era start block: the integer quotient of the
/// height gained over the era length.  A height before the era start, an
/// unset era length, and a quotient beyond the era-index range all count
/// as no elapsed era.
pub open spec fn era_offset_spec(
    era_start_block: BlockNumber,
    era_length: BlockNumber,
    height: BlockNumber,
) -> EraIndex {
    if height < era_start_block || era_length == 0 {
        0
    } else if (height - era_start_block) / (era_length as int) > EraIndex::MAX {
        0
    } else {
        ((height - era_start_block) / (era_length as int)) as EraIndex
    }
}

/// Everything except the request tracker and the identifier counter
/// agrees between the two states.
pub open spec fn same_but_requests(a: LiquidStaking, b: LiquidStaking) -> bool {
    &&& b.exchange_rate == a.exchange_rate
    &&& b.reserve_factor == a.reserve_factor
    &&& b.total_reserves == a.total_reserves
    &&& b.matching_pool == a.matching_pool
    &&& b.market_cap == a.market_cap
    &&& b.current_era == a.current_era
    &&& b.era_start_block == a.era_start_block
    &&& b.unlockings@ == a.unlockings@
    &&& b.ledger == a.ledger
    &&& b.liquid_issuance == a.liquid_issuance
    &&& b.min_stake == a.min_stake
    &&& b.min_unstake == a.min_unstake
    &&& b.xcm_fees == a.xcm_fees
    &&& b.bonding_duration == a.bonding_duration
    &&& b.era_length == a.era_length
    &&& b.derivative_account == a.derivative_account
}

/// Pairs each request of `list` with a fresh identifier counted up from
/// `next`.
pub open spec fn with_ids(next: QueryId, list: Seq<XcmRequest>) -> Seq<(QueryId, XcmRequest)> {
    Seq::new(list.len(), |i: int| ((next + i) as QueryId, list[i]))
}

impl LiquidStaking {
    /// The value still unbonding on the remote ledger: total less
    /// active, zero before the first bond.
    pub open spec fn unbonding_amount_of(self) -> int {
        if self.ledger is Some {
            self.ledger->0.total - self.ledger->0.active
        } else {
            0
        }
    }

    /// The requests one netting round submits, in submission order:
    /// a withdrawal when something is unbonding, then the netted bond
    /// (a first bond or a bond-extra), unbond and rebond amounts, each
    /// only when nonzero.
    pub open spec fn era_request_list(self) -> Seq<XcmRequest> {
        let unbonding = self.unbonding_amount_of() as Balance;
        let m = matching_result(
            self.matching_pool.total_stake_amount,
            self.matching_pool.total_unstake_amount,
            unbonding,
        );
        let s0: Seq<XcmRequest> = if unbonding != 0 {
            seq![XcmRequest::WithdrawUnbonded { num_slashing_spans: 0 }]
        } else {
            Seq::empty()
        };
        let s1: Seq<XcmRequest> = if m.0 > 0 {
            if self.ledger is None {
                s0.push(XcmRequest::Bond { amount: m.0 as Balance })
            } else {
                s0.push(XcmRequest::BondExtra { amount: m.0 as Balance })
            }
        } else {
            s0
        };
        let s2: Seq<XcmRequest> = if m.2 > 0 {
            s1.push(XcmRequest::Unbond { amount: m.2 as Balance })
        } else {
            s1
        };
        if m.1 > 0 {
            s2.push(XcmRequest::Rebond { amount: m.1 as Balance })
        } else {
            s2
        }
    }

    /// Whether the netting round cannot run in this state: a fresh
    /// unbond is needed but no ledger exists or its chunk list is full,
    /// or the identifier space cannot accommodate a full round.
    pub open spec fn era_advance_blocked(self) -> bool {
        let unbonding = self.unbonding_amount_of() as Balance;
        let m = matching_result(
            self.matching_pool.total_stake_amount,
            self.matching_pool.total_unstake_amount,
            unbonding,
        );
        ||| (m.2 > 0 && (self.ledger is None || self.ledger->0.unlocking@.len()
            >= MAX_UNLOCKING_CHUNKS))
        ||| self.next_query_id > QueryId::MAX - 4
    }

    /// The effect of one successful era advance by `offset` at remote
    /// height `height`: the era moves forward, the era start block is
    /// reset, the round's requests are tracked under consecutive fresh
    /// identifiers and returned, and nothing else changes.
    pub open spec fn era_advance_transition(
        pre: LiquidStaking,
        post: LiquidStaking,
        requests: Seq<(QueryId, XcmRequest)>,
        offset: EraIndex,
        height: BlockNumber,
    ) -> bool {
        let list = pre.era_request_list();
        &&& post.current_era == (if pre.current_era + offset > EraIndex::MAX {
            EraIndex::MAX as int
        } else {
            pre.current_era + offset
        })
        &&& post.era_start_block == height
        &&& post.next_query_id == pre.next_query_id + list.len()
        &&& requests == with_ids(pre.next_query_id, list)
        &&& (forall|q: QueryId| #[trigger]
            pre.xcm_requests@.contains_key(q) ==> post.xcm_requests@.contains_key(q)
                && post.xcm_requests@[q] == pre.xcm_requests@[q])
        &&& (forall|q: QueryId| #[trigger]
            post.xcm_requests@.contains_key(q) ==> pre.xcm_requests@.contains_key(q) || (
            pre.next_query_id <= q < pre.next_query_id + list.len()))
        &&& (forall|i: int|
            0 <= i < list.len() ==> post.xcm_requests@.contains_key(
                (pre.next_query_id + i) as QueryId,
            ) && post.xcm_requests@[#[trigger] ((pre.next_query_id + i) as QueryId)] == list[i])
        &&& post.exchange_rate == pre.exchange_rate
        &&& post.reserve_factor == pre.reserve_factor
        &&& post.total_reserves == pre.total_reserves
        &&& post.matching_pool == pre.matching_pool
        &&& post.market_cap == pre.market_cap
        &&& post.unlockings@ == pre.unlockings@
        &&& post.ledger == pre.ledger
        &&& post.liquid_issuance == pre.liquid_issuance
        &&& post.min_stake == pre.min_stake
        &&& post.min_unstake == pre.min_unstake
        &&& post.xcm_fees == pre.xcm_fees
        &&& post.bonding_duration == pre.bonding_duration
        &&& post.era_length == pre.era_length
        &&& post.derivative_account == pre.derivative_account
    }

    /// Records a request under the next free query identifier and
    /// returns that identifier.  The caller submits the remote message.
    fn submit_request(&mut self, request: XcmRequest) -> (r: Result<QueryId, Error>)
        requires
            old(self).wf(),
        ensures
            final(self).wf(),
            r is Err ==> *final(self) == *old(self) && r == Err::<QueryId, Error>(
                Error::ArithmeticOverflow,
            ),
            (r is Ok <==> old(self).next_query_id < QueryId::MAX),
            r matches Ok(id) ==> {
                &&& id == old(self).next_query_id
                &&& final(self).next_query_id == old(self).next_query_id + 1
                &&& final(self).xcm_requests@ == old(self).xcm_requests@.insert(id, request)
                &&& same_but_requests(*old(self), *final(self))
            },
    {
        let id = self.next_query_id;
        let next = match id.checked_add(1) {
            Option::None => {
                return Err(Error::ArithmeticOverflow);
            },
            Option::Some(v) => v,
        };
        self.xcm_requests.insert(id, request);
        self.next_query_id = next;
        Ok(id)
    }

    /// Submits the first bond of the derivative account.  A zero amount
    /// submits nothing; an existing ledger rejects the call.
    pub fn bond(&mut self, amount: Balance) -> (r: Result<Option<QueryId>, Error>)
        requires
            old(self).wf(),
        ensures
            final(self).wf(),
            r is Err ==> *final(self) == *old(self),
            amount == 0 ==> r == Ok::<Option<QueryId>, Error>(Option::None) && *final(self)
                == *old(self),
            amount != 0 && old(self).ledger is Some ==> r == Err::<Option<QueryId>, Error>(
                Error::AlreadyBonded,
            ),
            amount != 0 && old(self).ledger is None && old(self).next_query_id == QueryId::MAX
                ==> r == Err::<Option<QueryId>, Error>(Error::ArithmeticOverflow),
            amount != 0 && old(self).ledger is None && old(self).next_query_id < QueryId::MAX
                ==> {
                &&& r == Ok::<Option<QueryId>, Error>(Option::Some(old(self).next_query_id))
                &&& final(self).xcm_requests@ == old(self).xcm_requests@.insert(
                    old(self).next_query_id,
                    XcmRequest::Bond { amount },
                )
                &&& final(self).next_query_id == old(self).next_query_id + 1
                &&& same_but_requests(*old(self), *final(self))
            },
    {
        if amount == 0 {
            return Ok(Option::None);
        }
        if self.ledger.is_some() {
            return Err(Error::AlreadyBonded);
        }
        match self.submit_request(XcmRequest::Bond { amount }) {
            Err(e) => Err(e),
            Ok(id) => Ok(Option::Some(id)),
        }
    }

    /// Submits a bond of further funds.  A zero amount submits nothing.
    pub fn bond_extra(&mut self, amount: Balance) -> (r: Result<Option<QueryId>, Error>)
        requires
            old(self).wf(),
        ensures
            final(self).wf(),
            r is Err ==> *final(self) == *old(self) && r == Err::<Option<QueryId>, Error>(
                Error::ArithmeticOverflow,
            ),
            amount == 0 ==> r == Ok::<Option<QueryId>, Error>(Option::None) && *final(self)
                == *old(self),
            amount != 0 && old(self).next_query_id < QueryId::MAX ==> {
                &&& r == Ok::<Option<QueryId>, Error>(Option::Some(old(self).next_query_id))
                &&& final(self).xcm_requests@ == old(self).xcm_requests@.insert(
                    old(self).next_query_id,
                    XcmRequest::BondExtra { amount },
                )
                &&& final(self).next_query_id == old(self).next_query_id + 1
                &&& same_but_requests(*old(self), *final(self))
            },
            amount != 0 && old(self).next_query_id == QueryId::MAX ==> r is Err,
    {
        if amount == 0 {
            return Ok(Option::None);
        }
        match self.submit_request(XcmRequest::BondExtra { amount }) {
            Err(e) => Err(e),
            Ok(id) => Ok(Option::Some(id)),
        }
    }

    /// Submits an unbond of active remote stake.  A zero amount submits
    /// nothing; without a ledger, or with its chunk list full, the call
    /// is rejected, because the acknowledgement could not be applied.
    pub fn unbond(&mut self, amount: Balance) -> (r: Result<Option<QueryId>, Error>)
        requires
            old(self).wf(),
        ensures
            final(self).wf(),
            r is Err ==> *final(self) == *old(self),
            amount == 0 ==> r == Ok::<Option<QueryId>, Error>(Option::None) && *final(self)
                == *old(self),
            amount != 0 && old(self).ledger is None ==> r == Err::<Option<QueryId>, Error>(
                Error::NotBonded,
            ),
            amount != 0 && old(self).ledger is Some && old(self).ledger->0.unlocking@.len()
                >= MAX_UNLOCKING_CHUNKS ==> r == Err::<Option<QueryId>, Error>(
                Error::NoMoreChunks,
            ),
            amount != 0 && old(self).ledger is Some && old(self).ledger->0.unlocking@.len()
                < MAX_UNLOCKING_CHUNKS && old(self).next_query_id == QueryId::MAX ==> r
                == Err::<Option<QueryId>, Error>(Error::ArithmeticOverflow),
            amount != 0 && old(self).ledger is Some && old(self).ledger->0.unlocking@.len()
                < MAX_UNLOCKING_CHUNKS && old(self).next_query_id < QueryId::MAX ==> {
                &&& r == Ok::<Option<QueryId>, Error>(Option::Some(old(self).next_query_id))
                &&& final(self).xcm_requests@ == old(self).xcm_requests@.insert(
                    old(self).next_query_id,
                    XcmRequest::Unbond { amount },
                )
                &&& final(self).next_query_id == old(self).next_query_id + 1
                &&& same_but_requests(*old(self), *final(self))
            },
    {
        if amount == 0 {
            return Ok(Option::None);
        }
        match &self.ledger {
            Option::None => {
                return Err(Error::NotBonded);
            },
            Option::Some(l) => {
                if l.unlocking.len() >= MAX_UNLOCKING_CHUNKS {
                    return Err(Error::NoMoreChunks);
                }
            },
        }
        match self.submit_request(XcmRequest::Unbond { amount }) {
            Err(e) => Err(e),
            Ok(id) => Ok(Option::Some(id)),
        }
    }

    /// Submits a rebond of unbonding remote stake.  A zero amount
    /// submits nothing.
    pub fn rebond(&mut self, amount: Balance) -> (r: Result<Option<QueryId>, Error>)
        requires
            old(self).wf(),
        ensures
            final(self).wf(),
            r is Err ==> *final(self) == *old(self) && r == Err::<Option<QueryId>, Error>(
                Error::ArithmeticOverflow,
            ),
            amount == 0 ==> r == Ok::<Option<QueryId>, Error>(Option::None) && *final(self)
                == *old(self),
            amount != 0 && old(self).next_query_id < QueryId::MAX ==> {
                &&& r == Ok::<Option<QueryId>, Error>(Option::Some(old(self).next_query_id))
                &&& final(self).xcm_requests@ == old(self).xcm_requests@.insert(
                    old(self).next_query_id,
                    XcmRequest::Rebond { amount },
                )
                &&& final(self).next_query_id == old(self).next_query_id + 1
                &&& same_but_requests(*old(self), *final(self))
            },
            amount != 0 && old(self).next_query_id == QueryId::MAX ==> r is Err,
    {
        if amount == 0 {
            return Ok(Option::None);
        }
        match self.submit_request(XcmRequest::Rebond { amount }) {
            Err(e) => Err(e),
            Ok(id) => Ok(Option::Some(id)),
        }
    }

    /// Submits a withdrawal of every remotely unlocked balance.
    pub fn withdraw_unbonded(&mut self, num_slashing_spans: u32) -> (r: Result<QueryId, Error>)
        requires
            old(self).wf(),
        ensures
            final(self).wf(),
            r is Err ==> *final(self) == *old(self) && r == Err::<QueryId, Error>(
                Error::ArithmeticOverflow,
            ),
            (r is Ok <==> old(self).next_query_id < QueryId::MAX),
            r matches Ok(id) ==> {
                &&& id == old(self).next_query_id
                &&& final(self).xcm_requests@ == old(self).xcm_requests@.insert(
                    id,
                    XcmRequest::WithdrawUnbonded { num_slashing_spans },
                )
                &&& final(self).next_query_id == old(self).next_query_id + 1
                &&& same_but_requests(*old(self), *final(self))
            },
    {
        self.submit_request(XcmRequest::WithdrawUnbonded { num_slashing_spans })
    }

    /// Submits a nomination of remote validators.  No ledger effect
    /// follows, even on success.
    pub fn nominate(&mut self, targets: Vec<AccountId>) -> (r: Result<QueryId, Error>)
        requires
            old(self).wf(),
        ensures
            final(self).wf(),
            r is Err ==> *final(self) == *old(self) && r == Err::<QueryId, Error>(
                Error::ArithmeticOverflow,
            ),
            (r is Ok <==> old(self).next_query_id < QueryId::MAX),
            r matches Ok(id) ==> {
                &&& id == old(self).next_query_id
                &&& final(self).xcm_requests@ == old(self).xcm_requests@.insert(
                    id,
                    XcmRequest::Nominate { targets },
                )
                &&& final(self).next_query_id == old(self).next_query_id + 1
                &&& same_but_requests(*old(self), *final(self))
            },
    {
        self.submit_request(XcmRequest::Nominate { targets })
    }

    /// Eras elapsed since the era start block at the given remote
    /// height.
    pub fn era_offset(&self, relay_block_height: BlockNumber) -> (r: EraIndex)
        ensures
            r == era_offset_spec(self.era_start_block, self.era_length, relay_block_height),
    {
        let gained = match relay_block_height.checked_sub(self.era_start_block) {
            Option::None => {
                return 0;
            },
            Option::Some(v) => v,
        };
        let quotient = match gained.checked_div(self.era_length) {
            Option::None => {
                return 0;
            },
            Option::Some(v) => v,
        };
        if quotient > EraIndex::MAX as u64 {
            0
        } else {
            quotient as EraIndex
        }
    }

    /// Advances the era by `offset` and runs one netting round: funds
    /// already freed remotely are withdrawn, and the pool flow is
    /// netted into bond, unbond and rebond requests.  Returns the
    /// submitted requests with their identifiers; a zero offset does
    /// nothing, and a blocked round changes nothing.
    pub fn advance_era(&mut self, offset: EraIndex, relay_block_height: BlockNumber) -> (r: Result<
        Vec<(QueryId, XcmRequest)>,
        Error,
    >)
        requires
            old(self).wf(),
        ensures
            final(self).wf(),
            r is Err ==> *final(self) == *old(self),
            offset == 0 ==> (r matches Ok(v) && v@.len() == 0 && *final(self) == *old(self)),
            offset != 0 ==> ((r is Err) <==> old(self).era_advance_blocked()),
            offset != 0 && !old(self).era_advance_blocked() ==> (r matches Ok(v)
                && LiquidStaking::era_advance_transition(
                *old(self),
                *final(self),
                v@,
                offset,
                relay_block_height,
            )),
    {
        if offset == 0 {
            return Ok(Vec::new());
        }
        let unbonding_amount: Balance = match &self.ledger {
            Option::None => 0,
            Option::Some(l) => {
                proof {
                    crate::ledger::lemma_sum_nonneg(l.unlocking@);
                }
                l.total - l.active
            },
        };
        let (bond_amount, rebond_amount, unbond_amount) = self.matching_pool.matching(
            unbonding_amount,
        );
        if unbond_amount > 0 {
            match &self.ledger {
                Option::None => {
                    return Err(Error::NotBonded);
                },
                Option::Some(l) => {
                    if l.unlocking.len() >= MAX_UNLOCKING_CHUNKS {
                        return Err(Error::NoMoreChunks);
                    }
                },
            }
        }
        if self.next_query_id > QueryId::MAX - 4 {
            return Err(Error::ArithmeticOverflow);
        }
        let ghost pre = *self;
        self.era_start_block = relay_block_height;
        self.current_era = self.current_era.saturating_add(offset);
        let mut requests: Vec<(QueryId, XcmRequest)> = Vec::new();
        let has_ledger = self.ledger.is_some();
        if unbonding_amount != 0 {
            match self.submit_request(XcmRequest::WithdrawUnbonded { num_slashing_spans: 0 }) {
                Err(e) => {
                    return Err(e);
                },
                Ok(id) => requests.push(
                    (id, XcmRequest::WithdrawUnbonded { num_slashing_spans: 0 }),
                ),
            }
        }
        if bond_amount > 0 {
            if !has_ledger {
                match self.submit_request(XcmRequest::Bond { amount: bond_amount }) {
                    Err(e) => {
                        return Err(e);
                    },
                    Ok(id) => requests.push((id, XcmRequest::Bond { amount: bond_amount })),
                }
            } else {
                match self.submit_request(XcmRequest::BondExtra { amount: bond_amount }) {
                    Err(e) => {
                        return Err(e);
                    },
                    Ok(id) => requests.push((id, XcmRequest::BondExtra { amount: bond_amount })),
                }
            }
        }
        if unbond_amount > 0 {
            match self.submit_request(XcmRequest::Unbond { amount: unbond_amount }) {
                Err(e) => {
                    return Err(e);
                },
                Ok(id) => requests.push((id, XcmRequest::Unbond { amount: unbond_amount })),
            }
        }
        if rebond_amount > 0 {
            match self.submit_request(XcmRequest::Rebond { amount: rebond_amount }) {
                Err(e) => {
                    return Err(e);
                },
                Ok(id) => requests.push((id, XcmRequest::Rebond { amount: rebond_amount })),
            }
        }
        proof {
            assert(requests@ =~= with_ids(pre.next_query_id, pre.era_request_list()));
        }
        Ok(requests)
    }

    /// The once-per-block hook: derives the era offset from the remote
    /// height and, when at least one era has passed, advances the era.
    /// A round that cannot run is skipped silently and retried at the
    /// next block.
    pub fn on_initialize(&mut self, relay_block_height: BlockNumber) -> (requests: Vec<
        (QueryId, XcmRequest),
    >)
        requires
            old(self).wf(),
        ensures
            final(self).wf(),
            ({
                let offset = era_offset_spec(
                    old(self).era_start_block,
                    old(self).era_length,
                    relay_block_height,
                );
                if offset == 0 || old(self).era_advance_blocked() {
                    requests@.len() == 0 && *final(self) == *old(self)
                } else {
                    LiquidStaking::era_advance_transition(
                        *old(self),
                        *final(self),
                        requests@,
                        offset,
                        relay_block_height,
                    )
                }
            }),
    {
        let offset = self.era_offset(relay_block_height);
        match self.advance_era(offset, relay_block_height) {
            Ok(v) => v,
            Err(_) => Vec::new(),
        }
    }
}

} // verus!
