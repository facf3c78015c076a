//! Accounting core of a liquid-staking protocol.
//!
//! Users deposit a staking asset and receive a liquid derivative token in
//! return; the pooled deposits are bonded on a remote proof-of-stake ledger
//! through asynchronous messages, and users later redeem derivative tokens
//! for the staking asset once an unbonding delay, measured in eras, has
//! elapsed.
//!
//! The crate contains the netting-and-reconciliation engine only: the
//! matching pool that nets stake against unstake flow each era, the staking
//! ledger with its unlock schedule, the exchange rate linking derivative
//! issuance to staked value, and the request tracker that applies remote
//! effects when an acknowledgement arrives.  Message transport, asset
//! routing and origin checks live outside the crate; callers hand in plain
//! values and perform the asset and messaging operations this crate asks
//! for.

use vstd::prelude::*;

pub mod era;
pub mod errors;
pub mod ledger;
pub mod matching;
pub mod protocol;
pub mod rate;
pub mod reconcile;

verus! {

/// Amount of either the staking asset or the liquid derivative asset,
/// in indivisible base units.
pub type Balance = u128;

/// Index of an era of the remote staking ledger.
pub type EraIndex = u32;

/// Block height of the remote chain.
pub type BlockNumber = u64;

/// Stable identifier of a user account.
pub type AccountId = u64;

/// Identifier of an in-flight remote request.
pub type QueryId = u64;

} // verus!
