//! Error taxonomy of the protocol.

use vstd::prelude::*;

verus! {

/// Why a protocol operation was rejected.  Every rejection is synchronous
/// and leaves the protocol state unchanged.
#[derive(Clone, Copy, Debug, PartialEq, Eq, Structural)]
pub enum Error {
    /// The exchange rate is zero or a conversion through it does not fit
    /// into a balance.
    InvalidExchangeRate,
    /// The stake was below the configured minimum.
    StakeTooSmall,
    /// The unstake was below the configured minimum.
    UnstakeTooSmall,
    /// Minting would push the derivative issuance past its market cap.
    CapExceeded,
    /// A market cap of zero is not accepted.
    InvalidCap,
    /// The reserve factor must lie strictly between zero and one.
    InvalidFactor,
    /// No unlocked funds are claimable for the account yet.
    NothingToClaim,
    /// No staking ledger exists yet.
    NotBonded,
    /// A staking ledger already exists.
    AlreadyBonded,
    /// The unbonding-chunk list is at capacity.
    NoMoreChunks,
    /// A balance addition overflowed.
    ArithmeticOverflow,
    /// A balance subtraction underflowed.
    ArithmeticUnderflow,
}

} // verus!
