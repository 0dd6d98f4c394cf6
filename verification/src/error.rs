use vstd::prelude::*;

verus! {

/// Why an instruction was refused. Nothing is changed by an instruction that
/// returns one of these.
#[derive(Clone, Copy, Debug, PartialEq, Eq, Structural)]
pub enum AmmError {
    /// A supplied account is not the one derived for the pool.
    InvalidAccount,
    /// An account derived for the new pool exists already.
    AlreadyInitialized,
    /// Both sides of the pool name the same asset.
    IdenticalAssets,
    /// The fee is above one hundred percent.
    InvalidFee,
    /// The pool is locked.
    PoolLocked,
    /// The amount of shares or of the asset paid in is zero.
    ZeroAmount,
    /// More shares are to be redeemed than exist.
    InsufficientShares,
    /// A reserve of the pool is empty.
    EmptyReserves,
    /// A quantity does not fit its integer type.
    ArithmeticOverflow,
    /// The amounts are outside the bounds the caller set.
    SlippageExceeded,
}

} // verus!
