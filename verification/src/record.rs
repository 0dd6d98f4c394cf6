use vstd::prelude::*;
use crate::address::Address;
use crate::error::AmmError;
use crate::liquidity::Balances;

verus! {

/// The highest fee, in basis points: the whole of what is paid in.
pub const MAX_FEE_BPS: u16 = 10000;

/// The control record of a pool. Once it is made only `locked` changes.
#[derive(Clone, Copy, Debug, PartialEq, Eq)]
pub struct Config {
    /// Tells the pools of one program apart: the record's address is derived
    /// from it.
    pub seed: u64,
    /// Who may lock and unlock the pool. Where there is nobody, nobody ever
    /// can.
    pub authority: Option<Address>,
    /// The first asset of the pair.
    pub mint_x: Address,
    /// The second asset of the pair.
    pub mint_y: Address,
    /// The fee on what a swap pays in, in basis points.
    pub fee_bps: u16,
    /// While it holds, deposits, withdrawals and swaps are refused.
    pub locked: bool,
}

/// A pool: its control record and what it holds.
#[derive(Clone, Copy, Debug, PartialEq, Eq)]
pub struct Pool {
    pub config: Config,
    pub balances: Balances,
}

/// The record of a new pool, or the reason why there can be none.
pub open spec fn new_config(
    seed: u64,
    authority: Option<Address>,
    mint_x: Address,
    mint_y: Address,
    fee_bps: u16,
) -> Result<Config, AmmError> {
    if mint_x == mint_y {
        Err(AmmError::IdenticalAssets)
    } else if fee_bps > MAX_FEE_BPS {
        Err(AmmError::InvalidFee)
    } else {
        Ok(Config { seed, authority, mint_x, mint_y, fee_bps, locked: false })
    }
}

impl Pool {
    /// The record keeps its rules, and what the pool holds belongs to the
    /// holders of its shares.
    pub open spec fn valid(self) -> bool {
        &&& self.config.valid()
        &&& self.balances.consistent()
    }
}

impl Config {
    /// The record trades two different assets at a fee of at most the whole.
    pub open spec fn valid(self) -> bool {
        &&& self.mint_x != self.mint_y
        &&& self.fee_bps <= MAX_FEE_BPS
    }

    /// Makes the record of a new pool, unlocked. Two different assets and a
    /// fee of at most the whole are asked for.
    pub fn new(seed: u64, authority: Option<Address>, mint_x: Address, mint_y: Address, fee_bps: u16) -> (r:
        Result<Config, AmmError>)
        ensures
            r == new_config(seed, authority, mint_x, mint_y, fee_bps),
            r matches Ok(config) ==> config.valid(),
    {
        if mint_x == mint_y {
            Err(AmmError::IdenticalAssets)
        } else if fee_bps > MAX_FEE_BPS {
            Err(AmmError::InvalidFee)
        } else {
            Ok(Config { seed, authority, mint_x, mint_y, fee_bps, locked: false })
        }
    }

    /// Tells whether `signer` may lock and unlock the pool.
    pub fn may_lock(&self, signer: &Address) -> (r: bool)
        ensures
            r == (self.authority == Some(*signer)),
    {
        match self.authority {
            Some(authority) => authority == *signer,
            None => false,
        }
    }
}

} // verus!
