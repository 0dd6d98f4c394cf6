use vstd::prelude::*;
use crate::address::Address;
use crate::record::Config;
use crate::resolver::PoolAddresses;

verus! {

/// The accounts that `initialize` names: the two assets and the four
/// accounts to be made for the pool.
#[derive(Clone, Copy, Debug, PartialEq, Eq)]
pub struct Initialize {
    pub mint_x: Address,
    pub mint_y: Address,
    pub share_mint: Address,
    pub control: Address,
    pub vault_x: Address,
    pub vault_y: Address,
}

/// The accounts that `deposit` names.
#[derive(Clone, Copy, Debug, PartialEq, Eq)]
pub struct Deposit {
    pub mint_x: Address,
    pub mint_y: Address,
    pub share_mint: Address,
    pub control: Address,
    pub vault_x: Address,
    pub vault_y: Address,
}

/// The accounts that `withdraw` names.
#[derive(Clone, Copy, Debug, PartialEq, Eq)]
pub struct Withdraw {
    pub mint_x: Address,
    pub mint_y: Address,
    pub share_mint: Address,
    pub control: Address,
    pub vault_x: Address,
    pub vault_y: Address,
}

/// The accounts that `swap` names. A swap mints and burns no shares, and
/// names no share mint.
#[derive(Clone, Copy, Debug, PartialEq, Eq)]
pub struct Swap {
    pub mint_x: Address,
    pub mint_y: Address,
    pub control: Address,
    pub vault_x: Address,
    pub vault_y: Address,
}

impl Initialize {
    /// Each of the four accounts is the one derived for the pool.
    pub open spec fn matches(self, expected: PoolAddresses) -> bool {
        &&& self.control == expected.control
        &&& self.share_mint == expected.share_mint
        &&& self.vault_x == expected.vault_x
        &&& self.vault_y == expected.vault_y
    }

    /// Tells whether each of the four accounts is the one derived for the
    /// pool.
    pub fn is_canonical(&self, expected: &PoolAddresses) -> (r: bool)
        ensures
            r == self.matches(*expected),
    {
        self.control == expected.control && self.share_mint == expected.share_mint && self.vault_x
            == expected.vault_x && self.vault_y == expected.vault_y
    }
}

impl Deposit {
    /// The assets are those of the record, and each of the four accounts is
    /// the one derived for the pool.
    pub open spec fn matches(self, config: Config, expected: PoolAddresses) -> bool {
        &&& self.mint_x == config.mint_x
        &&& self.mint_y == config.mint_y
        &&& self.control == expected.control
        &&& self.share_mint == expected.share_mint
        &&& self.vault_x == expected.vault_x
        &&& self.vault_y == expected.vault_y
    }

    /// Tells whether the assets are those of the record and each of the four
    /// accounts is the one derived for the pool.
    pub fn is_canonical(&self, config: &Config, expected: &PoolAddresses) -> (r: bool)
        ensures
            r == self.matches(*config, *expected),
    {
        self.mint_x == config.mint_x && self.mint_y == config.mint_y && self.control
            == expected.control && self.share_mint == expected.share_mint && self.vault_x
            == expected.vault_x && self.vault_y == expected.vault_y
    }
}

impl Withdraw {
    /// The assets are those of the record, and each of the four accounts is
    /// the one derived for the pool.
    pub open spec fn matches(self, config: Config, expected: PoolAddresses) -> bool {
        &&& self.mint_x == config.mint_x
        &&& self.mint_y == config.mint_y
        &&& self.control == expected.control
        &&& self.share_mint == expected.share_mint
        &&& self.vault_x == expected.vault_x
        &&& self.vault_y == expected.vault_y
    }

    /// Tells whether the assets are those of the record and each of the four
    /// accounts is the one derived for the pool.
    pub fn is_canonical(&self, config: &Config, expected: &PoolAddresses) -> (r: bool)
        ensures
            r == self.matches(*config, *expected),
    {
        self.mint_x == config.mint_x && self.mint_y == config.mint_y && self.control
            == expected.control && self.share_mint == expected.share_mint && self.vault_x
            == expected.vault_x && self.vault_y == expected.vault_y
    }
}

impl Swap {
    /// The assets are those of the record, and the control record and the two
    /// vaults are the ones derived for the pool.
    pub open spec fn matches(self, config: Config, expected: PoolAddresses) -> bool {
        &&& self.mint_x == config.mint_x
        &&& self.mint_y == config.mint_y
        &&& self.control == expected.control
        &&& self.vault_x == expected.vault_x
        &&& self.vault_y == expected.vault_y
    }

    /// Tells whether the assets are those of the record and the control
    /// record and the two vaults are the ones derived for the pool.
    pub fn is_canonical(&self, config: &Config, expected: &PoolAddresses) -> (r: bool)
        ensures
            r == self.matches(*config, *expected),
    {
        self.mint_x == config.mint_x && self.mint_y == config.mint_y && self.control
            == expected.control && self.vault_x == expected.vault_x && self.vault_y
            == expected.vault_y
    }
}

} // verus!
