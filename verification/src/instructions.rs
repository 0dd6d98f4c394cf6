use vstd::prelude::*;
use crate::accounts::{Deposit, Initialize, Swap, Withdraw};
use crate::address::Address;
use crate::error::AmmError;
use crate::liquidity::{deposit_outcome, withdraw_outcome, Balances, DepositReceipt, WithdrawReceipt};
use crate::record::{new_config, Config, Pool};
use crate::ledger::Ledger;
use crate::resolver::{pool_addresses_of, resolve_pool, PoolAddresses};
use crate::swap::{swap_outcome, SwapReceipt};

verus! {

/// What `initialize` decides. `expected` holds the addresses derived for the
/// new pool's seed and assets, and `exists` tells whether one of them holds
/// an account already. The accounts are checked first, then that the pool is
/// new, then the record's own rules.
pub open spec fn initialize_plan(
    expected: Option<PoolAddresses>,
    exists: bool,
    accounts: Initialize,
    seed: u64,
    fee_bps: u16,
    authority: Option<Address>,
) -> Result<Pool, AmmError> {
    if !(expected matches Some(e) && accounts.matches(e)) {
        Err(AmmError::InvalidAccount)
    } else if exists {
        Err(AmmError::AlreadyInitialized)
    } else {
        match new_config(seed, authority, accounts.mint_x, accounts.mint_y, fee_bps) {
            Ok(config) => Ok(
                Pool { config, balances: Balances { reserve_x: 0, reserve_y: 0, supply: 0 } },
            ),
            Err(e) => Err(e),
        }
    }
}

/// What `deposit` decides for a pool. `expected` holds the addresses derived
/// for the pool's seed and assets. The accounts are checked first, then the
/// lock, then the amounts.
pub open spec fn deposit_plan(
    pool: Pool,
    expected: Option<PoolAddresses>,
    accounts: Deposit,
    amount: u64,
    max_x: u64,
    max_y: u64,
) -> Result<(DepositReceipt, Pool), AmmError> {
    if !(expected matches Some(e) && accounts.matches(pool.config, e)) {
        Err(AmmError::InvalidAccount)
    } else if pool.config.locked {
        Err(AmmError::PoolLocked)
    } else {
        match deposit_outcome(pool.balances, amount, max_x, max_y) {
            Ok((receipt, balances)) => Ok((receipt, Pool { config: pool.config, balances })),
            Err(e) => Err(e),
        }
    }
}

/// What `withdraw` decides for a pool. `expected` holds the addresses derived
/// for the pool's seed and assets. The accounts are checked first, then the
/// lock, then the amounts.
pub open spec fn withdraw_plan(
    pool: Pool,
    expected: Option<PoolAddresses>,
    accounts: Withdraw,
    shares: u64,
    min_x: u64,
    min_y: u64,
) -> Result<(WithdrawReceipt, Pool), AmmError> {
    if !(expected matches Some(e) && accounts.matches(pool.config, e)) {
        Err(AmmError::InvalidAccount)
    } else if pool.config.locked {
        Err(AmmError::PoolLocked)
    } else {
        match withdraw_outcome(pool.balances, shares, min_x, min_y) {
            Ok((receipt, balances)) => Ok((receipt, Pool { config: pool.config, balances })),
            Err(e) => Err(e),
        }
    }
}

/// What `swap` decides for a pool. `expected` holds the addresses derived for
/// the pool's seed and assets. The accounts are checked first, then the lock,
/// then the amounts, at the fee of the pool's record.
pub open spec fn swap_plan(
    pool: Pool,
    expected: Option<PoolAddresses>,
    accounts: Swap,
    x_to_y: bool,
    amount_in: u64,
    slippage_bps: u16,
) -> Result<(SwapReceipt, Pool), AmmError> {
    if !(expected matches Some(e) && accounts.matches(pool.config, e)) {
        Err(AmmError::InvalidAccount)
    } else if pool.config.locked {
        Err(AmmError::PoolLocked)
    } else {
        match swap_outcome(pool.balances, pool.config.fee_bps, x_to_y, amount_in, slippage_bps) {
            Ok((receipt, balances)) => Ok((receipt, Pool { config: pool.config, balances })),
            Err(e) => Err(e),
        }
    }
}

/// What locking or unlocking decides for a pool: only the authority that the
/// record names may do either, and nobody where it names none.
pub open spec fn lock_plan(pool: Pool, signer: Address, locked: bool) -> Result<Pool, AmmError> {
    if pool.config.authority != Some(signer) {
        Err(AmmError::InvalidAccount)
    } else {
        Ok(
            Pool {
                config: Config {
                    seed: pool.config.seed,
                    authority: pool.config.authority,
                    mint_x: pool.config.mint_x,
                    mint_y: pool.config.mint_y,
                    fee_bps: pool.config.fee_bps,
                    locked,
                },
                balances: pool.balances,
            },
        )
    }
}

/// Decides on the making of a pool: returns the new pool, with its record
/// and nothing in it, or the reason why it is not made.
pub fn plan_initialize(
    expected: &Option<PoolAddresses>,
    exists: bool,
    accounts: &Initialize,
    seed: u64,
    fee_bps: u16,
    authority: Option<Address>,
) -> (r: Result<Pool, AmmError>)
    ensures
        r == initialize_plan(*expected, exists, *accounts, seed, fee_bps, authority),
        r matches Ok(pool) ==> pool.valid(),
{
    match expected {
        Some(e) => {
            if !accounts.is_canonical(e) {
                return Err(AmmError::InvalidAccount);
            }
        },
        None => {
            return Err(AmmError::InvalidAccount);
        },
    }
    if exists {
        return Err(AmmError::AlreadyInitialized);
    }
    match Config::new(seed, authority, accounts.mint_x, accounts.mint_y, fee_bps) {
        Ok(config) => Ok(Pool { config, balances: Balances::empty() }),
        Err(e) => Err(e),
    }
}

impl Pool {
    /// Decides on a deposit: returns what is to be moved and the pool
    /// afterwards, or the reason why nothing is.
    pub fn plan_deposit(
        &self,
        expected: &Option<PoolAddresses>,
        accounts: &Deposit,
        amount: u64,
        max_x: u64,
        max_y: u64,
    ) -> (r: Result<(DepositReceipt, Pool), AmmError>)
        ensures
            r == deposit_plan(*self, *expected, *accounts, amount, max_x, max_y),
            r matches Ok((_, after)) ==> (self.valid() ==> after.valid()),
    {
        match expected {
            Some(e) => {
                if !accounts.is_canonical(&self.config, e) {
                    return Err(AmmError::InvalidAccount);
                }
            },
            None => {
                return Err(AmmError::InvalidAccount);
            },
        }
        if self.config.locked {
            return Err(AmmError::PoolLocked);
        }
        match self.balances.deposit(amount, max_x, max_y) {
            Ok((receipt, balances)) => Ok((receipt, Pool { config: self.config, balances })),
            Err(e) => Err(e),
        }
    }

    /// Decides on a withdrawal: returns what is to be moved and the pool
    /// afterwards, or the reason why nothing is.
    pub fn plan_withdraw(
        &self,
        expected: &Option<PoolAddresses>,
        accounts: &Withdraw,
        shares: u64,
        min_x: u64,
        min_y: u64,
    ) -> (r: Result<(WithdrawReceipt, Pool), AmmError>)
        ensures
            r == withdraw_plan(*self, *expected, *accounts, shares, min_x, min_y),
            r matches Ok((_, after)) ==> (self.valid() ==> after.valid()),
    {
        match expected {
            Some(e) => {
                if !accounts.is_canonical(&self.config, e) {
                    return Err(AmmError::InvalidAccount);
                }
            },
            None => {
                return Err(AmmError::InvalidAccount);
            },
        }
        if self.config.locked {
            return Err(AmmError::PoolLocked);
        }
        match self.balances.withdraw(shares, min_x, min_y) {
            Ok((receipt, balances)) => Ok((receipt, Pool { config: self.config, balances })),
            Err(e) => Err(e),
        }
    }

    /// Decides on a swap: returns what is to be moved and the pool
    /// afterwards, or the reason why nothing is.
    pub fn plan_swap(
        &self,
        expected: &Option<PoolAddresses>,
        accounts: &Swap,
        x_to_y: bool,
        amount_in: u64,
        slippage_bps: u16,
    ) -> (r: Result<(SwapReceipt, Pool), AmmError>)
        ensures
            r == swap_plan(*self, *expected, *accounts, x_to_y, amount_in, slippage_bps),
            r matches Ok((_, after)) ==> (self.valid() ==> after.valid()),
    {
        match expected {
            Some(e) => {
                if !accounts.is_canonical(&self.config, e) {
                    return Err(AmmError::InvalidAccount);
                }
            },
            None => {
                return Err(AmmError::InvalidAccount);
            },
        }
        if self.config.locked {
            return Err(AmmError::PoolLocked);
        }
        match self.balances.swap(self.config.fee_bps, x_to_y, amount_in, slippage_bps) {
            Ok((receipt, balances)) => Ok((receipt, Pool { config: self.config, balances })),
            Err(e) => Err(e),
        }
    }

    /// Decides on locking or unlocking: returns the pool afterwards, or the
    /// reason why it stays as it is.
    pub fn plan_lock(&self, signer: &Address, locked: bool) -> (r: Result<Pool, AmmError>)
        ensures
            r == lock_plan(*self, *signer, locked),
            r matches Ok(after) ==> (self.valid() ==> after.valid()),
    {
        if !self.config.may_lock(signer) {
            return Err(AmmError::InvalidAccount);
        }
        Ok(
            Pool {
                config: Config {
                    seed: self.config.seed,
                    authority: self.config.authority,
                    mint_x: self.config.mint_x,
                    mint_y: self.config.mint_y,
                    fee_bps: self.config.fee_bps,
                    locked,
                },
                balances: self.balances,
            },
        )
    }
}

/// The addresses derived for the pool that `config` is the record of.
pub open spec fn addresses_of(program: Address, config: Config) -> Option<PoolAddresses> {
    pool_addresses_of(program, config.seed, config.mint_x, config.mint_y)
}

/// What `initialize` does on the pools of `program`: the pool that it makes
/// at `accounts.control`, or the reason why it makes none.
pub open spec fn initialize_result(
    program: Address,
    pools: Map<Address, Pool>,
    accounts: Initialize,
    seed: u64,
    fee_bps: u16,
    authority: Option<Address>,
) -> Result<Pool, AmmError> {
    initialize_plan(
        pool_addresses_of(program, seed, accounts.mint_x, accounts.mint_y),
        pools.contains_key(accounts.control),
        accounts,
        seed,
        fee_bps,
        authority,
    )
}

/// What `deposit` does on the pools of `program`: what it moves and the pool
/// that it leaves at `accounts.control`, or the reason why it does nothing.
pub open spec fn deposit_result(
    program: Address,
    pools: Map<Address, Pool>,
    accounts: Deposit,
    amount: u64,
    max_x: u64,
    max_y: u64,
) -> Result<(DepositReceipt, Pool), AmmError> {
    if pools.contains_key(accounts.control) {
        let pool = pools[accounts.control];
        deposit_plan(pool, addresses_of(program, pool.config), accounts, amount, max_x, max_y)
    } else {
        Err(AmmError::InvalidAccount)
    }
}

/// What `withdraw` does on the pools of `program`: what it moves and the pool
/// that it leaves at `accounts.control`, or the reason why it does nothing.
pub open spec fn withdraw_result(
    program: Address,
    pools: Map<Address, Pool>,
    accounts: Withdraw,
    shares: u64,
    min_x: u64,
    min_y: u64,
) -> Result<(WithdrawReceipt, Pool), AmmError> {
    if pools.contains_key(accounts.control) {
        let pool = pools[accounts.control];
        withdraw_plan(pool, addresses_of(program, pool.config), accounts, shares, min_x, min_y)
    } else {
        Err(AmmError::InvalidAccount)
    }
}

/// What `swap` does on the pools of `program`: what it moves and the pool
/// that it leaves at `accounts.control`, or the reason why it does nothing.
pub open spec fn swap_result(
    program: Address,
    pools: Map<Address, Pool>,
    accounts: Swap,
    x_to_y: bool,
    amount_in: u64,
    slippage_bps: u16,
) -> Result<(SwapReceipt, Pool), AmmError> {
    if pools.contains_key(accounts.control) {
        let pool = pools[accounts.control];
        swap_plan(pool, addresses_of(program, pool.config), accounts, x_to_y, amount_in, slippage_bps)
    } else {
        Err(AmmError::InvalidAccount)
    }
}

/// What `set_locked` does on a set of pools: the pool that it leaves at
/// `control`, or the reason why it does nothing.
pub open spec fn lock_result(pools: Map<Address, Pool>, control: Address, signer: Address, locked: bool) -> Result<
    Pool,
    AmmError,
> {
    if pools.contains_key(control) {
        lock_plan(pools[control], signer, locked)
    } else {
        Err(AmmError::InvalidAccount)
    }
}

/// Makes a pool: its control record with the given seed, fee and authority,
/// unlocked, for the two assets among the accounts, and with it an empty
/// share mint and two empty vaults. On an error the ledger stays as it was.
pub fn initialize(
    ledger: &mut Ledger,
    accounts: &Initialize,
    seed: u64,
    fee_bps: u16,
    authority: Option<Address>,
) -> (r: Result<(), AmmError>)
    requires
        old(ledger).wf(),
    ensures
        final(ledger).wf(),
        final(ledger).program() == old(ledger).program(),
        match initialize_result(old(ledger).program(), old(ledger)@, *accounts, seed, fee_bps, authority) {
            Ok(pool) => r == Ok::<(), AmmError>(()) && final(ledger)@ == old(ledger)@.insert(
                accounts.control,
                pool,
            ),
            Err(e) => r == Err::<(), AmmError>(e) && final(ledger)@ == old(ledger)@,
        },
{
    let program = ledger.program_id();
    let expected = resolve_pool(&program, seed, &accounts.mint_x, &accounts.mint_y);
    let exists = ledger.contains(&accounts.control);
    match plan_initialize(&expected, exists, accounts, seed, fee_bps, authority) {
        Ok(pool) => {
            ledger.put(accounts.control, pool);
            Ok(())
        },
        Err(e) => Err(e),
    }
}

/// Mints `amount` shares of the pool at `accounts.control` against a payment
/// into its vaults of at most `max_x` and `max_y`. Returns what the caller
/// pays and is given. On an error the ledger stays as it was.
pub fn deposit(ledger: &mut Ledger, accounts: &Deposit, amount: u64, max_x: u64, max_y: u64) -> (r: Result<
    DepositReceipt,
    AmmError,
>)
    requires
        old(ledger).wf(),
    ensures
        final(ledger).wf(),
        final(ledger).program() == old(ledger).program(),
        match deposit_result(old(ledger).program(), old(ledger)@, *accounts, amount, max_x, max_y) {
            Ok((receipt, pool)) => r == Ok::<DepositReceipt, AmmError>(receipt) && final(ledger)@
                == old(ledger)@.insert(accounts.control, pool),
            Err(e) => r == Err::<DepositReceipt, AmmError>(e) && final(ledger)@ == old(ledger)@,
        },
{
    let program = ledger.program_id();
    let pool = match ledger.pool(&accounts.control) {
        Some(pool) => pool,
        None => {
            return Err(AmmError::InvalidAccount);
        },
    };
    let expected = resolve_pool(&program, pool.config.seed, &pool.config.mint_x, &pool.config.mint_y);
    match pool.plan_deposit(&expected, accounts, amount, max_x, max_y) {
        Ok((receipt, after)) => {
            ledger.put(accounts.control, after);
            Ok(receipt)
        },
        Err(e) => Err(e),
    }
}

/// Burns `shares` shares of the pool at `accounts.control` against a payment
/// out of its vaults of at least `min_x` and `min_y`. Returns what the caller
/// gives up and is paid. On an error the ledger stays as it was.
pub fn withdraw(ledger: &mut Ledger, accounts: &Withdraw, shares: u64, min_x: u64, min_y: u64) -> (r: Result<
    WithdrawReceipt,
    AmmError,
>)
    requires
        old(ledger).wf(),
    ensures
        final(ledger).wf(),
        final(ledger).program() == old(ledger).program(),
        match withdraw_result(old(ledger).program(), old(ledger)@, *accounts, shares, min_x, min_y) {
            Ok((receipt, pool)) => r == Ok::<WithdrawReceipt, AmmError>(receipt) && final(ledger)@
                == old(ledger)@.insert(accounts.control, pool),
            Err(e) => r == Err::<WithdrawReceipt, AmmError>(e) && final(ledger)@ == old(ledger)@,
        },
{
    let program = ledger.program_id();
    let pool = match ledger.pool(&accounts.control) {
        Some(pool) => pool,
        None => {
            return Err(AmmError::InvalidAccount);
        },
    };
    let expected = resolve_pool(&program, pool.config.seed, &pool.config.mint_x, &pool.config.mint_y);
    match pool.plan_withdraw(&expected, accounts, shares, min_x, min_y) {
        Ok((receipt, after)) => {
            ledger.put(accounts.control, after);
            Ok(receipt)
        },
        Err(e) => Err(e),
    }
}

/// Trades `amount_in` of one asset of the pool at `accounts.control` for the
/// other, X for Y where `x_to_y` holds, and refuses an output more than
/// `slippage_bps` basis points under what the price before the trade would
/// give. Returns what the caller pays and is paid. On an error the ledger
/// stays as it was.
pub fn swap(ledger: &mut Ledger, accounts: &Swap, x_to_y: bool, amount_in: u64, slippage_bps: u16) -> (r:
    Result<SwapReceipt, AmmError>)
    requires
        old(ledger).wf(),
    ensures
        final(ledger).wf(),
        final(ledger).program() == old(ledger).program(),
        match swap_result(old(ledger).program(), old(ledger)@, *accounts, x_to_y, amount_in, slippage_bps) {
            Ok((receipt, pool)) => r == Ok::<SwapReceipt, AmmError>(receipt) && final(ledger)@
                == old(ledger)@.insert(accounts.control, pool),
            Err(e) => r == Err::<SwapReceipt, AmmError>(e) && final(ledger)@ == old(ledger)@,
        },
{
    let program = ledger.program_id();
    let pool = match ledger.pool(&accounts.control) {
        Some(pool) => pool,
        None => {
            return Err(AmmError::InvalidAccount);
        },
    };
    let expected = resolve_pool(&program, pool.config.seed, &pool.config.mint_x, &pool.config.mint_y);
    match pool.plan_swap(&expected, accounts, x_to_y, amount_in, slippage_bps) {
        Ok((receipt, after)) => {
            ledger.put(accounts.control, after);
            Ok(receipt)
        },
        Err(e) => Err(e),
    }
}

/// Locks or unlocks the pool at `control`, for the authority that its record
/// names. On an error the ledger stays as it was.
pub fn set_locked(ledger: &mut Ledger, control: &Address, signer: &Address, locked: bool) -> (r: Result<
    (),
    AmmError,
>)
    requires
        old(ledger).wf(),
    ensures
        final(ledger).wf(),
        final(ledger).program() == old(ledger).program(),
        match lock_result(old(ledger)@, *control, *signer, locked) {
            Ok(pool) => r == Ok::<(), AmmError>(()) && final(ledger)@ == old(ledger)@.insert(*control, pool),
            Err(e) => r == Err::<(), AmmError>(e) && final(ledger)@ == old(ledger)@,
        },
{
    let pool = match ledger.pool(control) {
        Some(pool) => pool,
        None => {
            return Err(AmmError::InvalidAccount);
        },
    };
    match pool.plan_lock(signer, locked) {
        Ok(after) => {
            ledger.put(*control, after);
            Ok(())
        },
        Err(e) => Err(e),
    }
}

} // verus!
