use vstd::prelude::*;
use crate::error::AmmError;
use crate::math::{ceil_div, lemma_floor_div_bounds, mul_div_ceil, mul_div_floor, narrow};

verus! {

/// What a pool holds: the balances of its two vaults and the number of
/// liquidity shares in existence.
#[derive(Clone, Copy, Debug, PartialEq, Eq, Structural)]
pub struct Balances {
    pub reserve_x: u64,
    pub reserve_y: u64,
    pub supply: u64,
}

/// What a deposit moved: the two amounts paid into the vaults and the shares
/// minted for them.
#[derive(Clone, Copy, Debug, PartialEq, Eq, Structural)]
pub struct DepositReceipt {
    pub paid_x: u64,
    pub paid_y: u64,
    pub minted: u64,
}

/// What a withdrawal moved: the shares burned and the two amounts paid out of
/// the vaults for them.
#[derive(Clone, Copy, Debug, PartialEq, Eq, Structural)]
pub struct WithdrawReceipt {
    pub burned: u64,
    pub received_x: u64,
    pub received_y: u64,
}

/// What `amount` new shares cost in one asset. The first deposit into a pool
/// pays the caller's ceiling, and so sets the price: no proportion is asked
/// of it, and whoever makes it answers for the price it sets. A later one
/// pays in proportion to the reserve, rounded up, so that rounding never
/// takes from those who hold shares already.
pub open spec fn required_contribution(amount: int, reserve: int, supply: int, ceiling: int) -> int {
    if supply == 0 {
        ceiling
    } else {
        ceil_div(amount * reserve, supply)
    }
}

/// What `shares` redeemed shares are worth in one asset: their proportion of
/// the reserve, rounded down, so that rounding never takes from those who
/// keep their shares.
pub open spec fn redeemed_amount(shares: int, reserve: int, supply: int) -> int {
    shares * reserve / supply
}

/// What a deposit of `amount` shares does to balances `b`, with ceilings
/// `max_x` and `max_y` on what is paid.
pub open spec fn deposit_outcome(b: Balances, amount: u64, max_x: u64, max_y: u64) -> Result<
    (DepositReceipt, Balances),
    AmmError,
> {
    let need_x = required_contribution(amount as int, b.reserve_x as int, b.supply as int, max_x as int);
    let need_y = required_contribution(amount as int, b.reserve_y as int, b.supply as int, max_y as int);
    if amount == 0 {
        Err(AmmError::ZeroAmount)
    } else if need_x > u64::MAX || need_y > u64::MAX || b.reserve_x + need_x > u64::MAX
        || b.reserve_y + need_y > u64::MAX || b.supply + amount > u64::MAX {
        Err(AmmError::ArithmeticOverflow)
    } else if need_x > max_x || need_y > max_y {
        Err(AmmError::SlippageExceeded)
    } else {
        Ok(
            (
                DepositReceipt { paid_x: need_x as u64, paid_y: need_y as u64, minted: amount },
                Balances {
                    reserve_x: (b.reserve_x + need_x) as u64,
                    reserve_y: (b.reserve_y + need_y) as u64,
                    supply: (b.supply + amount) as u64,
                },
            ),
        )
    }
}

/// What a withdrawal of `shares` shares does to balances `b`, with floors
/// `min_x` and `min_y` on what is paid out.
pub open spec fn withdraw_outcome(b: Balances, shares: u64, min_x: u64, min_y: u64) -> Result<
    (WithdrawReceipt, Balances),
    AmmError,
> {
    let out_x = redeemed_amount(shares as int, b.reserve_x as int, b.supply as int);
    let out_y = redeemed_amount(shares as int, b.reserve_y as int, b.supply as int);
    if shares == 0 {
        Err(AmmError::ZeroAmount)
    } else if shares > b.supply {
        Err(AmmError::InsufficientShares)
    } else if out_x < min_x || out_y < min_y {
        Err(AmmError::SlippageExceeded)
    } else {
        Ok(
            (
                WithdrawReceipt { burned: shares, received_x: out_x as u64, received_y: out_y as u64 },
                Balances {
                    reserve_x: (b.reserve_x - out_x) as u64,
                    reserve_y: (b.reserve_y - out_y) as u64,
                    supply: (b.supply - shares) as u64,
                },
            ),
        )
    }
}

/// A part of a reserve is never more than the reserve.
pub proof fn lemma_redeemed_within_reserve(shares: int, reserve: int, supply: int)
    requires
        0 < shares <= supply,
        0 <= reserve,
    ensures
        0 <= redeemed_amount(shares, reserve, supply) <= reserve,
        shares == supply ==> redeemed_amount(shares, reserve, supply) == reserve,
{
    assert(0 <= shares * reserve <= supply * reserve) by (nonlinear_arith)
        requires
            0 < shares <= supply,
            0 <= reserve,
    ;
    lemma_floor_div_bounds(shares * reserve, supply);
    let q = shares * reserve / supply;
    assert(q <= reserve) by (nonlinear_arith)
        requires
            q * supply <= shares * reserve,
            shares * reserve <= supply * reserve,
            0 < supply,
    ;
    if shares == supply {
        assert(q >= reserve) by (nonlinear_arith)
            requires
                supply * reserve < (q + 1) * supply,
                0 < supply,
        ;
    }
}

/// The cost of `amount` shares in one asset, where it fits in a `u64`.
fn contribution(amount: u64, reserve: u64, supply: u64, ceiling: u64) -> (r: Option<u64>)
    ensures
        r == if required_contribution(amount as int, reserve as int, supply as int, ceiling as int)
            <= u64::MAX {
            Some(
                required_contribution(
                    amount as int,
                    reserve as int,
                    supply as int,
                    ceiling as int,
                ) as u64,
            )
        } else {
            None::<u64>
        },
{
    if supply == 0 {
        Some(ceiling)
    } else {
        narrow(mul_div_ceil(amount, reserve, supply as u128))
    }
}

impl Balances {
    /// Where no shares exist the vaults are empty: what a pool holds always
    /// belongs to the holders of its shares. A new pool is so, and deposits,
    /// withdrawals and swaps keep it so.
    pub open spec fn consistent(self) -> bool {
        self.supply == 0 ==> self.reserve_x == 0 && self.reserve_y == 0
    }

    /// The balances of a pool that nobody has paid into.
    pub fn empty() -> (r: Balances)
        ensures
            r == (Balances { reserve_x: 0, reserve_y: 0, supply: 0 }),
            r.consistent(),
    {
        Balances { reserve_x: 0, reserve_y: 0, supply: 0 }
    }

    /// Mints `amount` shares against a payment into both vaults. Returns what
    /// was moved and the balances afterwards, or the reason why nothing was.
    pub fn deposit(&self, amount: u64, max_x: u64, max_y: u64) -> (r: Result<
        (DepositReceipt, Balances),
        AmmError,
    >)
        ensures
            r == deposit_outcome(*self, amount, max_x, max_y),
            r matches Ok((_, after)) ==> after.consistent(),
    {
        if amount == 0 {
            return Err(AmmError::ZeroAmount);
        }
        let need_x = contribution(amount, self.reserve_x, self.supply, max_x);
        let need_y = contribution(amount, self.reserve_y, self.supply, max_y);
        match (need_x, need_y) {
            (Some(paid_x), Some(paid_y)) => {
                let reserve_x = self.reserve_x.checked_add(paid_x);
                let reserve_y = self.reserve_y.checked_add(paid_y);
                let supply = self.supply.checked_add(amount);
                match (reserve_x, reserve_y, supply) {
                    (Some(reserve_x), Some(reserve_y), Some(supply)) => {
                        if paid_x > max_x || paid_y > max_y {
                            Err(AmmError::SlippageExceeded)
                        } else {
                            Ok(
                                (
                                    DepositReceipt { paid_x, paid_y, minted: amount },
                                    Balances { reserve_x, reserve_y, supply },
                                ),
                            )
                        }
                    },
                    _ => Err(AmmError::ArithmeticOverflow),
                }
            },
            _ => Err(AmmError::ArithmeticOverflow),
        }
    }

    /// Burns `shares` shares against a payment out of both vaults. Returns
    /// what was moved and the balances afterwards, or the reason why nothing
    /// was.
    pub fn withdraw(&self, shares: u64, min_x: u64, min_y: u64) -> (r: Result<
        (WithdrawReceipt, Balances),
        AmmError,
    >)
        ensures
            r == withdraw_outcome(*self, shares, min_x, min_y),
            r matches Ok((_, after)) ==> after.consistent(),
    {
        if shares == 0 {
            return Err(AmmError::ZeroAmount);
        }
        if shares > self.supply {
            return Err(AmmError::InsufficientShares);
        }
        proof {
            lemma_redeemed_within_reserve(shares as int, self.reserve_x as int, self.supply as int);
            lemma_redeemed_within_reserve(shares as int, self.reserve_y as int, self.supply as int);
        }
        let out_x = mul_div_floor(shares, self.reserve_x, self.supply as u128) as u64;
        let out_y = mul_div_floor(shares, self.reserve_y, self.supply as u128) as u64;
        if out_x < min_x || out_y < min_y {
            return Err(AmmError::SlippageExceeded);
        }
        Ok(
            (
                WithdrawReceipt { burned: shares, received_x: out_x, received_y: out_y },
                Balances {
                    reserve_x: self.reserve_x - out_x,
                    reserve_y: self.reserve_y - out_y,
                    supply: self.supply - shares,
                },
            ),
        )
    }
}

} // verus!
