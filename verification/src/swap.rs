use vstd::prelude::*;
use crate::error::AmmError;
use crate::liquidity::Balances;
use crate::math::{lemma_floor_div_bounds, mul_div_floor, narrow};

verus! {

/// The number of basis points in the whole.
pub const BPS_DENOMINATOR: u16 = 10000;

/// What a swap moved: the amount paid into one vault, the part of it kept as
/// the fee, and the amount paid out of the other vault.
#[derive(Clone, Copy, Debug, PartialEq, Eq, Structural)]
pub struct SwapReceipt {
    pub paid: u64,
    pub fee: u64,
    pub received: u64,
}

/// The fee on `amount_in`, at `fee_bps` basis points, rounded down.
pub open spec fn swap_fee(amount_in: int, fee_bps: int) -> int {
    amount_in * fee_bps / 10000
}

/// What the constant-product rule pays out for `net_in` added to
/// `reserve_in`, rounded down.
pub open spec fn swap_output(reserve_in: int, reserve_out: int, net_in: int) -> int {
    reserve_out * net_in / (reserve_in + net_in)
}

/// What `amount_in` would buy at the price the reserves stand at, with no
/// fee and no effect on the price, rounded down.
pub open spec fn ideal_output(reserve_in: int, reserve_out: int, amount_in: int) -> int {
    reserve_out * amount_in / reserve_in
}

/// The least output the caller accepts: the ideal output less
/// `slippage_bps` basis points of it, rounded down.
pub open spec fn output_floor(ideal: int, slippage_bps: int) -> int {
    ideal * (10000 - slippage_bps) / 10000
}

/// The reserve that a swap pays into.
pub open spec fn reserve_in(b: Balances, x_to_y: bool) -> u64 {
    if x_to_y {
        b.reserve_x
    } else {
        b.reserve_y
    }
}

/// The reserve that a swap pays out of.
pub open spec fn reserve_out(b: Balances, x_to_y: bool) -> u64 {
    if x_to_y {
        b.reserve_y
    } else {
        b.reserve_x
    }
}

/// What a swap of `amount_in` does to balances `b`, in the direction
/// `x_to_y`, at a fee of `fee_bps` and with the caller's bound `slippage_bps`.
/// The fee stays in the vault that is paid into. Each quantity of the rule is
/// a `u64`: one that does not fit is an overflow.
pub open spec fn swap_outcome(
    b: Balances,
    fee_bps: u16,
    x_to_y: bool,
    amount_in: u64,
    slippage_bps: u16,
) -> Result<(SwapReceipt, Balances), AmmError> {
    let r_in = reserve_in(b, x_to_y) as int;
    let r_out = reserve_out(b, x_to_y) as int;
    let fee = swap_fee(amount_in as int, fee_bps as int);
    let net = amount_in - fee;
    let out = swap_output(r_in, r_out, net);
    let ideal = ideal_output(r_in, r_out, amount_in as int);
    if amount_in == 0 {
        Err(AmmError::ZeroAmount)
    } else if r_in == 0 || r_out == 0 {
        Err(AmmError::EmptyReserves)
    } else if fee > amount_in || slippage_bps > 10000 || ideal > u64::MAX || r_in + amount_in
        > u64::MAX {
        Err(AmmError::ArithmeticOverflow)
    } else if out < output_floor(ideal, slippage_bps as int) {
        Err(AmmError::SlippageExceeded)
    } else {
        Ok(
            (
                SwapReceipt { paid: amount_in, fee: fee as u64, received: out as u64 },
                if x_to_y {
                    Balances {
                        reserve_x: (r_in + amount_in) as u64,
                        reserve_y: (r_out - out) as u64,
                        supply: b.supply,
                    }
                } else {
                    Balances {
                        reserve_x: (r_out - out) as u64,
                        reserve_y: (r_in + amount_in) as u64,
                        supply: b.supply,
                    }
                },
            ),
        )
    }
}

/// The constant-product rule pays out less than the reserve it pays from, and
/// leaves the product of the reserves no smaller, also where more than
/// `net_in` is added to the other reserve.
pub proof fn lemma_swap_output_bounds(r_in: int, r_out: int, net_in: int, paid: int)
    requires
        0 < r_in,
        0 <= r_out,
        0 <= net_in <= paid,
    ensures
        0 <= swap_output(r_in, r_out, net_in) <= r_out,
        (r_in + paid) * (r_out - swap_output(r_in, r_out, net_in)) >= r_in * r_out,
{
    let d = r_in + net_in;
    let out = swap_output(r_in, r_out, net_in);
    assert(0 <= r_out * net_in) by (nonlinear_arith)
        requires
            0 <= r_out,
            0 <= net_in,
    ;
    lemma_floor_div_bounds(r_out * net_in, d);
    assert(out * d <= r_out * net_in);
    assert(out <= r_out) by (nonlinear_arith)
        requires
            out * d <= r_out * net_in,
            0 <= out,
            0 <= r_out,
            0 <= net_in < d,
    ;
    assert(d * (r_out - out) >= r_in * r_out) by (nonlinear_arith)
        requires
            out * d <= r_out * net_in,
            d == r_in + net_in,
    ;
    assert((r_in + paid) * (r_out - out) >= d * (r_out - out)) by (nonlinear_arith)
        requires
            r_in + paid >= d,
            r_out - out >= 0,
    ;
}

/// No swap that goes through lowers the product of the two reserves.
pub proof fn lemma_swap_keeps_product(
    b: Balances,
    fee_bps: u16,
    x_to_y: bool,
    amount_in: u64,
    slippage_bps: u16,
)
    requires
        swap_outcome(b, fee_bps, x_to_y, amount_in, slippage_bps) is Ok,
    ensures
        ({
            let after = swap_outcome(b, fee_bps, x_to_y, amount_in, slippage_bps)->Ok_0.1;
            &&& reserve_in(after, x_to_y) * reserve_out(after, x_to_y) >= reserve_in(b, x_to_y)
                * reserve_out(b, x_to_y)
            &&& after.reserve_x * after.reserve_y >= b.reserve_x * b.reserve_y
            &&& after.supply == b.supply
        }),
{
    let r_in = reserve_in(b, x_to_y) as int;
    let r_out = reserve_out(b, x_to_y) as int;
    let fee = swap_fee(amount_in as int, fee_bps as int);
    assert(0 <= amount_in * fee_bps) by (nonlinear_arith);
    lemma_floor_div_bounds(amount_in * fee_bps, 10000);
    lemma_swap_output_bounds(r_in, r_out, amount_in - fee, amount_in as int);
    let after = swap_outcome(b, fee_bps, x_to_y, amount_in, slippage_bps)->Ok_0.1;
    let out = swap_output(r_in, r_out, amount_in - fee);
    assert((r_in + amount_in) * (r_out - out) == (r_out - out) * (r_in + amount_in))
        by (nonlinear_arith);
    assert(r_in * r_out == r_out * r_in) by (nonlinear_arith);
}

impl Balances {
    /// Trades `amount_in` of one asset for the other, X for Y where `x_to_y`
    /// holds. Returns what was moved and the balances afterwards, or the
    /// reason why nothing was.
    pub fn swap(&self, fee_bps: u16, x_to_y: bool, amount_in: u64, slippage_bps: u16) -> (r: Result<
        (SwapReceipt, Balances),
        AmmError,
    >)
        ensures
            r == swap_outcome(*self, fee_bps, x_to_y, amount_in, slippage_bps),
            r matches Ok((_, after)) ==> after.reserve_x * after.reserve_y >= self.reserve_x
                * self.reserve_y,
            r matches Ok((_, after)) ==> (self.consistent() ==> after.consistent()),
    {
        if amount_in == 0 {
            return Err(AmmError::ZeroAmount);
        }
        let (r_in, r_out) = if x_to_y {
            (self.reserve_x, self.reserve_y)
        } else {
            (self.reserve_y, self.reserve_x)
        };
        if r_in == 0 || r_out == 0 {
            return Err(AmmError::EmptyReserves);
        }
        let fee_wide = mul_div_floor(amount_in, fee_bps as u64, BPS_DENOMINATOR as u128);
        if fee_wide > amount_in as u128 || slippage_bps > BPS_DENOMINATOR {
            return Err(AmmError::ArithmeticOverflow);
        }
        let fee = fee_wide as u64;
        let net = amount_in - fee;
        let ideal = match narrow(mul_div_floor(r_out, amount_in, r_in as u128)) {
            Some(ideal) => ideal,
            None => {
                return Err(AmmError::ArithmeticOverflow);
            },
        };
        let new_in = match r_in.checked_add(amount_in) {
            Some(new_in) => new_in,
            None => {
                return Err(AmmError::ArithmeticOverflow);
            },
        };
        proof {
            lemma_swap_output_bounds(r_in as int, r_out as int, net as int, amount_in as int);
        }
        let out = mul_div_floor(r_out, net, r_in as u128 + net as u128) as u64;
        let floor = mul_div_floor(ideal, (BPS_DENOMINATOR - slippage_bps) as u64, BPS_DENOMINATOR as u128);
        if (out as u128) < floor {
            return Err(AmmError::SlippageExceeded);
        }
        let new_out = r_out - out;
        let receipt = SwapReceipt { paid: amount_in, fee, received: out };
        proof {
            lemma_swap_keeps_product(*self, fee_bps, x_to_y, amount_in, slippage_bps);
        }
        if x_to_y {
            Ok((receipt, Balances { reserve_x: new_in, reserve_y: new_out, supply: self.supply }))
        } else {
            Ok((receipt, Balances { reserve_x: new_out, reserve_y: new_in, supply: self.supply }))
        }
    }
}

} // verus!
