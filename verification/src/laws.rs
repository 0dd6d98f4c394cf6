use vstd::prelude::*;
use crate::accounts::{Deposit, Initialize, Swap, Withdraw};
use crate::address::Address;
use crate::error::AmmError;
use crate::instructions::{
    addresses_of, deposit_result, initialize_result, lock_result, swap_result, withdraw_result,
};
use crate::liquidity::{
    deposit_outcome, lemma_redeemed_within_reserve, redeemed_amount, required_contribution,
    withdraw_outcome, Balances,
};
use crate::math::{ceil_div, lemma_ceil_div_bounds, lemma_exact_div, lemma_floor_div_bounds};
use crate::record::Pool;
use crate::resolver::{pool_addresses_of, PoolAddresses};
use crate::swap::{
    ideal_output, lemma_swap_keeps_product, output_floor, reserve_in, reserve_out, swap_fee,
    swap_outcome, swap_output,
};

verus! {

/// A seed makes one pool. Once `initialize` has made the pool of a seed, any
/// `initialize` with that seed fails: with `AlreadyInitialized` where it
/// names the accounts derived for it, with `InvalidAccount` where it does
/// not.
pub proof fn lemma_initialize_once(
    program: Address,
    pools: Map<Address, Pool>,
    seed: u64,
    first: Initialize,
    first_fee_bps: u16,
    first_authority: Option<Address>,
    second: Initialize,
    second_fee_bps: u16,
    second_authority: Option<Address>,
)
    requires
        initialize_result(program, pools, first, seed, first_fee_bps, first_authority) is Ok,
    ensures
        ({
            let made = initialize_result(program, pools, first, seed, first_fee_bps, first_authority)->Ok_0;
            let again = initialize_result(
                program,
                pools.insert(first.control, made),
                second,
                seed,
                second_fee_bps,
                second_authority,
            );
            let derived = pool_addresses_of(program, seed, second.mint_x, second.mint_y);
            if derived matches Some(e) && second.matches(e) {
                again == Err::<Pool, AmmError>(AmmError::AlreadyInitialized)
            } else {
                again == Err::<Pool, AmmError>(AmmError::InvalidAccount)
            }
        }),
{
}

/// Two pools do not touch each other. Where `initialize` makes a second pool
/// after a first, the two stand at different addresses, the first is as it
/// was made, and no other pool has changed.
pub proof fn lemma_initialize_apart(
    program: Address,
    pools: Map<Address, Pool>,
    first: Initialize,
    first_seed: u64,
    first_fee_bps: u16,
    first_authority: Option<Address>,
    second: Initialize,
    second_seed: u64,
    second_fee_bps: u16,
    second_authority: Option<Address>,
)
    requires
        initialize_result(program, pools, first, first_seed, first_fee_bps, first_authority) is Ok,
        initialize_result(
            program,
            pools.insert(
                first.control,
                initialize_result(program, pools, first, first_seed, first_fee_bps, first_authority)->Ok_0,
            ),
            second,
            second_seed,
            second_fee_bps,
            second_authority,
        ) is Ok,
    ensures
        ({
            let one = initialize_result(program, pools, first, first_seed, first_fee_bps, first_authority)->Ok_0;
            let between = pools.insert(first.control, one);
            let two = initialize_result(
                program,
                between,
                second,
                second_seed,
                second_fee_bps,
                second_authority,
            )->Ok_0;
            let after = between.insert(second.control, two);
            &&& first_seed != second_seed
            &&& first.control != second.control
            &&& after[first.control] == one
            &&& after[second.control] == two
            &&& one.config.seed == first_seed
            &&& two.config.seed == second_seed
            &&& forall|other: Address|
                other != first.control && other != second.control ==> after.contains_key(other)
                    == pools.contains_key(other) && (pools.contains_key(other) ==> after[other]
                    == pools[other])
        }),
{
    let one = initialize_result(program, pools, first, first_seed, first_fee_bps, first_authority)->Ok_0;
    let between = pools.insert(first.control, one);
    if first_seed == second_seed {
        lemma_initialize_once(
            program,
            pools,
            first_seed,
            first,
            first_fee_bps,
            first_authority,
            second,
            second_fee_bps,
            second_authority,
        );
    }
    assert(between.contains_key(first.control));
}

/// What a deposit does to one pool does not depend on any other pool.
pub proof fn lemma_deposit_apart(
    program: Address,
    pools: Map<Address, Pool>,
    other: Address,
    changed: Pool,
    accounts: Deposit,
    amount: u64,
    max_x: u64,
    max_y: u64,
)
    requires
        other != accounts.control,
    ensures
        deposit_result(program, pools.insert(other, changed), accounts, amount, max_x, max_y)
            == deposit_result(program, pools, accounts, amount, max_x, max_y),
        deposit_result(program, pools.remove(other), accounts, amount, max_x, max_y)
            == deposit_result(program, pools, accounts, amount, max_x, max_y),
{
}

/// What a withdrawal does to one pool does not depend on any other pool.
pub proof fn lemma_withdraw_apart(
    program: Address,
    pools: Map<Address, Pool>,
    other: Address,
    changed: Pool,
    accounts: Withdraw,
    shares: u64,
    min_x: u64,
    min_y: u64,
)
    requires
        other != accounts.control,
    ensures
        withdraw_result(program, pools.insert(other, changed), accounts, shares, min_x, min_y)
            == withdraw_result(program, pools, accounts, shares, min_x, min_y),
        withdraw_result(program, pools.remove(other), accounts, shares, min_x, min_y)
            == withdraw_result(program, pools, accounts, shares, min_x, min_y),
{
}

/// What a swap does to one pool does not depend on any other pool.
pub proof fn lemma_swap_apart(
    program: Address,
    pools: Map<Address, Pool>,
    other: Address,
    changed: Pool,
    accounts: Swap,
    x_to_y: bool,
    amount_in: u64,
    slippage_bps: u16,
)
    requires
        other != accounts.control,
    ensures
        swap_result(program, pools.insert(other, changed), accounts, x_to_y, amount_in, slippage_bps)
            == swap_result(program, pools, accounts, x_to_y, amount_in, slippage_bps),
        swap_result(program, pools.remove(other), accounts, x_to_y, amount_in, slippage_bps)
            == swap_result(program, pools, accounts, x_to_y, amount_in, slippage_bps),
{
}

/// A later deposit pays in proportion. Where shares exist, what `amount`
/// shares cost in an asset, times the supply, reaches `amount` times the
/// reserve and stays less than one supply above it; and where the reserve is
/// `rate` for each share in existence, the cost is `rate` for each new share.
pub proof fn lemma_deposit_in_proportion(amount: u64, reserve: u64, supply: u64, ceiling: u64, rate: int)
    requires
        supply > 0,
    ensures
        amount * reserve <= required_contribution(
            amount as int,
            reserve as int,
            supply as int,
            ceiling as int,
        ) * supply < amount * reserve + supply,
        reserve == rate * supply ==> required_contribution(
            amount as int,
            reserve as int,
            supply as int,
            ceiling as int,
        ) == amount * rate,
{
    let n = amount * reserve;
    let d = supply as int;
    assert(0 <= n) by (nonlinear_arith)
        requires
            n == amount * reserve,
    ;
    lemma_ceil_div_bounds(n, d);
    if reserve == rate * supply {
        assert((amount * rate) * d == n) by (nonlinear_arith)
            requires
                n == amount * reserve,
                reserve == rate * supply,
                d == supply,
        ;
        lemma_exact_div(n, d, amount * rate);
    }
}

/// A deposit into a pool that holds a whole amount for each share. Where the
/// reserves are `rate_x` and `rate_y` for each share in existence, a deposit
/// that goes through costs `rate_x` and `rate_y` for each new share, and the
/// reserves are afterwards `rate_x` and `rate_y` for each share again: the
/// price has not moved.
pub proof fn lemma_deposit_at_a_whole_rate(
    b: Balances,
    amount: u64,
    max_x: u64,
    max_y: u64,
    rate_x: int,
    rate_y: int,
)
    requires
        b.supply > 0,
        b.reserve_x == rate_x * b.supply,
        b.reserve_y == rate_y * b.supply,
        deposit_outcome(b, amount, max_x, max_y) is Ok,
    ensures
        ({
            let (paid, after) = deposit_outcome(b, amount, max_x, max_y)->Ok_0;
            &&& paid.paid_x == amount * rate_x
            &&& paid.paid_y == amount * rate_y
            &&& paid.minted == amount
            &&& after.supply == b.supply + amount
            &&& after.reserve_x == rate_x * after.supply
            &&& after.reserve_y == rate_y * after.supply
        }),
{
    lemma_deposit_in_proportion(amount, b.reserve_x, b.supply, max_x, rate_x);
    lemma_deposit_in_proportion(amount, b.reserve_y, b.supply, max_y, rate_y);
    let s = b.supply as int;
    let a = amount as int;
    assert(rate_x * s + a * rate_x == rate_x * (s + a)) by (nonlinear_arith);
    assert(rate_y * s + a * rate_y == rate_y * (s + a)) by (nonlinear_arith);
}

/// A later deposit keeps the price. Where shares exist, the two amounts that
/// a deposit pays stand in the ratio of the reserves as nearly as whole
/// numbers allow: cross-multiplied, they differ by less than one reserve.
pub proof fn lemma_deposit_keeps_ratio(b: Balances, amount: u64, max_x: u64, max_y: u64)
    requires
        b.supply > 0,
    ensures
        ({
            let need_x = required_contribution(
                amount as int,
                b.reserve_x as int,
                b.supply as int,
                max_x as int,
            );
            let need_y = required_contribution(
                amount as int,
                b.reserve_y as int,
                b.supply as int,
                max_y as int,
            );
            &&& -b.reserve_x <= need_x * b.reserve_y - need_y * b.reserve_x <= b.reserve_y
            &&& -b.reserve_x <= (b.reserve_x + need_x) * b.reserve_y - (b.reserve_y + need_y)
                * b.reserve_x <= b.reserve_y
            &&& b.reserve_x == b.reserve_y ==> need_x == need_y
        }),
{
    let need_x = required_contribution(amount as int, b.reserve_x as int, b.supply as int, max_x as int);
    let need_y = required_contribution(amount as int, b.reserve_y as int, b.supply as int, max_y as int);
    lemma_deposit_in_proportion(amount, b.reserve_x, b.supply, max_x, 0);
    lemma_deposit_in_proportion(amount, b.reserve_y, b.supply, max_y, 0);
    let a = amount as int;
    let rx = b.reserve_x as int;
    let ry = b.reserve_y as int;
    let s = b.supply as int;
    assert(need_x * ry - need_y * rx <= ry) by (nonlinear_arith)
        requires
            a * rx <= need_x * s < a * rx + s,
            a * ry <= need_y * s < a * ry + s,
            0 <= rx,
            0 <= ry,
            0 < s,
    ;
    assert(-rx <= need_x * ry - need_y * rx) by (nonlinear_arith)
        requires
            a * rx <= need_x * s < a * rx + s,
            a * ry <= need_y * s < a * ry + s,
            0 <= rx,
            0 <= ry,
            0 < s,
    ;
    assert((rx + need_x) * ry - (ry + need_y) * rx == need_x * ry - need_y * rx) by (nonlinear_arith);
}

/// What a pool holds stays with the holders of its shares. A deposit leaves
/// shares in existence, a withdrawal of the last shares empties the vaults,
/// and a swap goes through only where shares exist.
pub proof fn lemma_balances_stay_consistent(
    b: Balances,
    amount: u64,
    bound_x: u64,
    bound_y: u64,
    fee_bps: u16,
    x_to_y: bool,
    slippage_bps: u16,
)
    requires
        b.consistent(),
    ensures
        deposit_outcome(b, amount, bound_x, bound_y) matches Ok((_, after)) ==> after.supply > 0
            && after.consistent(),
        withdraw_outcome(b, amount, bound_x, bound_y) matches Ok((_, after)) ==> after.consistent(),
        swap_outcome(b, fee_bps, x_to_y, amount, slippage_bps) matches Ok((_, after)) ==> after.supply
            > 0 && after.consistent(),
{
    if withdraw_outcome(b, amount, bound_x, bound_y) is Ok {
        lemma_redeemed_within_reserve(amount as int, b.reserve_x as int, b.supply as int);
        lemma_redeemed_within_reserve(amount as int, b.reserve_y as int, b.supply as int);
    }
}

/// Neither a deposit nor a withdrawal lowers what a share is worth: the
/// reserve for each share in existence is afterwards at least what it was.
pub proof fn lemma_liquidity_never_dilutes(b: Balances, amount: u64, bound_x: u64, bound_y: u64)
    requires
        b.consistent(),
    ensures
        deposit_outcome(b, amount, bound_x, bound_y) matches Ok((_, after)) ==> after.reserve_x
            * b.supply >= b.reserve_x * after.supply && after.reserve_y * b.supply >= b.reserve_y
            * after.supply,
        withdraw_outcome(b, amount, bound_x, bound_y) matches Ok((_, after)) ==> after.reserve_x
            * b.supply >= b.reserve_x * after.supply && after.reserve_y * b.supply >= b.reserve_y
            * after.supply,
{
    let a = amount as int;
    let rx = b.reserve_x as int;
    let ry = b.reserve_y as int;
    let s = b.supply as int;
    if let Ok((_, after)) = deposit_outcome(b, amount, bound_x, bound_y) {
        if s > 0 {
            lemma_deposit_in_proportion(amount, b.reserve_x, b.supply, bound_x, 0);
            lemma_deposit_in_proportion(amount, b.reserve_y, b.supply, bound_y, 0);
            let cx = after.reserve_x - rx;
            let cy = after.reserve_y - ry;
            assert((rx + cx) * s >= rx * (s + a)) by (nonlinear_arith)
                requires
                    a * rx <= cx * s,
            ;
            assert((ry + cy) * s >= ry * (s + a)) by (nonlinear_arith)
                requires
                    a * ry <= cy * s,
            ;
        } else {
            assert(after.reserve_x * 0 >= 0 * after.supply) by (nonlinear_arith);
            assert(after.reserve_y * 0 >= 0 * after.supply) by (nonlinear_arith);
        }
    }
    if let Ok((_, after)) = withdraw_outcome(b, amount, bound_x, bound_y) {
        let ox = redeemed_amount(a, rx, s);
        let oy = redeemed_amount(a, ry, s);
        assert(0 <= a * rx && 0 <= a * ry) by (nonlinear_arith)
            requires
                0 <= a,
                0 <= rx,
                0 <= ry,
        ;
        lemma_floor_div_bounds(a * rx, s);
        lemma_floor_div_bounds(a * ry, s);
        lemma_redeemed_within_reserve(a, rx, s);
        lemma_redeemed_within_reserve(a, ry, s);
        assert((rx - ox) * s >= rx * (s - a)) by (nonlinear_arith)
            requires
                ox * s <= a * rx,
        ;
        assert((ry - oy) * s >= ry * (s - a)) by (nonlinear_arith)
            requires
                oy * s <= a * ry,
        ;
    }
}

/// No swap that goes through on a pool of the ledger lowers the product of
/// the pool's reserves, or changes the number of its shares.
pub proof fn lemma_swap_never_lowers_product(
    program: Address,
    pools: Map<Address, Pool>,
    accounts: Swap,
    x_to_y: bool,
    amount_in: u64,
    slippage_bps: u16,
)
    requires
        swap_result(program, pools, accounts, x_to_y, amount_in, slippage_bps) is Ok,
    ensures
        ({
            let before = pools[accounts.control].balances;
            let after = swap_result(program, pools, accounts, x_to_y, amount_in, slippage_bps)->Ok_0.1;
            &&& after.balances.reserve_x * after.balances.reserve_y >= before.reserve_x
                * before.reserve_y
            &&& after.balances.supply == before.supply
            &&& after.config == pools[accounts.control].config
        }),
{
    let pool = pools[accounts.control];
    lemma_swap_keeps_product(pool.balances, pool.config.fee_bps, x_to_y, amount_in, slippage_bps);
}

/// A swap that would pay out less than the caller's floor is refused. Where
/// the amount paid in and both reserves are positive, the fee and the
/// caller's bound are at most the whole and every quantity fits, an output
/// under the floor gives `SlippageExceeded`.
pub proof fn lemma_slippage_refused(
    b: Balances,
    fee_bps: u16,
    x_to_y: bool,
    amount_in: u64,
    slippage_bps: u16,
)
    requires
        amount_in > 0,
        reserve_in(b, x_to_y) > 0,
        reserve_out(b, x_to_y) > 0,
        fee_bps <= 10000,
        slippage_bps <= 10000,
        ideal_output(reserve_in(b, x_to_y) as int, reserve_out(b, x_to_y) as int, amount_in as int)
            <= u64::MAX,
        reserve_in(b, x_to_y) + amount_in <= u64::MAX,
        swap_output(
            reserve_in(b, x_to_y) as int,
            reserve_out(b, x_to_y) as int,
            amount_in - swap_fee(amount_in as int, fee_bps as int),
        ) < output_floor(
            ideal_output(reserve_in(b, x_to_y) as int, reserve_out(b, x_to_y) as int, amount_in as int),
            slippage_bps as int,
        ),
    ensures
        swap_outcome(b, fee_bps, x_to_y, amount_in, slippage_bps) is Err,
        swap_outcome(b, fee_bps, x_to_y, amount_in, slippage_bps)->Err_0 == AmmError::SlippageExceeded,
{
    let fee = swap_fee(amount_in as int, fee_bps as int);
    assert(0 <= amount_in * fee_bps <= amount_in * 10000) by (nonlinear_arith)
        requires
            0 <= fee_bps <= 10000,
    ;
    lemma_floor_div_bounds(amount_in * fee_bps, 10000);
}

/// What `amount` shares cost in one asset and what they pay back at once.
/// Where shares exist, the shares pay back what they cost where the cost was
/// in exact proportion, and one unit less where it was rounded up.
proof fn lemma_round_trip_of_one_asset(a: int, r: int, s: int)
    requires
        0 < a,
        0 <= r,
        0 < s,
    ensures
        ({
            let cost = ceil_div(a * r, s);
            let back = redeemed_amount(a, r + cost, s + a);
            &&& 0 <= cost
            &&& cost - 1 <= back <= cost
            &&& (back == cost) <==> (a * r) % s == 0
        }),
{
    let n = a * r;
    let c = ceil_div(n, s);
    let m = a * (r + c);
    let d = s + a;
    let out = m / d;
    assert(0 <= n) by (nonlinear_arith)
        requires
            n == a * r,
            0 < a,
            0 <= r,
    ;
    lemma_ceil_div_bounds(n, s);
    assert(0 <= m) by (nonlinear_arith)
        requires
            m == a * (r + c),
            0 < a,
            0 <= r,
            0 <= c,
    ;
    lemma_floor_div_bounds(m, d);
    assert(m == n + a * c) by (nonlinear_arith)
        requires
            m == a * (r + c),
            n == a * r,
    ;
    assert(c * d == c * s + a * c) by (nonlinear_arith)
        requires
            d == s + a,
    ;
    assert((c - 1) * d == c * d - d) by (nonlinear_arith);
    assert(out <= c) by (nonlinear_arith)
        requires
            out * d <= m,
            m <= c * d,
            0 < d,
    ;
    assert(c - 1 <= out) by (nonlinear_arith)
        requires
            m < (out + 1) * d,
            (c - 1) * d <= m,
            0 < d,
    ;
    if n % s == 0 {
        assert(c * d == m);
        lemma_exact_div(m, d, c);
    } else {
        assert(m < c * d);
        assert(out != c) by (nonlinear_arith)
            requires
                out * d <= m,
                m < c * d,
        ;
    }
}

/// A deposit costs exactly its proportion of the reserves: it is the first
/// one, or the amounts it pays needed no rounding.
pub open spec fn deposit_is_exact(b: Balances, amount: u64) -> bool {
    b.supply == 0 || ((amount * b.reserve_x) % (b.supply as int) == 0 && (amount * b.reserve_y) % (
    b.supply as int) == 0)
}

/// Shares deposited and withdrawn at once. After a deposit, a withdrawal of
/// the shares it minted goes through where the caller sets no floor. It
/// leaves the number of shares as it was before the deposit. In each asset
/// it pays back what the deposit cost, or one unit less where the cost was
/// rounded up: that unit stays in the vault, and nothing else has changed.
pub proof fn lemma_deposit_then_withdraw(b: Balances, amount: u64, max_x: u64, max_y: u64)
    requires
        b.consistent(),
        deposit_outcome(b, amount, max_x, max_y) is Ok,
    ensures
        ({
            let (paid, between) = deposit_outcome(b, amount, max_x, max_y)->Ok_0;
            let back = withdraw_outcome(between, amount, 0, 0);
            &&& back is Ok
            &&& ({
                let (got, after) = back->Ok_0;
                &&& got.burned == paid.minted
                &&& after.supply == b.supply
                &&& paid.paid_x - 1 <= got.received_x <= paid.paid_x
                &&& paid.paid_y - 1 <= got.received_y <= paid.paid_y
                &&& after.reserve_x == b.reserve_x + (paid.paid_x - got.received_x)
                &&& after.reserve_y == b.reserve_y + (paid.paid_y - got.received_y)
                &&& b.supply == 0 ==> after == b
                &&& b.supply > 0 ==> (got.received_x == paid.paid_x <==> (amount * b.reserve_x) % (
                b.supply as int) == 0)
                &&& b.supply > 0 ==> (got.received_y == paid.paid_y <==> (amount * b.reserve_y) % (
                b.supply as int) == 0)
            })
        }),
{
    let (paid, between) = deposit_outcome(b, amount, max_x, max_y)->Ok_0;
    let a = amount as int;
    if b.supply == 0 {
        lemma_redeemed_within_reserve(a, between.reserve_x as int, between.supply as int);
        lemma_redeemed_within_reserve(a, between.reserve_y as int, between.supply as int);
    } else {
        lemma_round_trip_of_one_asset(a, b.reserve_x as int, b.supply as int);
        lemma_round_trip_of_one_asset(a, b.reserve_y as int, b.supply as int);
    }
}

/// Shares deposited and withdrawn at once, where the deposit was exact. The
/// withdrawal goes through with the amounts the deposit cost as its floors,
/// pays them back in full, and leaves the pool's balances exactly as they
/// were before the deposit.
pub proof fn lemma_exact_round_trip(b: Balances, amount: u64, max_x: u64, max_y: u64)
    requires
        b.consistent(),
        deposit_outcome(b, amount, max_x, max_y) is Ok,
        deposit_is_exact(b, amount),
    ensures
        ({
            let (paid, between) = deposit_outcome(b, amount, max_x, max_y)->Ok_0;
            let back = withdraw_outcome(between, amount, paid.paid_x, paid.paid_y);
            &&& back is Ok
            &&& back->Ok_0.0.burned == amount
            &&& back->Ok_0.0.received_x == paid.paid_x
            &&& back->Ok_0.0.received_y == paid.paid_y
            &&& back->Ok_0.1 == b
        }),
{
    lemma_deposit_then_withdraw(b, amount, max_x, max_y);
}

/// A deposit and a withdrawal of the same shares on a pool of the ledger
/// leave the ledger as it was, where the deposit was exact.
pub proof fn lemma_exact_round_trip_in_ledger(
    program: Address,
    pools: Map<Address, Pool>,
    paying: Deposit,
    taking: Withdraw,
    amount: u64,
    max_x: u64,
    max_y: u64,
)
    requires
        pools.contains_key(paying.control),
        pools[paying.control].valid(),
        deposit_result(program, pools, paying, amount, max_x, max_y) is Ok,
        deposit_is_exact(pools[paying.control].balances, amount),
        taking.mint_x == paying.mint_x,
        taking.mint_y == paying.mint_y,
        taking.share_mint == paying.share_mint,
        taking.control == paying.control,
        taking.vault_x == paying.vault_x,
        taking.vault_y == paying.vault_y,
    ensures
        ({
            let (paid, between) = deposit_result(program, pools, paying, amount, max_x, max_y)->Ok_0;
            let back = withdraw_result(
                program,
                pools.insert(paying.control, between),
                taking,
                amount,
                paid.paid_x,
                paid.paid_y,
            );
            &&& back is Ok
            &&& back->Ok_0.0.received_x == paid.paid_x
            &&& back->Ok_0.0.received_y == paid.paid_y
            &&& pools.insert(paying.control, between).insert(taking.control, back->Ok_0.1) == pools
        }),
{
    let pool = pools[paying.control];
    lemma_exact_round_trip(pool.balances, amount, max_x, max_y);
    let (paid, between) = deposit_result(program, pools, paying, amount, max_x, max_y)->Ok_0;
    let mid = pools.insert(paying.control, between);
    let back = withdraw_result(program, mid, taking, amount, paid.paid_x, paid.paid_y);
    assert(mid[taking.control] == between);
    assert(between.config == pool.config);
    assert(back is Ok);
    assert(back->Ok_0.1 == pool);
    assert(mid.insert(taking.control, back->Ok_0.1) =~= pools);
}

/// The addresses derived for a pool hold `vault_x` and `vault_y` as its
/// vaults.
pub open spec fn vaults_are(expected: Option<PoolAddresses>, vault_x: Address, vault_y: Address) -> bool {
    expected matches Some(e) && e.vault_x == vault_x && e.vault_y == vault_y
}

/// No instruction takes a vault that is not the pool's own. Where a vault
/// among the accounts is not the one derived for the pool, as the vault of
/// another pool is not, `initialize`, `deposit`, `withdraw` and `swap` each
/// fail with `InvalidAccount`.
pub proof fn lemma_foreign_vault_refused(
    program: Address,
    pools: Map<Address, Pool>,
    making: Initialize,
    seed: u64,
    fee_bps: u16,
    authority: Option<Address>,
    paying: Deposit,
    taking: Withdraw,
    trading: Swap,
    amount: u64,
    bound_x: u64,
    bound_y: u64,
    x_to_y: bool,
    slippage_bps: u16,
)
    ensures
        !vaults_are(
            pool_addresses_of(program, seed, making.mint_x, making.mint_y),
            making.vault_x,
            making.vault_y,
        ) ==> initialize_result(program, pools, making, seed, fee_bps, authority) == Err::<
            Pool,
            AmmError,
        >(AmmError::InvalidAccount),
        !(pools.contains_key(paying.control) && vaults_are(
            addresses_of(program, pools[paying.control].config),
            paying.vault_x,
            paying.vault_y,
        )) ==> deposit_result(program, pools, paying, amount, bound_x, bound_y) is Err
            && deposit_result(program, pools, paying, amount, bound_x, bound_y)->Err_0
            == AmmError::InvalidAccount,
        !(pools.contains_key(taking.control) && vaults_are(
            addresses_of(program, pools[taking.control].config),
            taking.vault_x,
            taking.vault_y,
        )) ==> withdraw_result(program, pools, taking, amount, bound_x, bound_y) is Err
            && withdraw_result(program, pools, taking, amount, bound_x, bound_y)->Err_0
            == AmmError::InvalidAccount,
        !(pools.contains_key(trading.control) && vaults_are(
            addresses_of(program, pools[trading.control].config),
            trading.vault_x,
            trading.vault_y,
        )) ==> swap_result(program, pools, trading, x_to_y, amount, slippage_bps) is Err
            && swap_result(program, pools, trading, x_to_y, amount, slippage_bps)->Err_0
            == AmmError::InvalidAccount,
{
}

/// A locked pool takes no deposit, no withdrawal and no swap. Where the
/// accounts are those of a pool of the ledger and the pool is locked, each of
/// the three fails with `PoolLocked`, whatever the amounts.
pub proof fn lemma_locked_pool_refuses(
    program: Address,
    pools: Map<Address, Pool>,
    paying: Deposit,
    taking: Withdraw,
    trading: Swap,
    amount: u64,
    bound_x: u64,
    bound_y: u64,
    x_to_y: bool,
    slippage_bps: u16,
)
    ensures
        pools.contains_key(paying.control) && pools[paying.control].config.locked && (addresses_of(
            program,
            pools[paying.control].config,
        ) matches Some(e) && paying.matches(pools[paying.control].config, e)) ==> deposit_result(
            program,
            pools,
            paying,
            amount,
            bound_x,
            bound_y,
        ) is Err && deposit_result(program, pools, paying, amount, bound_x, bound_y)->Err_0
            == AmmError::PoolLocked,
        pools.contains_key(taking.control) && pools[taking.control].config.locked && (addresses_of(
            program,
            pools[taking.control].config,
        ) matches Some(e) && taking.matches(pools[taking.control].config, e)) ==> withdraw_result(
            program,
            pools,
            taking,
            amount,
            bound_x,
            bound_y,
        ) is Err && withdraw_result(program, pools, taking, amount, bound_x, bound_y)->Err_0
            == AmmError::PoolLocked,
        pools.contains_key(trading.control) && pools[trading.control].config.locked && (addresses_of(
            program,
            pools[trading.control].config,
        ) matches Some(e) && trading.matches(pools[trading.control].config, e)) ==> swap_result(
            program,
            pools,
            trading,
            x_to_y,
            amount,
            slippage_bps,
        ) is Err && swap_result(program, pools, trading, x_to_y, amount, slippage_bps)->Err_0
            == AmmError::PoolLocked,
{
}

/// A record stays as it was made. A deposit, a withdrawal and a swap leave
/// the record of their pool alone, and locking or unlocking changes the lock
/// and nothing else.
pub proof fn lemma_record_is_fixed(
    program: Address,
    pools: Map<Address, Pool>,
    paying: Deposit,
    taking: Withdraw,
    trading: Swap,
    amount: u64,
    bound_x: u64,
    bound_y: u64,
    x_to_y: bool,
    slippage_bps: u16,
    control: Address,
    signer: Address,
    locked: bool,
)
    ensures
        deposit_result(program, pools, paying, amount, bound_x, bound_y) matches Ok((_, after))
            ==> after.config == pools[paying.control].config,
        withdraw_result(program, pools, taking, amount, bound_x, bound_y) matches Ok((_, after))
            ==> after.config == pools[taking.control].config,
        swap_result(program, pools, trading, x_to_y, amount, slippage_bps) matches Ok((_, after))
            ==> after.config == pools[trading.control].config,
        lock_result(pools, control, signer, locked) matches Ok(after) ==> {
            &&& after.balances == pools[control].balances
            &&& after.config.locked == locked
            &&& after.config.seed == pools[control].config.seed
            &&& after.config.authority == pools[control].config.authority
            &&& after.config.mint_x == pools[control].config.mint_x
            &&& after.config.mint_y == pools[control].config.mint_y
            &&& after.config.fee_bps == pools[control].config.fee_bps
        },
{
}

} // verus!
