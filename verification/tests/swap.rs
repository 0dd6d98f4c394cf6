use amm::error::AmmError;
use amm::liquidity::Balances;
use amm::swap::SwapReceipt;

const UNIT: u64 = 1_000_000_000;

#[test]
fn swap_of_thirty_against_sixty() {
    let pool = Balances { reserve_x: 60 * UNIT, reserve_y: 60 * UNIT, supply: 1000 };
    let (receipt, after) = pool.swap(1000, true, 30 * UNIT, 5000).unwrap();
    assert_eq!(
        receipt,
        SwapReceipt { paid: 30 * UNIT, fee: 3 * UNIT, received: 18_620_689_655 }
    );
    assert_eq!(
        after,
        Balances { reserve_x: 90 * UNIT, reserve_y: 41_379_310_345, supply: 1000 }
    );
}

#[test]
fn swap_of_thirty_against_thirty() {
    let pool = Balances { reserve_x: 30 * UNIT, reserve_y: 30 * UNIT, supply: 1000 };
    let (receipt, after) = pool.swap(1000, true, 30 * UNIT, 6000).unwrap();
    assert_eq!(
        receipt,
        SwapReceipt { paid: 30 * UNIT, fee: 3 * UNIT, received: 14_210_526_315 }
    );
    assert_eq!(
        after,
        Balances { reserve_x: 60 * UNIT, reserve_y: 15_789_473_685, supply: 1000 }
    );
}

#[test]
fn swap_under_the_floor_is_refused() {
    let pool = Balances { reserve_x: 30 * UNIT, reserve_y: 30 * UNIT, supply: 1000 };
    assert_eq!(pool.swap(1000, true, 30 * UNIT, 5000), Err(AmmError::SlippageExceeded));
}

#[test]
fn swap_floor_is_exact() {
    // The ideal output is 1000 and the output 473: a bound of 5260 basis
    // points leaves a floor of 474, one of 5261 a floor of 473.
    let pool = Balances { reserve_x: 1000, reserve_y: 1000, supply: 1 };
    assert_eq!(pool.swap(1000, true, 1000, 5260), Err(AmmError::SlippageExceeded));
    let (receipt, _) = pool.swap(1000, true, 1000, 5261).unwrap();
    assert_eq!(receipt, SwapReceipt { paid: 1000, fee: 100, received: 473 });
}

#[test]
fn swap_runs_both_ways() {
    let pool = Balances { reserve_x: 1_000_000, reserve_y: 4_000_000, supply: 10 };
    let (to_y, after_y) = pool.swap(30, true, 10_000, 10_000).unwrap();
    assert_eq!(to_y, SwapReceipt { paid: 10_000, fee: 30, received: 39_486 });
    assert_eq!(after_y, Balances { reserve_x: 1_010_000, reserve_y: 3_960_514, supply: 10 });
    let (to_x, after_x) = pool.swap(30, false, 10_000, 10_000).unwrap();
    assert_eq!(to_x, SwapReceipt { paid: 10_000, fee: 30, received: 2_486 });
    assert_eq!(after_x, Balances { reserve_x: 997_514, reserve_y: 4_010_000, supply: 10 });
}

#[test]
fn swap_without_fee_pays_the_whole_rule() {
    let pool = Balances { reserve_x: 100, reserve_y: 100, supply: 1 };
    let (receipt, after) = pool.swap(0, true, 100, 10_000).unwrap();
    assert_eq!(receipt, SwapReceipt { paid: 100, fee: 0, received: 50 });
    assert_eq!(after, Balances { reserve_x: 200, reserve_y: 50, supply: 1 });
}

#[test]
fn swap_at_full_fee_pays_nothing() {
    let pool = Balances { reserve_x: 100, reserve_y: 100, supply: 1 };
    let (receipt, after) = pool.swap(10_000, true, 100, 10_000).unwrap();
    assert_eq!(receipt, SwapReceipt { paid: 100, fee: 100, received: 0 });
    assert_eq!(after, Balances { reserve_x: 200, reserve_y: 100, supply: 1 });
}

#[test]
fn swap_never_lowers_the_product() {
    let mut pool = Balances { reserve_x: 123_456_789, reserve_y: 987_654_321, supply: 5 };
    let mut x_to_y = true;
    for amount_in in [1u64, 17, 1_000, 65_537, 12_345_678, 999_999_999] {
        let before = pool.reserve_x as u128 * pool.reserve_y as u128;
        let (_, after) = pool.swap(30, x_to_y, amount_in, 10_000).unwrap();
        assert!(after.reserve_x as u128 * after.reserve_y as u128 >= before);
        assert_eq!(after.supply, pool.supply);
        pool = after;
        x_to_y = !x_to_y;
    }
}

#[test]
fn swap_of_nothing_is_refused() {
    let pool = Balances { reserve_x: 100, reserve_y: 100, supply: 1 };
    assert_eq!(pool.swap(30, true, 0, 10_000), Err(AmmError::ZeroAmount));
}

#[test]
fn swap_against_an_empty_reserve_is_refused() {
    assert_eq!(Balances::empty().swap(30, true, 5, 10_000), Err(AmmError::EmptyReserves));
    let no_x = Balances { reserve_x: 0, reserve_y: 100, supply: 1 };
    assert_eq!(no_x.swap(30, true, 5, 10_000), Err(AmmError::EmptyReserves));
    assert_eq!(no_x.swap(30, false, 5, 10_000), Err(AmmError::EmptyReserves));
}

#[test]
fn swap_that_does_not_fit_is_refused() {
    let pool = Balances { reserve_x: 100, reserve_y: 100, supply: 1 };
    // A fee above the whole is more than what is paid in.
    assert_eq!(pool.swap(20_000, true, 100, 10_000), Err(AmmError::ArithmeticOverflow));
    // A bound above the whole leaves less than no floor.
    assert_eq!(pool.swap(30, true, 100, 10_001), Err(AmmError::ArithmeticOverflow));
    // The vault paid into cannot hold the payment.
    let full = Balances { reserve_x: u64::MAX - 5, reserve_y: 100, supply: 1 };
    assert_eq!(full.swap(30, true, 6, 10_000), Err(AmmError::ArithmeticOverflow));
    // The ideal output is more than any amount.
    let steep = Balances { reserve_x: 1, reserve_y: u64::MAX, supply: 1 };
    assert_eq!(steep.swap(30, true, 2, 10_000), Err(AmmError::ArithmeticOverflow));
}
