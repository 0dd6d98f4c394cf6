use amm::error::AmmError;
use amm::liquidity::{Balances, DepositReceipt, WithdrawReceipt};

fn seeded() -> Balances {
    Balances { reserve_x: 30_000_000, reserve_y: 30_000_000, supply: 1000 }
}

#[test]
fn first_deposit_sets_the_reserves() {
    let empty = Balances::empty();
    assert_eq!(empty, Balances { reserve_x: 0, reserve_y: 0, supply: 0 });
    let (receipt, after) = empty.deposit(1000, 30_000_000, 30_000_000).unwrap();
    assert_eq!(receipt, DepositReceipt { paid_x: 30_000_000, paid_y: 30_000_000, minted: 1000 });
    assert_eq!(after, seeded());
}

#[test]
fn first_deposit_may_set_any_price() {
    let (receipt, after) = Balances::empty().deposit(7, 5, 900).unwrap();
    assert_eq!(receipt, DepositReceipt { paid_x: 5, paid_y: 900, minted: 7 });
    assert_eq!(after, Balances { reserve_x: 5, reserve_y: 900, supply: 7 });
}

#[test]
fn later_deposit_pays_in_proportion() {
    for amount in [1u64, 2, 5, 1000, 33_333] {
        let (receipt, after) = seeded().deposit(amount, u64::MAX, u64::MAX).unwrap();
        assert_eq!(receipt.paid_x, amount * 30_000);
        assert_eq!(receipt.paid_y, amount * 30_000);
        assert_eq!(receipt.minted, amount);
        assert_eq!(after.reserve_x, 30_000_000 + amount * 30_000);
        assert_eq!(after.reserve_y, 30_000_000 + amount * 30_000);
        assert_eq!(after.supply, 1000 + amount);
        assert_eq!(after.reserve_x, after.reserve_y);
    }
}

#[test]
fn later_deposit_rounds_up() {
    let pool = Balances { reserve_x: 10, reserve_y: 7, supply: 3 };
    let (receipt, after) = pool.deposit(1, 100, 100).unwrap();
    assert_eq!(receipt, DepositReceipt { paid_x: 4, paid_y: 3, minted: 1 });
    assert_eq!(after, Balances { reserve_x: 14, reserve_y: 10, supply: 4 });
}

#[test]
fn deposit_keeps_the_ratio_within_rounding() {
    let pool = Balances { reserve_x: 1_000_003, reserve_y: 777, supply: 1234 };
    let (receipt, _) = pool.deposit(55, u64::MAX, u64::MAX).unwrap();
    let cross = receipt.paid_x as i128 * 777 - receipt.paid_y as i128 * 1_000_003;
    assert!(-1_000_003 <= cross && cross <= 777);
    assert!(receipt.paid_x as u128 * 1234 >= 55 * 1_000_003);
    assert!((receipt.paid_x as u128 - 1) * 1234 < 55 * 1_000_003);
}

#[test]
fn deposit_of_no_shares_is_refused() {
    assert_eq!(Balances::empty().deposit(0, 1, 1), Err(AmmError::ZeroAmount));
    assert_eq!(seeded().deposit(0, u64::MAX, u64::MAX), Err(AmmError::ZeroAmount));
}

#[test]
fn deposit_above_the_ceiling_is_refused() {
    assert_eq!(seeded().deposit(5, 149_999, 150_000), Err(AmmError::SlippageExceeded));
    assert_eq!(seeded().deposit(5, 150_000, 149_999), Err(AmmError::SlippageExceeded));
    assert!(seeded().deposit(5, 150_000, 150_000).is_ok());
}

#[test]
fn deposit_that_does_not_fit_is_refused() {
    let pool = Balances { reserve_x: u64::MAX, reserve_y: 1, supply: 1 };
    assert_eq!(pool.deposit(2, u64::MAX, u64::MAX), Err(AmmError::ArithmeticOverflow));
    let full = Balances { reserve_x: u64::MAX - 1, reserve_y: 4, supply: 4 };
    assert_eq!(full.deposit(1, u64::MAX, u64::MAX), Err(AmmError::ArithmeticOverflow));
    let shares = Balances { reserve_x: 1, reserve_y: 1, supply: u64::MAX };
    assert_eq!(shares.deposit(1, 1, 1), Err(AmmError::ArithmeticOverflow));
    let first = Balances { reserve_x: 1, reserve_y: 0, supply: 0 };
    assert_eq!(first.deposit(1, u64::MAX, 0), Err(AmmError::ArithmeticOverflow));
}

#[test]
fn withdrawal_pays_in_proportion() {
    let (receipt, after) = seeded().withdraw(7, 0, 0).unwrap();
    assert_eq!(receipt, WithdrawReceipt { burned: 7, received_x: 210_000, received_y: 210_000 });
    assert_eq!(after, Balances { reserve_x: 29_790_000, reserve_y: 29_790_000, supply: 993 });
}

#[test]
fn withdrawal_rounds_down() {
    let pool = Balances { reserve_x: 10, reserve_y: 7, supply: 3 };
    let (receipt, after) = pool.withdraw(1, 0, 0).unwrap();
    assert_eq!(receipt, WithdrawReceipt { burned: 1, received_x: 3, received_y: 2 });
    assert_eq!(after, Balances { reserve_x: 7, reserve_y: 5, supply: 2 });
}

#[test]
fn withdrawal_of_all_shares_empties_the_pool() {
    let (receipt, after) = seeded().withdraw(1000, 30_000_000, 30_000_000).unwrap();
    assert_eq!(
        receipt,
        WithdrawReceipt { burned: 1000, received_x: 30_000_000, received_y: 30_000_000 }
    );
    assert_eq!(after, Balances::empty());
}

#[test]
fn withdrawal_of_no_shares_is_refused() {
    assert_eq!(seeded().withdraw(0, 0, 0), Err(AmmError::ZeroAmount));
}

#[test]
fn withdrawal_of_more_than_exists_is_refused() {
    assert_eq!(seeded().withdraw(1001, 0, 0), Err(AmmError::InsufficientShares));
    assert_eq!(Balances::empty().withdraw(1, 0, 0), Err(AmmError::InsufficientShares));
}

#[test]
fn withdrawal_under_the_floor_is_refused() {
    assert_eq!(seeded().withdraw(7, 210_001, 0), Err(AmmError::SlippageExceeded));
    assert_eq!(seeded().withdraw(7, 0, 210_001), Err(AmmError::SlippageExceeded));
    assert!(seeded().withdraw(7, 210_000, 210_000).is_ok());
}

#[test]
fn exact_deposit_and_withdrawal_leave_the_pool_as_it_was() {
    let before = seeded();
    let (paid, between) = before.deposit(250, u64::MAX, u64::MAX).unwrap();
    let (got, after) = between.withdraw(250, paid.paid_x, paid.paid_y).unwrap();
    assert_eq!(got.received_x, paid.paid_x);
    assert_eq!(got.received_y, paid.paid_y);
    assert_eq!(got.burned, paid.minted);
    assert_eq!(after, before);
}

#[test]
fn first_deposit_and_withdrawal_leave_the_pool_empty() {
    let (paid, between) = Balances::empty().deposit(9, 1234, 77).unwrap();
    let (got, after) = between.withdraw(9, 1234, 77).unwrap();
    assert_eq!((got.received_x, got.received_y), (paid.paid_x, paid.paid_y));
    assert_eq!(after, Balances::empty());
}

#[test]
fn rounded_deposit_and_withdrawal_leave_dust_in_the_pool() {
    let before = Balances { reserve_x: 1, reserve_y: 6, supply: 3 };
    let (paid, between) = before.deposit(1, 10, 10).unwrap();
    assert_eq!((paid.paid_x, paid.paid_y), (1, 2));
    let (got, after) = between.withdraw(1, 0, 0).unwrap();
    assert_eq!((got.received_x, got.received_y), (0, 2));
    assert_eq!(after, Balances { reserve_x: 2, reserve_y: 6, supply: 3 });
    assert_eq!(between.withdraw(1, 1, 2), Err(AmmError::SlippageExceeded));
}

#[test]
fn liquidity_never_dilutes() {
    let before = Balances { reserve_x: 1_000_003, reserve_y: 777, supply: 1234 };
    let (_, more) = before.deposit(55, u64::MAX, u64::MAX).unwrap();
    assert!(more.reserve_x as u128 * 1234 >= 1_000_003 * more.supply as u128);
    assert!(more.reserve_y as u128 * 1234 >= 777 * more.supply as u128);
    let (_, less) = before.withdraw(55, 0, 0).unwrap();
    assert!(less.reserve_x as u128 * 1234 >= 1_000_003 * less.supply as u128);
    assert!(less.reserve_y as u128 * 1234 >= 777 * less.supply as u128);
}
