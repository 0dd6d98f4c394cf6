use amm::address::Address;
use amm::error::AmmError;
use amm::record::Config;

fn key(n: u8) -> Address {
    Address::new([n; 32])
}

#[test]
fn new_record_is_unlocked() {
    let config = Config::new(42, Some(key(9)), key(1), key(2), 30).unwrap();
    assert_eq!(
        config,
        Config {
            seed: 42,
            authority: Some(key(9)),
            mint_x: key(1),
            mint_y: key(2),
            fee_bps: 30,
            locked: false,
        }
    );
}

#[test]
fn record_of_one_asset_is_refused() {
    assert_eq!(Config::new(42, None, key(1), key(1), 30), Err(AmmError::IdenticalAssets));
    assert_eq!(Config::new(42, None, key(1), key(1), 10_001), Err(AmmError::IdenticalAssets));
}

#[test]
fn record_with_a_fee_above_the_whole_is_refused() {
    assert_eq!(Config::new(42, None, key(1), key(2), 10_001), Err(AmmError::InvalidFee));
    assert_eq!(Config::new(42, None, key(1), key(2), u16::MAX), Err(AmmError::InvalidFee));
    assert!(Config::new(42, None, key(1), key(2), 10_000).is_ok());
    assert!(Config::new(42, None, key(1), key(2), 0).is_ok());
}

#[test]
fn only_the_authority_may_lock() {
    let owned = Config::new(42, Some(key(9)), key(1), key(2), 30).unwrap();
    assert!(owned.may_lock(&key(9)));
    assert!(!owned.may_lock(&key(8)));
    let free = Config::new(42, None, key(1), key(2), 30).unwrap();
    assert!(!free.may_lock(&key(9)));
}

#[test]
fn addresses_compare_by_their_bytes() {
    let mut bytes = [0u8; 32];
    bytes[31] = 1;
    assert_eq!(Address::new(bytes), Address::new(bytes));
    assert_ne!(Address::new(bytes), Address::new([0u8; 32]));
    assert_eq!(Address::new(bytes).to_bytes(), bytes);
    assert_eq!(Address::new(bytes).to_vec(), bytes.to_vec());
}
