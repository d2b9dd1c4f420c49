use nft_ledger::token_id::TokenId;

#[test]
fn counting_starts_at_zero() {
    assert_eq!(TokenId::zero(), TokenId([0, 0, 0, 0]));
    assert_eq!(TokenId::one(), TokenId([1, 0, 0, 0]));
    assert_eq!(TokenId::from_u64(77), TokenId([77, 0, 0, 0]));
}

#[test]
fn increment_adds_one() {
    assert_eq!(TokenId::zero().saturating_increment(), TokenId::one());
    assert_eq!(TokenId::from_u64(41).saturating_increment(), TokenId::from_u64(42));
}

#[test]
fn increment_carries_into_the_next_word() {
    assert_eq!(TokenId([u64::MAX, 0, 0, 0]).saturating_increment(), TokenId([0, 1, 0, 0]));
    assert_eq!(TokenId([u64::MAX, u64::MAX, 0, 0]).saturating_increment(), TokenId([0, 0, 1, 0]));
    assert_eq!(TokenId([u64::MAX, u64::MAX, u64::MAX, 5]).saturating_increment(), TokenId([0, 0, 0, 6]));
}

#[test]
fn increment_stays_at_the_largest() {
    let largest = TokenId([u64::MAX; 4]);
    assert_eq!(largest.saturating_increment(), largest);
    assert_eq!(TokenId([u64::MAX - 1, u64::MAX, u64::MAX, u64::MAX]).saturating_increment(), largest);
}

#[test]
fn increment_agrees_with_the_number_crate() {
    for words in [[0u64, 0, 0, 0], [u64::MAX, 3, 0, 9], [u64::MAX, u64::MAX, u64::MAX, 0], [u64::MAX; 4]] {
        let expected = primitive_types::U256(words).saturating_add(primitive_types::U256::one());
        assert_eq!(TokenId(words).saturating_increment().0, expected.0);
    }
}

#[test]
fn equality_looks_at_every_word() {
    assert_eq!(TokenId([1, 2, 3, 4]), TokenId([1, 2, 3, 4]));
    assert_ne!(TokenId([1, 2, 3, 4]), TokenId([1, 2, 3, 5]));
    assert_ne!(TokenId([1, 2, 3, 4]), TokenId([0, 2, 3, 4]));
}
