use primitive_types::U256;
use sv2_router::target::hash_rate_to_target;

fn target(hashes: u128) -> U256 {
    U256::from_little_endian(&hash_rate_to_target(hashes))
}

#[test]
fn no_hashes_give_the_easiest_target() {
    assert_eq!(hash_rate_to_target(0), [255u8; 32]);
}

#[test]
fn one_hash_gives_half_of_it() {
    // (2^256 - 2) / 2
    let mut expected = [255u8; 32];
    expected[31] = 127;
    assert_eq!(hash_rate_to_target(1), expected);
}

#[test]
fn two_hashes_give_a_third_of_it() {
    // (2^256 - 3) / 3
    let mut expected = [85u8; 32];
    expected[0] = 84;
    assert_eq!(hash_rate_to_target(2), expected);
}

#[test]
fn the_most_hashes_divide_by_themselves() {
    // (2^256 - 2^128) / (2^128 - 1) = 2^128
    assert_eq!(target(u128::MAX), U256::one() << 128);
}

#[test]
fn more_hashes_give_a_harder_target() {
    let mut last = target(0);
    for hashes in [1, 2, 3, 1_000, 1_000_000_000_000, u128::MAX - 1, u128::MAX] {
        let next = target(hashes);
        assert!(next <= last);
        last = next;
    }
}
