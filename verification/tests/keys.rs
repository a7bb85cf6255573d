//! Key derivation and hexadecimal rendering, against exact expected values.

use token::{auction_status_key, balance_key, cost_key, get_item_owner_key, to_hex_string};

#[test]
fn balance_key_layout() {
    assert_eq!(balance_key([1, 2, 3, 4]), vec![0, 1, 2, 3, 4]);
    assert_eq!(balance_key([-9, 0, 0, 7]), vec![0, -9, 0, 0, 7]);
}

#[test]
fn item_owner_key_layout() {
    assert_eq!(get_item_owner_key(1), vec![1, 1]);
    assert_eq!(get_item_owner_key(-3), vec![1, -3]);
}

#[test]
fn cost_key_layout() {
    assert_eq!(cost_key(1), vec![2, 1]);
}

#[test]
fn auction_status_key_layout() {
    assert_eq!(auction_status_key(1), vec![3, 1]);
}

#[test]
fn keys_are_deterministic() {
    assert_eq!(balance_key([5, 6, 7, 8]), balance_key([5, 6, 7, 8]));
    assert_eq!(cost_key(9), cost_key(9));
}

#[test]
fn keys_of_different_identities_differ() {
    assert_ne!(balance_key([1, 2, 3, 4]), balance_key([1, 2, 3, 5]));
    assert_ne!(get_item_owner_key(1), get_item_owner_key(2));
    assert_ne!(get_item_owner_key(1), cost_key(1));
    assert_ne!(cost_key(1), auction_status_key(1));
    assert_ne!(balance_key([1, 1, 1, 1]), cost_key(1));
}

#[test]
fn hex_of_empty_is_just_the_prefix() {
    assert_eq!(to_hex_string(vec![]), "0x");
}

#[test]
fn hex_of_single_words() {
    assert_eq!(to_hex_string(vec![1]), "0x0000000000000001");
    assert_eq!(to_hex_string(vec![-1]), "0xffffffffffffffff");
    assert_eq!(to_hex_string(vec![0x1234_5678_9abc_def0]), "0x123456789abcdef0");
}

#[test]
fn hex_concatenates_words_big_endian() {
    assert_eq!(
        to_hex_string(vec![1, 2]),
        "0x00000000000000010000000000000002"
    );
    assert_eq!(
        to_hex_string(vec![0, -1, 16, 255]),
        "0x0000000000000000ffffffffffffffff000000000000001000000000000000ff"
    );
}
