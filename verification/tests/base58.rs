use ping_thing_client::base58::{decode_blockhash, hash_from_bytes};

#[test]
fn a_hash_has_thirty_two_bytes() {
    assert_eq!(hash_from_bytes(&vec![7u8; 32]), Some([7u8; 32]));
    assert_eq!(hash_from_bytes(&vec![7u8; 31]), None);
    assert_eq!(hash_from_bytes(&vec![7u8; 33]), None);
    assert_eq!(hash_from_bytes(&vec![]), None);
}

#[test]
fn a_hash_keeps_the_order_of_its_bytes() {
    let bytes: Vec<u8> = (0u8..32).collect();
    let hash = hash_from_bytes(&bytes).unwrap();
    for i in 0..32 {
        assert_eq!(hash[i], i as u8);
    }
}

#[test]
fn thirty_two_ones_are_the_zero_hash() {
    assert_eq!(decode_blockhash("11111111111111111111111111111111"), Some([0u8; 32]));
}

#[test]
fn a_known_address_decodes_to_its_bytes() {
    let mut expected = [0u8; 32];
    expected[31] = 1;
    assert_eq!(decode_blockhash("11111111111111111111111111111112"), Some(expected));
}

#[test]
fn text_of_another_length_is_no_hash() {
    assert_eq!(decode_blockhash("he11owor1d"), None);
    assert_eq!(decode_blockhash(""), None);
    assert_eq!(decode_blockhash("1111111111111111111111111111111"), None);
    assert_eq!(decode_blockhash("111111111111111111111111111111111"), None);
}

#[test]
fn text_outside_the_alphabet_is_no_hash() {
    assert_eq!(decode_blockhash("0111111111111111111111111111111O"), None);
    assert_eq!(decode_blockhash("1111111111111111111111111111111l"), None);
    assert_eq!(decode_blockhash("1111111111111111111111111111111\u{e9}"), None);
}
