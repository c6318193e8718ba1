use ping_thing_client::wallet::{secret_key, secret_key_from_bytes, KeyError, SECRET_KEY_LEN};

#[test]
fn a_secret_key_has_thirty_two_bytes() {
    assert_eq!(SECRET_KEY_LEN, 32);
}

#[test]
fn the_secret_key_is_the_first_half_of_a_key_pair() {
    let pair: Vec<u8> = (0u8..64).collect();
    let key = secret_key_from_bytes(&pair).unwrap();
    let expected: Vec<u8> = (0u8..32).collect();
    assert_eq!(&key[..], &expected[..]);
}

#[test]
fn thirty_two_bytes_are_enough() {
    assert_eq!(secret_key_from_bytes(&vec![9u8; 32]), Ok([9u8; 32]));
}

#[test]
fn fewer_bytes_are_too_few() {
    assert_eq!(secret_key_from_bytes(&vec![9u8; 31]), Err(KeyError::InvalidLength { len: 31 }));
    assert_eq!(secret_key_from_bytes(&vec![]), Err(KeyError::InvalidLength { len: 0 }));
}

#[test]
fn a_key_pair_is_read_from_its_text() {
    let text = "1".repeat(64);
    assert_eq!(secret_key(&text), Ok([0u8; 32]));
    let mut expected = [0u8; 32];
    expected[31] = 1;
    assert_eq!(secret_key("11111111111111111111111111111112"), Ok(expected));
}

#[test]
fn a_short_text_gives_too_few_bytes() {
    assert_eq!(secret_key("he11owor1d"), Err(KeyError::InvalidLength { len: 8 }));
    assert_eq!(secret_key(""), Err(KeyError::InvalidLength { len: 0 }));
}

#[test]
fn a_text_that_is_no_base58_is_refused() {
    assert_eq!(secret_key("not base58!"), Err(KeyError::InvalidEncoding));
    assert_eq!(secret_key("0OIl"), Err(KeyError::InvalidEncoding));
}
