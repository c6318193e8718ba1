//! The wallet's secret key, read from the Base58 text of a key pair.

use crate::base58::{base58_bytes, decode_base58};
use vstd::prelude::*;

verus! {

/// The length of a secret key, in bytes.
pub const SECRET_KEY_LEN: usize = 32;

/// Why a text gives no secret key.
#[derive(Clone, Copy, Debug, PartialEq, Eq, Structural)]
pub enum KeyError {
    /// The text is no Base58.
    InvalidEncoding,
    /// The text decodes to fewer bytes than a secret key has.
    InvalidLength { len: usize },
}

/// The secret key in the bytes of a key pair: the first 32 of them.
pub open spec fn secret_key_of(bytes: Seq<u8>) -> Result<Seq<u8>, KeyError> {
    if bytes.len() < SECRET_KEY_LEN {
        Err(KeyError::InvalidLength { len: bytes.len() as usize })
    } else {
        Ok(bytes.subrange(0, SECRET_KEY_LEN as int))
    }
}

/// Takes the secret key from the bytes of a key pair, which holds the secret
/// key first and the public key behind it.
pub fn secret_key_from_bytes(bytes: &Vec<u8>) -> (key: Result<[u8; 32], KeyError>)
    ensures
        match key {
            Ok(k) => secret_key_of(bytes@) == Ok::<Seq<u8>, KeyError>(k@),
            Err(e) => secret_key_of(bytes@) == Err::<Seq<u8>, KeyError>(e),
        },
{
    if bytes.len() < SECRET_KEY_LEN {
        return Err(KeyError::InvalidLength { len: bytes.len() });
    }
    let mut key = [0u8; 32];
    let mut i: usize = 0;
    while i < SECRET_KEY_LEN
        invariant
            i <= SECRET_KEY_LEN,
            bytes@.len() >= SECRET_KEY_LEN,
            forall|k: int| 0 <= k < i ==> key@[k] == bytes@[k],
        decreases SECRET_KEY_LEN - i,
    {
        key[i] = bytes[i];
        i += 1;
    }
    assert(key@ =~= bytes@.subrange(0, SECRET_KEY_LEN as int));
    Ok(key)
}

/// Reads the secret key from the Base58 text of a key pair.
pub fn secret_key(text: &str) -> (key: Result<[u8; 32], KeyError>)
    ensures
        match base58_bytes(text@) {
            Some(bytes) => match key {
                Ok(k) => secret_key_of(bytes) == Ok::<Seq<u8>, KeyError>(k@),
                Err(e) => secret_key_of(bytes) == Err::<Seq<u8>, KeyError>(e),
            },
            None => key == Err::<[u8; 32], KeyError>(KeyError::InvalidEncoding),
        },
{
    match decode_base58(text) {
        Ok(bytes) => secret_key_from_bytes(&bytes),
        Err(_) => Err(KeyError::InvalidEncoding),
    }
}

} // verus!
