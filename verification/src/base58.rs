//! Base58 text, as the network writes signatures, addresses and block hashes.
//!
//! The conversion itself is done by the `bs58` crate. What it computes is not
//! restated here: the two spec functions below only name its results, so that
//! contracts elsewhere in the crate can refer to them.

use vstd::prelude::*;

verus! {

/// The Base58 text (Bitcoin alphabet) that `bs58` produces for `bytes`.
pub uninterp spec fn base58_text(bytes: Seq<u8>) -> Seq<char>;

/// The bytes that `bs58` reads out of `text` (Bitcoin alphabet), or `None`
/// where it rejects the text.
pub uninterp spec fn base58_bytes(text: Seq<char>) -> Option<Seq<u8>>;

/// Makes `bs58::decode::Error` known as a type. Nothing is stated of what
/// an error holds: it is only told apart from success.
#[verifier::external_type_specification]
#[verifier::external_body]
pub struct ExDecodeError(bs58::decode::Error);

/// Calls `bs58::encode(..).into_string()`. Trusted: the result is the text
/// that [`base58_text`] names; the call accepts every byte string.
#[verifier::external_body]
pub(crate) fn encode_base58(bytes: &Vec<u8>) -> (text: String)
    ensures
        text@ == base58_text(bytes@),
{
    bs58::encode(bytes).into_string()
}

/// Calls `bs58::decode(..).into_vec()`. Trusted: it returns `Ok` with the
/// bytes that [`base58_bytes`] names, and an error exactly where that is
/// `None`; the call accepts every text.
#[verifier::external_body]
pub(crate) fn decode_base58(text: &str) -> (decoded: Result<Vec<u8>, bs58::decode::Error>)
    ensures
        match decoded {
            Ok(bytes) => base58_bytes(text@) == Some(bytes@),
            Err(_) => base58_bytes(text@) is None,
        },
{
    bs58::decode(text).into_vec()
}

/// Copies `bytes` into a hash; `None` unless there are exactly 32 of them.
pub fn hash_from_bytes(bytes: &Vec<u8>) -> (hash: Option<[u8; 32]>)
    ensures
        hash is Some <==> bytes@.len() == 32,
        hash matches Some(h) ==> h@ == bytes@,
{
    if bytes.len() != 32 {
        return None;
    }
    let mut h = [0u8; 32];
    let mut i: usize = 0;
    while i < 32
        invariant
            i <= 32,
            bytes@.len() == 32,
            forall|k: int| 0 <= k < i ==> h@[k] == bytes@[k],
        decreases 32 - i,
    {
        h[i] = bytes[i];
        i += 1;
    }
    assert(h@ =~= bytes@);
    Some(h)
}

/// Reads a block hash from its Base58 text: `Some` exactly when the text
/// decodes to 32 bytes, and then those bytes.
pub fn decode_blockhash(text: &str) -> (hash: Option<[u8; 32]>)
    ensures
        hash is Some <==> (base58_bytes(text@) matches Some(b) && b.len() == 32),
        hash matches Some(h) ==> base58_bytes(text@) == Some(h@),
{
    match decode_base58(text) {
        Ok(bytes) => hash_from_bytes(&bytes),
        Err(_) => None,
    }
}

} // verus!
