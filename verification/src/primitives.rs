//! The outside primitives that the signature protocol rests on: hex text,
//! SHA-256, RIPEMD-160, bech32 and secp256k1 key recovery. Each function here
//! makes one outside call; its contract is taken on trust and is what the rest
//! of the library is proved from.

use bech32::ToBase32;
use ripemd::{Digest, Ripemd160};
use vstd::prelude::*;

verus! {

/// The value of one hexadecimal digit, in either case; `None` for any other
/// character.
pub open spec fn hex_digit_value(c: char) -> Option<u8> {
    let v = c as u32;
    if 0x30 <= v <= 0x39 {
        Some((v - 0x30) as u8)
    } else if 0x41 <= v <= 0x46 {
        Some((v - 0x41 + 10) as u8)
    } else if 0x61 <= v <= 0x66 {
        Some((v - 0x61 + 10) as u8)
    } else {
        None
    }
}

/// Text that stands for bytes: an even number of hexadecimal digits.
pub open spec fn is_hex_text(text: Seq<char>) -> bool {
    &&& text.len() % 2 == 0
    &&& forall|i: int| 0 <= i < text.len() ==> hex_digit_value(#[trigger] text[i]).is_some()
}

/// The bytes that hex text stands for, two digits to a byte, high digit first.
pub open spec fn hex_bytes(text: Seq<char>) -> Seq<u8> {
    Seq::new(
        text.len() / 2,
        |i: int|
            (hex_digit_value(text[2 * i]).unwrap() * 16 + hex_digit_value(
                text[2 * i + 1],
            ).unwrap()) as u8,
    )
}

/// What decoding hex text yields: its bytes, or nothing where it is malformed.
pub open spec fn hex_decoded(text: Seq<char>) -> Option<Seq<u8>> {
    if is_hex_text(text) {
        Some(hex_bytes(text))
    } else {
        None
    }
}

/// The lower-case hex text of the SHA-256 digest of `data`.
pub uninterp spec fn sha256_hex(data: Seq<u8>) -> Seq<char>;

/// The RIPEMD-160 digest of `data`.
pub uninterp spec fn ripemd160(data: Seq<u8>) -> Seq<u8>;

/// The bech32 text of `data` under the human-readable prefix `hrp`, in the
/// `Bech32` variant of the checksum.
pub uninterp spec fn bech32_text(hrp: Seq<char>, data: Seq<u8>) -> Seq<char>;

/// The uncompressed secp256k1 public key that a compact signature over a
/// message hash determines for one recovery parity, if there is one.
pub uninterp spec fn recovered_key(hash: Seq<u8>, signature: Seq<u8>, parity: u8) -> Option<
    Seq<u8>,
>;

/// A prefix that bech32 accepts: 1 to 83 printable ASCII characters, not
/// mixing upper and lower case.
pub open spec fn valid_hrp(hrp: Seq<char>) -> bool {
    &&& 1 <= hrp.len() <= 83
    &&& forall|i: int| 0 <= i < hrp.len() ==> 33 <= (#[trigger] hrp[i]) as u32 <= 126
    &&& !({
        &&& exists|i: int| 0 <= i < hrp.len() && 0x61 <= (#[trigger] hrp[i]) as u32 <= 0x7a
        &&& exists|j: int| 0 <= j < hrp.len() && 0x41 <= (#[trigger] hrp[j]) as u32 <= 0x5a
    })
}

/// The error of `hex::decode`, carried through unread.
#[verifier::external_type_specification]
#[verifier::external_body]
pub struct ExFromHexError(hex::FromHexError);

/// The error of `bech32::encode`, carried through unread.
#[verifier::external_type_specification]
#[verifier::external_body]
pub struct ExBech32Error(bech32::Error);

/// The error of `cosmwasm_crypto::secp256k1_recover_pubkey`, carried through
/// unread.
#[verifier::external_type_specification]
#[verifier::external_body]
pub struct ExCryptoError(cosmwasm_crypto::CryptoError);

/// Calls `hex::decode`. Trusted: the call succeeds exactly on an even number
/// of hexadecimal digits and then returns the bytes they stand for.
#[verifier::external_body]
pub(crate) fn hex_decode(text: &str) -> (r: Result<Vec<u8>, hex::FromHexError>)
    ensures
        match r {
            Ok(bytes) => hex_decoded(text@) == Some(bytes@),
            Err(_) => hex_decoded(text@).is_none(),
        },
{
    hex::decode(text)
}

/// Calls `sha256::digest`. Trusted: the result depends on the bytes alone and
/// is the digest's 32 bytes written as 64 hexadecimal digits.
#[verifier::external_body]
pub(crate) fn sha256_digest(data: &[u8]) -> (r: String)
    ensures
        r@ == sha256_hex(data@),
        r@.len() == 64,
        is_hex_text(r@),
{
    sha256::digest(data)
}

/// Calls `Ripemd160::digest` of the `ripemd` crate. Trusted: the result depends on the
/// bytes alone and is 20 bytes long.
#[verifier::external_body]
pub(crate) fn ripemd160_digest(data: &[u8]) -> (r: Vec<u8>)
    ensures
        r@ == ripemd160(data@),
        r@.len() == 20,
{
    Ripemd160::digest(data).to_vec()
}

/// Calls `bech32::encode` with the `Bech32` variant on the bytes regrouped by
/// `ToBase32::to_base32`. Trusted: the call fails exactly where the prefix is
/// not one that bech32 accepts, and otherwise its text depends on the prefix
/// and the bytes alone.
#[verifier::external_body]
pub(crate) fn bech32_encode(hrp: &str, data: &[u8]) -> (r: Result<String, bech32::Error>)
    ensures
        r.is_ok() == valid_hrp(hrp@),
        r matches Ok(text) ==> text@ == bech32_text(hrp@, data@),
{
    bech32::encode(hrp, data.to_base32(), bech32::Variant::Bech32)
}

/// Calls `cosmwasm_crypto::secp256k1_recover_pubkey`. Trusted: the call
/// returns on every input; whether a key comes back, and which, depends on
/// the three arguments alone; and a key that comes back is in the
/// uncompressed 65-byte encoding. A hash that is not 32 bytes, a signature
/// that is not 64 bytes or holds a scalar out of range, a parity other than 0
/// and 1, and a recovery that arrives at no point or at the neutral point
/// all come back as the error.
#[verifier::external_body]
pub(crate) fn recover_key(hash: &[u8], signature: &[u8], parity: u8) -> (r: Result<
    Vec<u8>,
    cosmwasm_crypto::CryptoError,
>)
    ensures
        match r {
            Ok(key) => recovered_key(hash@, signature@, parity) == Some(key@) && key@.len() == 65,
            Err(_) => recovered_key(hash@, signature@, parity).is_none(),
        },
{
    cosmwasm_crypto::secp256k1_recover_pubkey(hash, signature, parity)
}

} // verus!
