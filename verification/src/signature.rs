//! The signature verifier: does a detached signature over a payload come from
//! the key behind a given address?

use crate::address::{
    address_text, compress_key, compressed, derive_address, sha256, sha256_bytes,
};
use crate::error::ContractError;
use crate::primitives::{hex_decode, hex_decoded, recover_key, recovered_key};
use vstd::prelude::*;
use vstd::utf8::encode_utf8;

verus! {

/// The length in bytes of a compact `r || s` signature.
pub const SIGNATURE_LEN: usize = 64;

/// The address of the key that `signature` over `hash` determines for one
/// recovery parity, or nothing where no key can be recovered.
pub open spec fn candidate_address(hash: Seq<u8>, signature: Seq<u8>, parity: u8) -> Option<
    Seq<char>,
> {
    match recovered_key(hash, signature, parity) {
        Some(key) => Some(address_text(compressed(key))),
        None => None,
    }
}

/// What the two candidates decide. Parity 0 is looked at first, and a match
/// there ends the search; a parity for which no key can be recovered ends it
/// with `RecoveryFailure`.
pub open spec fn candidates_verdict(
    first: Option<Seq<char>>,
    second: Option<Seq<char>>,
    owner: Seq<char>,
) -> Result<bool, ContractError> {
    match first {
        None => Err(ContractError::RecoveryFailure {  }),
        Some(a0) => if a0 == owner {
            Ok(true)
        } else {
            match second {
                None => Err(ContractError::RecoveryFailure {  }),
                Some(a1) => Ok(a1 == owner),
            }
        },
    }
}

/// The verdict on a signature given as bytes: `SignatureDecodeError` unless
/// it has 64 bytes, else what the candidates of both parities decide for the
/// SHA-256 digest of the payload.
pub open spec fn bytes_verdict(payload: Seq<u8>, signature: Seq<u8>, owner: Seq<char>) -> Result<
    bool,
    ContractError,
> {
    if signature.len() != SIGNATURE_LEN {
        Err(ContractError::SignatureDecodeError {  })
    } else {
        let hash = sha256_bytes(payload);
        candidates_verdict(
            candidate_address(hash, signature, 0),
            candidate_address(hash, signature, 1),
            owner,
        )
    }
}

/// The verdict on a signature given as hex text over a payload given as
/// text: `SignatureDecodeError` where the signature is not hex text, else the
/// verdict on its bytes over the payload's UTF-8 bytes.
pub open spec fn signature_verdict(
    payload: Seq<char>,
    signature: Seq<char>,
    owner: Seq<char>,
) -> Result<bool, ContractError> {
    match hex_decoded(signature) {
        None => Err(ContractError::SignatureDecodeError {  }),
        Some(bytes) => bytes_verdict(encode_utf8(payload), bytes, owner),
    }
}

/// Equality of two texts.
pub fn same_text(a: &str, b: &str) -> (r: bool)
    ensures
        r == (a@ == b@),
{
    let left: String = a.to_owned();
    let right: String = b.to_owned();
    left == right
}

/// Checks that `signature`, a compact `r || s` signature over the SHA-256
/// digest of `payload`, was made with the key whose address is
/// `owner_address`. The recovery parity is not part of the signature, so both
/// are tried, 0 first, and the first match ends the search.
pub fn verify_signature_bytes(payload: &[u8], signature: &[u8], owner_address: &str) -> (r: Result<
    bool,
    ContractError,
>)
    ensures
        r == bytes_verdict(payload@, signature@, owner_address@),
{
    if signature.len() != SIGNATURE_LEN {
        return Err(ContractError::SignatureDecodeError {  });
    }
    let hash: Vec<u8> = sha256(payload);
    let mut parity: u8 = 0;
    while parity < 2
        invariant
            parity <= 2,
            hash@ == sha256_bytes(payload@),
            signature@.len() == SIGNATURE_LEN,
            forall|p: u8|
                p < parity ==> (#[trigger] candidate_address(hash@, signature@, p) matches Some(a)
                    && a != owner_address@),
        decreases 2 - parity,
    {
        let key: Vec<u8> = match recover_key(hash.as_slice(), signature, parity) {
            Ok(key) => key,
            Err(_) => {
                return Err(ContractError::RecoveryFailure {  });
            },
        };
        let compressed_key: Option<Vec<u8>> = compress_key(key.as_slice());
        let address: String = derive_address(compressed_key.unwrap().as_slice());
        if same_text(address.as_str(), owner_address) {
            return Ok(true);
        }
        parity = parity + 1;
    }
    Ok(false)
}

/// Checks a signature given as hex text over a payload given as text: the
/// signature is decoded, and its bytes are checked over the payload's UTF-8
/// bytes.
pub fn verify_signature(payload: &str, signature: &str, owner_address: &str) -> (r: Result<
    bool,
    ContractError,
>)
    ensures
        r == signature_verdict(payload@, signature@, owner_address@),
{
    match hex_decode(signature) {
        Ok(bytes) => verify_signature_bytes(payload.as_bytes(), bytes.as_slice(), owner_address),
        Err(_) => Err(ContractError::SignatureDecodeError {  }),
    }
}

} // verus!
