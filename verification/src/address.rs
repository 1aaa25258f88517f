//! Account addresses: from an uncompressed public key to its compressed form,
//! and from a compressed key to the bech32 address text.

use crate::primitives::{
    bech32_encode, bech32_text, hex_bytes, hex_decode, hex_decoded, ripemd160, ripemd160_digest,
    sha256_digest, sha256_hex, valid_hrp,
};
use vstd::prelude::*;

verus! {

/// The human-readable prefix of every account address.
pub const ADDRESS_PREFIX: &'static str = "terra";

/// The SHA-256 digest of `data` as bytes.
pub open spec fn sha256_bytes(data: Seq<u8>) -> Seq<u8> {
    hex_bytes(sha256_hex(data))
}

/// The compressed encoding of an uncompressed 65-byte key: a prefix byte that
/// tells the parity of the key's last byte (`0x02` even, `0x03` odd), then the
/// 32-byte x-coordinate.
pub open spec fn compressed(key: Seq<u8>) -> Seq<u8> {
    seq![if key[64] % 2 == 0 { 2u8 } else { 3u8 }] + key.subrange(1, 33)
}

/// The account address of a compressed public key: the bech32 text of the
/// RIPEMD-160 digest of the key's SHA-256 digest.
pub open spec fn address_text(compressed_key: Seq<u8>) -> Seq<char> {
    bech32_text(ADDRESS_PREFIX@, ripemd160(sha256_bytes(compressed_key)))
}

/// The address prefix is one that bech32 accepts.
pub proof fn lemma_address_prefix_valid()
    ensures
        valid_hrp(ADDRESS_PREFIX@),
        ADDRESS_PREFIX@.len() == 5,
{
    reveal_strlit("terra");
    let p = ADDRESS_PREFIX@;
    assert(p[0] == 't' && p[1] == 'e' && p[2] == 'r' && p[3] == 'r' && p[4] == 'a');
}

/// Deriving the address of one key twice gives the same text twice: whatever
/// two derivations of the address of `key` return, it is the same address.
pub proof fn lemma_address_reproducible(key: Seq<u8>, first: Seq<char>, second: Seq<char>)
    requires
        first == address_text(key),
        second == address_text(key),
    ensures
        first == second,
{
}

/// The SHA-256 digest of `data`, as its 32 bytes.
pub fn sha256(data: &[u8]) -> (digest: Vec<u8>)
    ensures
        digest@ == sha256_bytes(data@),
        digest@.len() == 32,
{
    let text: String = sha256_digest(data);
    assert(hex_decoded(text@) == Some(hex_bytes(text@)));
    hex_decode(text.as_str()).ok().unwrap()
}

/// Compresses an uncompressed public key. Returns `None` unless the key has
/// exactly 65 bytes.
pub fn compress_key(key: &[u8]) -> (r: Option<Vec<u8>>)
    ensures
        r.is_some() == (key@.len() == 65),
        r matches Some(c) ==> c@ == compressed(key@) && c@.len() == 33,
{
    if key.len() != 65 {
        return None;
    }
    let mut out: Vec<u8> = Vec::new();
    if key[64] % 2 == 0 {
        out.push(2u8);
    } else {
        out.push(3u8);
    }
    let mut i: usize = 1;
    while i < 33
        invariant
            key@.len() == 65,
            1 <= i <= 33,
            out@.len() == i,
            out@[0] == compressed(key@)[0],
            forall|j: int| 1 <= j < i ==> out@[j] == key@[j],
        decreases 33 - i,
    {
        out.push(key[i]);
        i = i + 1;
    }
    assert(out@ =~= compressed(key@));
    Some(out)
}

/// The account address of a compressed public key.
pub fn derive_address(compressed_key: &[u8]) -> (address: String)
    ensures
        address@ == address_text(compressed_key@),
{
    let key_hash: Vec<u8> = sha256(compressed_key);
    let digest: Vec<u8> = ripemd160_digest(key_hash.as_slice());
    proof {
        lemma_address_prefix_valid();
    }
    bech32_encode(ADDRESS_PREFIX, digest.as_slice()).ok().unwrap()
}

} // verus!
