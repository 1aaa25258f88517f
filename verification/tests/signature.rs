use bech32::{FromBase32, ToBase32};
use k256::ecdsa::signature::Signer;
use k256::ecdsa::{Signature, SigningKey};
use k256::elliptic_curve::sec1::ToEncodedPoint;
use k256::elliptic_curve::PrimeField;
use k256::{FieldBytes, ProjectivePoint, Scalar};
use lunc_incinerator::address::{compress_key, derive_address, sha256, ADDRESS_PREFIX};
use lunc_incinerator::authorizer::{advance_nonce, authorize_direct, authorize_withdrawal};
use lunc_incinerator::contract::{
    execute, instantiate, Attribute, Coin, MessageInfo, State, Transfer,
};
use lunc_incinerator::error::ContractError;
use lunc_incinerator::msg::{CommunityRole, ExecuteMsg, InstantiateMsg};
use lunc_incinerator::payload::build_payload;
use lunc_incinerator::signature::{
    same_text, verify_signature, verify_signature_bytes, SIGNATURE_LEN,
};
use lunc_incinerator::state::NonceTable;
use ripemd::{Digest, Ripemd160};

fn signing_key(seed: u8) -> SigningKey {
    let mut bytes = [0u8; 32];
    bytes[31] = seed;
    bytes[0] = 1;
    SigningKey::from_slice(&bytes).unwrap()
}

fn compressed_key(key: &SigningKey) -> Vec<u8> {
    key.verifying_key().to_encoded_point(true).as_bytes().to_vec()
}

fn uncompressed_key(key: &SigningKey) -> Vec<u8> {
    key.verifying_key().to_encoded_point(false).as_bytes().to_vec()
}

fn address_of(key: &SigningKey) -> String {
    derive_address(&compressed_key(key))
}

fn sign(key: &SigningKey, payload: &str) -> String {
    let signature: Signature = key.sign(payload.as_bytes());
    hex::encode(signature.to_bytes())
}

fn state_owned_by(owner: &SigningKey) -> State {
    let (state, _) = instantiate(InstantiateMsg {
        stable_denom: "uluna".to_string(),
        community_owner: address_of(owner),
        community_dev: "DEVEL".to_string(),
    });
    state
}

fn info(sender: &str) -> MessageInfo {
    let funds: Vec<Coin> = Vec::new();
    MessageInfo { sender: sender.to_string(), funds }
}

#[test]
fn sha256_of_known_texts() {
    assert_eq!(
        hex::encode(sha256(b"hello")),
        "2cf24dba5fb0a30e26e83b2ac5b9e29e1b161e5c1fa7425e73043362938b9824"
    );
    assert_eq!(
        hex::encode(sha256(b"")),
        "e3b0c44298fc1c149afbf4c8996fb92427ae41e4649b934ca495991b7852b855"
    );
    assert_eq!(sha256(b"abc").len(), 32);
}

#[test]
fn compress_key_keeps_the_x_coordinate() {
    let mut key = vec![0u8; 65];
    key[0] = 4;
    for i in 1..65 {
        key[i] = i as u8;
    }
    let compressed = compress_key(&key).unwrap();
    assert_eq!(compressed.len(), 33);
    assert_eq!(compressed[0], 2);
    assert_eq!(&compressed[1..], &key[1..33]);

    key[64] = 0xff;
    let compressed = compress_key(&key).unwrap();
    assert_eq!(compressed[0], 3);
    assert_eq!(&compressed[1..], &key[1..33]);
}

#[test]
fn compress_key_wants_sixty_five_bytes() {
    assert_eq!(compress_key(&[]), None);
    assert_eq!(compress_key(&[4u8; 64]), None);
    assert_eq!(compress_key(&[4u8; 66]), None);
    assert_eq!(compress_key(&[2u8; 33]), None);
    assert!(compress_key(&[4u8; 65]).is_some());
}

#[test]
fn compress_key_agrees_with_the_curve() {
    for seed in 1u8..20 {
        let key = signing_key(seed);
        assert_eq!(compress_key(&uncompressed_key(&key)).unwrap(), compressed_key(&key));
    }
}

#[test]
fn address_is_reproducible() {
    let key = compressed_key(&signing_key(1));
    let first = derive_address(&key);
    let second = derive_address(&key);
    assert_eq!(first, second);
    assert!(first.starts_with("terra1"));
    assert_eq!(first.len(), 44);
    assert_ne!(first, derive_address(&compressed_key(&signing_key(2))));
}

#[test]
fn address_holds_the_digest_of_the_key() {
    let key = compressed_key(&signing_key(3));
    let address = derive_address(&key);
    let (hrp, data, variant) = bech32::decode(&address).unwrap();
    assert_eq!(hrp, ADDRESS_PREFIX);
    assert_eq!(variant, bech32::Variant::Bech32);
    let digest = Vec::<u8>::from_base32(&data).unwrap();
    assert_eq!(digest.len(), 20);
    assert_eq!(digest, Ripemd160::digest(&sha256(&key)).to_vec());
    assert_eq!(
        address,
        bech32::encode("terra", digest.to_base32(), bech32::Variant::Bech32).unwrap()
    );
}

#[test]
fn same_text_compares_whole_texts() {
    assert!(same_text("", ""));
    assert!(same_text("terra1abc", "terra1abc"));
    assert!(!same_text("terra1abc", "terra1abd"));
    assert!(!same_text("terra1abc", "terra1ab"));
}

#[test]
fn owner_signature_verifies() {
    let owner = signing_key(5);
    let address = address_of(&owner);
    let signature = sign(&owner, "bob|100|0");
    assert_eq!(verify_signature("bob|100|0", &signature, &address), Ok(true));
    assert_eq!(verify_signature("bob|100|0", &signature.to_uppercase(), &address), Ok(true));
}

#[test]
fn every_owner_key_verifies_under_some_parity() {
    for seed in 1u8..16 {
        let owner = signing_key(seed);
        let address = address_of(&owner);
        for payload in ["a|1|0", "bob|100|0", "terra1xyz|340282366920938463463374607431768211455|7"] {
            let signature = sign(&owner, payload);
            assert_eq!(verify_signature(payload, &signature, &address), Ok(true));
        }
    }
}

#[test]
fn signature_over_another_payload_does_not_verify() {
    let owner = signing_key(5);
    let address = address_of(&owner);
    let signature = sign(&owner, "bob|100|0");
    assert_eq!(verify_signature("bob|100|1", &signature, &address), Ok(false));
    assert_eq!(verify_signature("bob|101|0", &signature, &address), Ok(false));
    assert_eq!(verify_signature("eve|100|0", &signature, &address), Ok(false));
}

#[test]
fn signature_of_another_key_does_not_verify() {
    let owner = signing_key(5);
    let stranger = signing_key(6);
    let signature = sign(&stranger, "bob|100|0");
    assert_eq!(verify_signature("bob|100|0", &signature, &address_of(&owner)), Ok(false));
    assert_eq!(verify_signature("bob|100|0", &signature, "OWNER"), Ok(false));
}

#[test]
fn malformed_signature_text_is_a_decode_error() {
    let address = address_of(&signing_key(5));
    let decode_error = Err(ContractError::SignatureDecodeError {});
    assert_eq!(verify_signature("bob|100|0", "zz", &address), decode_error);
    assert_eq!(verify_signature("bob|100|0", "abc", &address), decode_error);
    assert_eq!(verify_signature("bob|100|0", "", &address), decode_error);
    assert_eq!(verify_signature("bob|100|0", &"ab".repeat(63), &address), decode_error);
    assert_eq!(verify_signature("bob|100|0", &"ab".repeat(65), &address), decode_error);
    let good = sign(&signing_key(5), "bob|100|0");
    assert_eq!(verify_signature("bob|100|0", &good[..127], &address), decode_error);
    assert_eq!(verify_signature("bob|100|0", &good[..126], &address), decode_error);
}

#[test]
fn unusable_signature_is_a_recovery_failure() {
    let address = address_of(&signing_key(5));
    assert_eq!(
        verify_signature("bob|100|0", &"00".repeat(64), &address),
        Err(ContractError::RecoveryFailure {})
    );
    assert_eq!(
        verify_signature("bob|100|0", &"ff".repeat(64), &address),
        Err(ContractError::RecoveryFailure {})
    );
}

#[test]
fn signature_bytes_verify_like_their_hex_text() {
    let owner = signing_key(7);
    let address = address_of(&owner);
    let signature: Signature = owner.sign(b"bob|100|0");
    let signature_bytes = signature.to_bytes();
    let bytes: &[u8] = signature_bytes.as_slice();
    assert_eq!(bytes.len(), SIGNATURE_LEN);
    assert_eq!(verify_signature_bytes(b"bob|100|0", bytes, &address), Ok(true));
    assert_eq!(verify_signature_bytes(b"bob|100|1", bytes, &address), Ok(false));
    assert_eq!(
        verify_signature_bytes(b"bob|100|0", &bytes[..63], &address),
        Err(ContractError::SignatureDecodeError {})
    );
    assert_eq!(
        verify_signature_bytes(b"bob|100|0", &[], &address),
        Err(ContractError::SignatureDecodeError {})
    );
    assert_eq!(
        verify_signature_bytes(b"bob|100|0", &[0u8; 64], &address),
        Err(ContractError::RecoveryFailure {})
    );
    let mut flipped = bytes.to_vec();
    flipped[40] ^= 1;
    assert_ne!(verify_signature_bytes(b"bob|100|0", &flipped, &address), Ok(true));
}

#[test]
fn payload_in_other_scripts_is_signed_as_utf8() {
    let owner = signing_key(8);
    let address = address_of(&owner);
    let payload = build_payload("b\u{f6}b", 3, 0);
    assert_eq!(payload, "b\u{f6}b|3|0");
    let signature = sign(&owner, &payload);
    assert_eq!(verify_signature(&payload, &signature, &address), Ok(true));
    assert_eq!(verify_signature("bob|3|0", &signature, &address), Ok(false));
}

#[test]
fn direct_mode_serves_the_owner_alone() {
    assert_eq!(authorize_direct("OWNER", "OWNER"), Ok(()));
    assert_eq!(authorize_direct("OWNER", "USER"), Err(ContractError::Unauthorized {}));
    assert_eq!(authorize_direct("OWNER", "owner"), Err(ContractError::Unauthorized {}));
    assert_eq!(authorize_direct("OWNER", ""), Err(ContractError::Unauthorized {}));
}

/// A signature that nobody needs a key for: `r` is the x-coordinate of the
/// generator and `s` is the payload's digest, so the point that recovery
/// arrives at is the neutral point, which is no public key.
fn keyless_signature(payload: &str) -> Vec<u8> {
    let generator = ProjectivePoint::GENERATOR.to_affine().to_encoded_point(false);
    let mut signature = generator.x().unwrap().to_vec();
    signature.extend_from_slice(&sha256(payload.as_bytes()));
    signature
}

#[test]
fn keyless_signature_recovers_the_neutral_point() {
    let signature = keyless_signature("bob|100|0");
    assert_eq!(signature.len(), SIGNATURE_LEN);
    let r = Option::<Scalar>::from(Scalar::from_repr(*FieldBytes::from_slice(&signature[..32])))
        .unwrap();
    let s = Option::<Scalar>::from(Scalar::from_repr(*FieldBytes::from_slice(&signature[32..])))
        .unwrap();
    let z = Option::<Scalar>::from(Scalar::from_repr(*FieldBytes::from_slice(&sha256(
        b"bob|100|0",
    ))))
    .unwrap();
    let r_inv = Option::<Scalar>::from(r.invert()).unwrap();
    let recovered = ProjectivePoint::GENERATOR * (-(r_inv * z))
        + ProjectivePoint::GENERATOR * (r_inv * s);
    assert_eq!(recovered, ProjectivePoint::IDENTITY);
}

#[test]
fn keyless_signature_is_a_recovery_failure() {
    let address = address_of(&signing_key(5));
    for payload in ["bob|100|0", "bob|7|0", "bob|100|1", "eve|340282366920938463463374607431768211455|9"] {
        let signature = keyless_signature(payload);
        assert_eq!(
            verify_signature_bytes(payload.as_bytes(), &signature, &address),
            Err(ContractError::RecoveryFailure {})
        );
        assert_eq!(
            verify_signature(payload, &hex::encode(&signature), &address),
            Err(ContractError::RecoveryFailure {})
        );
    }
}

#[test]
fn keyless_signature_withdraws_nothing() {
    let owner = signing_key(9);
    let mut state = state_owned_by(&owner);
    let signature = hex::encode(keyless_signature(&build_payload("bob", 100, 0)));
    let msg = ExecuteMsg::Withdraw {
        recipient: "bob".to_string(),
        amount: 100,
        signature: Some(signature.clone()),
    };
    let e = execute(&mut state, &info("USER"), msg).unwrap_err();
    assert_eq!(e, ContractError::RecoveryFailure {});
    assert_eq!(state.nonces.load("USER"), 0);

    let mut nonces = NonceTable::new();
    assert_eq!(
        authorize_withdrawal(&mut nonces, &address_of(&owner), "USER", "bob", 100, &signature),
        Err(ContractError::RecoveryFailure {})
    );
    assert_eq!(nonces.load("USER"), 0);
}

#[test]
fn advance_nonce_follows_the_verdict() {
    assert_eq!(advance_nonce(Ok(true), 0), Ok(1));
    assert_eq!(advance_nonce(Ok(true), 41), Ok(42));
    assert_eq!(advance_nonce(Ok(false), 7), Err(ContractError::Unauthorized {}));
    assert_eq!(advance_nonce(Ok(true), u64::MAX), Err(ContractError::Unauthorized {}));
    assert_eq!(advance_nonce(Ok(true), u64::MAX - 1), Ok(u64::MAX));
    assert_eq!(
        advance_nonce(Err(ContractError::RecoveryFailure {}), 3),
        Err(ContractError::RecoveryFailure {})
    );
    assert_eq!(
        advance_nonce(Err(ContractError::SignatureDecodeError {}), 3),
        Err(ContractError::SignatureDecodeError {})
    );
}

#[test]
fn owner_signature_succeeds_exactly_once() {
    let owner = signing_key(9);
    let mut state = state_owned_by(&owner);
    let signature = sign(&owner, &build_payload("bob", 100, 0));
    let msg = ExecuteMsg::Withdraw {
        recipient: "bob".to_string(),
        amount: 100,
        signature: Some(signature),
    };

    let res = execute(&mut state, &info("USER"), msg.clone()).unwrap();
    assert_eq!(
        res.attributes,
        vec![Attribute { key: "method".to_string(), value: "withdraw".to_string() }]
    );
    assert_eq!(
        res.messages,
        vec![Transfer { to_address: "bob".to_string(), denom: "uluna".to_string(), amount: 100 }]
    );
    assert_eq!(state.nonces.load("USER"), 1);

    let e = execute(&mut state, &info("USER"), msg).unwrap_err();
    assert_eq!(e, ContractError::Unauthorized {});
    assert_eq!(state.nonces.load("USER"), 1);
}

#[test]
fn next_withdrawal_needs_the_next_nonce() {
    let owner = signing_key(9);
    let mut state = state_owned_by(&owner);
    for nonce in 0u64..3 {
        assert_eq!(state.nonces.load("USER"), nonce);
        let signature = sign(&owner, &build_payload("bob", 5, nonce));
        let msg = ExecuteMsg::Withdraw {
            recipient: "bob".to_string(),
            amount: 5,
            signature: Some(signature),
        };
        execute(&mut state, &info("USER"), msg).unwrap();
    }
    assert_eq!(state.nonces.load("USER"), 3);
}

#[test]
fn nonce_belongs_to_the_submitter() {
    let owner = signing_key(9);
    let mut state = state_owned_by(&owner);
    let signature = sign(&owner, "bob|100|0");
    let msg = ExecuteMsg::Withdraw {
        recipient: "bob".to_string(),
        amount: 100,
        signature: Some(signature),
    };
    execute(&mut state, &info("USER"), msg.clone()).unwrap();
    execute(&mut state, &info("OTHER"), msg.clone()).unwrap();
    assert_eq!(state.nonces.load("USER"), 1);
    assert_eq!(state.nonces.load("OTHER"), 1);
    assert_eq!(state.nonces.load("THIRD"), 0);
    assert_eq!(
        execute(&mut state, &info("OTHER"), msg).unwrap_err(),
        ContractError::Unauthorized {}
    );
}

#[test]
fn denied_withdrawal_leaves_the_nonce() {
    let owner = signing_key(9);
    let stranger = signing_key(10);
    let mut state = state_owned_by(&owner);
    let withdraw = |signature: String| ExecuteMsg::Withdraw {
        recipient: "bob".to_string(),
        amount: 100,
        signature: Some(signature),
    };

    let e = execute(&mut state, &info("USER"), withdraw(sign(&stranger, "bob|100|0")));
    assert_eq!(e.unwrap_err(), ContractError::Unauthorized {});
    let e = execute(&mut state, &info("USER"), withdraw(sign(&owner, "bob|100|1")));
    assert_eq!(e.unwrap_err(), ContractError::Unauthorized {});
    let e = execute(&mut state, &info("USER"), withdraw("nothex".to_string()));
    assert_eq!(e.unwrap_err(), ContractError::SignatureDecodeError {});
    let e = execute(&mut state, &info("USER"), withdraw("00".repeat(64)));
    assert_eq!(e.unwrap_err(), ContractError::RecoveryFailure {});
    assert_eq!(state.nonces.load("USER"), 0);

    execute(&mut state, &info("USER"), withdraw(sign(&owner, "bob|100|0"))).unwrap();
    assert_eq!(state.nonces.load("USER"), 1);
}

#[test]
fn withdrawal_of_zero_is_authorized_like_any_other() {
    let owner = signing_key(11);
    let mut nonces = NonceTable::new();
    let address = address_of(&owner);
    let signature = sign(&owner, "bob|0|0");
    assert_eq!(authorize_withdrawal(&mut nonces, &address, "USER", "bob", 0, &signature), Ok(()));
    assert_eq!(nonces.load("USER"), 1);
    assert_eq!(
        authorize_withdrawal(&mut nonces, &address, "USER", "bob", 0, &signature),
        Err(ContractError::Unauthorized {})
    );
    assert_eq!(nonces.load("USER"), 1);
}

#[test]
fn exhausted_nonce_denies() {
    let owner = signing_key(11);
    let mut nonces = NonceTable::new();
    nonces.save("USER", u64::MAX);
    let address = address_of(&owner);
    let signature = sign(&owner, &build_payload("bob", 1, u64::MAX));
    assert_eq!(
        authorize_withdrawal(&mut nonces, &address, "USER", "bob", 1, &signature),
        Err(ContractError::Unauthorized {})
    );
    assert_eq!(nonces.load("USER"), u64::MAX);
}

#[test]
fn new_owner_does_not_reset_nonces() {
    let owner = signing_key(12);
    let heir = signing_key(13);
    let mut state = state_owned_by(&owner);
    let withdraw = |signature: String| ExecuteMsg::Withdraw {
        recipient: "bob".to_string(),
        amount: 1,
        signature: Some(signature),
    };
    execute(&mut state, &info("USER"), withdraw(sign(&owner, "bob|1|0"))).unwrap();

    let change = ExecuteMsg::ChangeCommunityInfo {
        role: CommunityRole::Owner {},
        value: address_of(&heir),
    };
    execute(&mut state, &info(&address_of(&owner)), change).unwrap();
    assert_eq!(state.nonces.load("USER"), 1);

    let e = execute(&mut state, &info("USER"), withdraw(sign(&owner, "bob|1|1")));
    assert_eq!(e.unwrap_err(), ContractError::Unauthorized {});
    let e = execute(&mut state, &info("USER"), withdraw(sign(&heir, "bob|1|0")));
    assert_eq!(e.unwrap_err(), ContractError::Unauthorized {});
    execute(&mut state, &info("USER"), withdraw(sign(&heir, "bob|1|1"))).unwrap();
    assert_eq!(state.nonces.load("USER"), 2);
}
