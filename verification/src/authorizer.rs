//! Who may release funds. In direct mode the caller is the owner. In signed
//! mode anyone presents a signature of the owner, which releases funds once,
//! because each accepted signature advances the submitter's nonce.

use crate::error::ContractError;
use crate::payload::{build_payload, lemma_payload_binds_nonce, payload_text};
use crate::signature::{same_text, signature_verdict, verify_signature};
use crate::state::NonceTable;
use vstd::prelude::*;

verus! {

/// Direct mode: the caller must be the owner, letter for letter.
pub open spec fn direct_verdict(owner: Seq<char>, caller: Seq<char>) -> Result<(), ContractError> {
    if caller == owner {
        Ok(())
    } else {
        Err(ContractError::Unauthorized {  })
    }
}

/// Authorizes the owner's own call.
pub fn authorize_direct(owner_address: &str, caller: &str) -> (r: Result<(), ContractError>)
    ensures
        r == direct_verdict(owner_address@, caller@),
{
    if same_text(caller, owner_address) {
        Ok(())
    } else {
        Err(ContractError::Unauthorized {  })
    }
}

/// What a verification verdict does to a nonce: an accepted signature
/// advances it by one, anything else leaves it and denies. A verifier's own
/// error is passed on; a signature that is not the owner's, or a nonce that
/// cannot advance, is `Unauthorized`.
pub open spec fn nonce_step(verdict: Result<bool, ContractError>, nonce: u64) -> Result<
    u64,
    ContractError,
> {
    match verdict {
        Err(e) => Err(e),
        Ok(accepted) => if accepted && nonce < u64::MAX {
            Ok((nonce + 1) as u64)
        } else {
            Err(ContractError::Unauthorized {  })
        },
    }
}

/// The verdict on one withdrawal request of a submitter whose nonce is
/// `nonce`: the next nonce, or the reason for denial.
pub open spec fn authorization_verdict(
    nonce: u64,
    owner: Seq<char>,
    recipient: Seq<char>,
    amount: u128,
    signature: Seq<char>,
) -> Result<u64, ContractError> {
    nonce_step(signature_verdict(payload_text(recipient, amount, nonce), signature, owner), nonce)
}

/// An authorized request advances the nonce by exactly one; it never stays
/// and never goes back.
pub proof fn lemma_authorization_advances_by_one(
    nonce: u64,
    owner: Seq<char>,
    recipient: Seq<char>,
    amount: u128,
    signature: Seq<char>,
)
    ensures
        authorization_verdict(nonce, owner, recipient, amount, signature) matches Ok(next)
            ==> next == nonce + 1,
{
}

/// A signature that was accepted once is judged anew when it is presented
/// again: against the payload of the advanced nonce, which is not the payload
/// that it was accepted for.
pub proof fn lemma_replay_is_judged_anew(
    nonce: u64,
    owner: Seq<char>,
    recipient: Seq<char>,
    amount: u128,
    signature: Seq<char>,
)
    requires
        authorization_verdict(nonce, owner, recipient, amount, signature) is Ok,
    ensures
        nonce < u64::MAX,
        authorization_verdict(nonce, owner, recipient, amount, signature) == Ok::<
            u64,
            ContractError,
        >((nonce + 1) as u64),
        payload_text(recipient, amount, (nonce + 1) as u64) != payload_text(
            recipient,
            amount,
            nonce,
        ),
        authorization_verdict((nonce + 1) as u64, owner, recipient, amount, signature)
            == nonce_step(
            signature_verdict(
                payload_text(recipient, amount, (nonce + 1) as u64),
                signature,
                owner,
            ),
            (nonce + 1) as u64,
        ),
{
    lemma_payload_binds_nonce(recipient, amount, (nonce + 1) as u64, nonce);
}

/// Decides from the verifier's verdict whether the nonce advances.
pub fn advance_nonce(verdict: Result<bool, ContractError>, nonce: u64) -> (r: Result<
    u64,
    ContractError,
>)
    ensures
        r == nonce_step(verdict, nonce),
{
    match verdict {
        Err(e) => Err(e),
        Ok(accepted) => {
            if accepted && nonce < u64::MAX {
                Ok(nonce + 1)
            } else {
                Err(ContractError::Unauthorized {  })
            }
        },
    }
}

/// Authorizes sending `amount` to `recipient` for the submitter `caller`:
/// the signature must be the owner's over the payload that holds the
/// submitter's current nonce. On success that nonce has advanced, so the same
/// signature is not accepted from this submitter again; on denial the table
/// is untouched.
pub fn authorize_withdrawal(
    nonces: &mut NonceTable,
    owner_address: &str,
    caller: &str,
    recipient: &str,
    amount: u128,
    signature: &str,
) -> (r: Result<(), ContractError>)
    ensures
        match authorization_verdict(
            old(nonces).nonce_of(caller@),
            owner_address@,
            recipient@,
            amount,
            signature@,
        ) {
            Ok(next) => r == Ok::<(), ContractError>(()) && final(nonces)@ == old(nonces)@.insert(
                caller@,
                next,
            ),
            Err(e) => r == Err::<(), ContractError>(e) && *final(nonces) == *old(nonces),
        },
        forall|a: Seq<char>| final(nonces).nonce_of(a) >= old(nonces).nonce_of(a),
        forall|a: Seq<char>| old(nonces)@.dom().contains(a) ==> final(nonces)@.dom().contains(a),
{
    let nonce: u64 = nonces.load(caller);
    let payload: String = build_payload(recipient, amount, nonce);
    let verdict: Result<bool, ContractError> = verify_signature(
        payload.as_str(),
        signature,
        owner_address,
    );
    match advance_nonce(verdict, nonce) {
        Ok(next) => {
            nonces.save(caller, next);
            Ok(())
        },
        Err(e) => Err(e),
    }
}

} // verus!
