//! The ways an operation can be refused.

use vstd::prelude::*;

verus! {

/// Why a call was denied. A denied call changes nothing.
#[derive(Clone, Debug, PartialEq, Eq)]
pub enum ContractError {
    /// The host's persistent store failed; `reason` is its message.
    Std { reason: String },
    /// The caller does not hold the role, or the signature is not the owner's.
    Unauthorized {},
    /// A deposit arrived without funds.
    NotReceivedFunds {},
    /// A deposit of amount zero.
    NotAllowZeroAmount {},
    /// A deposit in an asset other than the accepted one.
    NotAllowedDenom { denom: String },
    /// A deposit of more than one asset.
    NotAllowedMultipleDenoms {},
    /// The signature is not hex text of 64 bytes.
    SignatureDecodeError {},
    /// No public key could be recovered from the signature.
    RecoveryFailure {},
}

/// A `ContractError` as plain values.
pub enum ErrorModel {
    Std { reason: Seq<char> },
    Unauthorized,
    NotReceivedFunds,
    NotAllowZeroAmount,
    NotAllowedDenom { denom: Seq<char> },
    NotAllowedMultipleDenoms,
    SignatureDecodeError,
    RecoveryFailure,
}

impl View for ContractError {
    type V = ErrorModel;

    open spec fn view(&self) -> ErrorModel {
        match *self {
            ContractError::Std { reason } => ErrorModel::Std { reason: reason@ },
            ContractError::Unauthorized {  } => ErrorModel::Unauthorized,
            ContractError::NotReceivedFunds {  } => ErrorModel::NotReceivedFunds,
            ContractError::NotAllowZeroAmount {  } => ErrorModel::NotAllowZeroAmount,
            ContractError::NotAllowedDenom { denom } => ErrorModel::NotAllowedDenom {
                denom: denom@,
            },
            ContractError::NotAllowedMultipleDenoms {  } => ErrorModel::NotAllowedMultipleDenoms,
            ContractError::SignatureDecodeError {  } => ErrorModel::SignatureDecodeError,
            ContractError::RecoveryFailure {  } => ErrorModel::RecoveryFailure,
        }
    }
}

impl ContractError {
    /// The name of the error, as it is shown to the caller; a store failure
    /// shows the store's own message.
    pub fn message(&self) -> (text: String)
        ensures
            text@ == match *self {
                ContractError::Std { reason } => reason@,
                ContractError::Unauthorized {  } => "Unauthorized"@,
                ContractError::NotReceivedFunds {  } => "NotReceivedFunds"@,
                ContractError::NotAllowZeroAmount {  } => "NotAllowZeroAmount"@,
                ContractError::NotAllowedDenom { denom } => "NotAllowedDenom"@,
                ContractError::NotAllowedMultipleDenoms {  } => "NotAllowedMultipleDenoms"@,
                ContractError::SignatureDecodeError {  } => "SignatureDecodeError"@,
                ContractError::RecoveryFailure {  } => "RecoveryFailure"@,
            },
    {
        match self {
            ContractError::Std { reason } => reason.clone(),
            ContractError::Unauthorized {  } => "Unauthorized".to_owned(),
            ContractError::NotReceivedFunds {  } => "NotReceivedFunds".to_owned(),
            ContractError::NotAllowZeroAmount {  } => "NotAllowZeroAmount".to_owned(),
            ContractError::NotAllowedDenom { denom: _ } => "NotAllowedDenom".to_owned(),
            ContractError::NotAllowedMultipleDenoms {  } => "NotAllowedMultipleDenoms".to_owned(),
            ContractError::SignatureDecodeError {  } => "SignatureDecodeError".to_owned(),
            ContractError::RecoveryFailure {  } => "RecoveryFailure".to_owned(),
        }
    }
}

} // verus!
