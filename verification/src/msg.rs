//! The messages that the contract is called with.

use vstd::prelude::*;

verus! {

/// Creates the contract: the accepted asset and the first holders of the two
/// roles.
#[derive(Clone, Debug, PartialEq, Eq)]
pub struct InstantiateMsg {
    pub stable_denom: String,
    pub community_owner: String,
    pub community_dev: String,
}

/// The operations that change or move something.
#[derive(Clone, Debug, PartialEq, Eq)]
pub enum ExecuteMsg {
    /// Pays the attached funds into the contract.
    Deposit {  },
    /// Sends `amount` to `recipient`: on the owner's own call, or for anyone
    /// who presents the owner's signature.
    Withdraw { recipient: String, amount: u128, signature: Option<String> },
    /// Hands a role to a new address.
    ChangeCommunityInfo { role: CommunityRole, value: String },
    /// Releases `amount`, divided between burn sink, owner and developer.
    Burn { amount: u128 },
}

/// The two roles that can be handed on.
#[derive(Clone, Copy, Debug, PartialEq, Eq, Structural)]
pub enum CommunityRole {
    Owner {  },
    Developer {  },
}

/// The questions that the contract answers.
#[derive(Clone, Debug, PartialEq, Eq)]
pub enum QueryMsg {
    CommunityOwner {  },
    CommunityDeveloper {  },
    Nonce { address: String },
}

/// Nothing is carried over on migration.
#[derive(Clone, Copy, Debug, PartialEq, Eq, Structural)]
pub struct MigrateMsg {}

} // verus!
