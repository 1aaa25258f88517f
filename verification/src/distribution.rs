//! The distribution engine: how a released amount is divided between the
//! burn sink, the owner and the developer.

use vstd::prelude::*;

verus! {

/// The three shares of one released amount.
#[derive(Clone, Copy, Debug, PartialEq, Eq, Structural)]
pub struct Distribution {
    pub burn_amount: u128,
    pub owner_amount: u128,
    pub dev_amount: u128,
}

/// Half of the amount, rounded down, goes to the burn sink.
pub open spec fn burn_share(amount: nat) -> nat {
    amount / 2
}

/// A tenth of what is left after the burn, rounded down, goes to the developer.
pub open spec fn dev_share(amount: nat) -> nat {
    ((amount - burn_share(amount)) / 10) as nat
}

/// The owner receives whatever the other two shares leave.
pub open spec fn owner_share(amount: nat) -> nat {
    (amount - burn_share(amount) - dev_share(amount)) as nat
}

/// Divides `amount` into its three shares with floor division throughout.
pub fn split(amount: u128) -> (d: Distribution)
    ensures
        d.burn_amount == burn_share(amount as nat),
        d.dev_amount == dev_share(amount as nat),
        d.owner_amount == owner_share(amount as nat),
        d.burn_amount + d.owner_amount + d.dev_amount == amount,
{
    let burn_amount: u128 = amount / 2;
    let remaining: u128 = amount - burn_amount;
    let dev_amount: u128 = remaining / 10;
    let owner_amount: u128 = remaining - dev_amount;
    Distribution { burn_amount, owner_amount, dev_amount }
}

/// The three shares of any amount add up to exactly that amount: nothing is
/// lost to rounding and nothing is counted twice.
pub proof fn lemma_shares_sum_to_amount(amount: nat)
    ensures
        burn_share(amount) + owner_share(amount) + dev_share(amount) == amount,
{
}

/// The burn share is the floor of half the amount, and the developer's share
/// is the floor of a tenth of what the burn leaves.
pub proof fn lemma_share_formulas(amount: nat)
    ensures
        burn_share(amount) == amount / 2,
        dev_share(amount) == (amount - amount / 2) / 10,
        owner_share(amount) == amount - amount / 2 - (amount - amount / 2) / 10,
{
}

/// Every rounding remainder falls to the owner: the burn share never exceeds
/// half of the amount, the developer's never a tenth of the rest, and the
/// owner never receives less than nine times the developer's share.
pub proof fn lemma_remainders_go_to_owner(amount: nat)
    ensures
        2 * burn_share(amount) <= amount,
        10 * dev_share(amount) <= amount - burn_share(amount),
        owner_share(amount) >= 9 * dev_share(amount),
{
}

} // verus!
