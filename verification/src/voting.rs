//! When a set of signers satisfies a vote policy.

use crate::action::VotePolicy;
use crate::address::Address;
use crate::address_set::AddressSet;
use crate::amount::Amount;
use vstd::prelude::*;

verus! {

/// One entry of a balance snapshot: `holder` holds `amount` of the
/// governance token. An address that no entry names holds nothing, and one
/// that several entries name holds their total.
#[derive(Clone, Debug, PartialEq, Eq)]
pub struct TokenBalance {
    pub holder: Address,
    pub amount: Amount,
}

/// The total of the balances in `balances` whose holder is in `signers`.
pub open spec fn signed_weight(balances: Seq<TokenBalance>, signers: Set<Address>) -> nat
    decreases balances.len(),
{
    if balances.len() == 0 {
        0
    } else {
        let entry = balances.last();
        signed_weight(balances.drop_last(), signers) + if signers.contains(entry.holder) {
            entry.amount@
        } else {
            0
        }
    }
}

/// Whether `signers` satisfy `policy`. Without a governance token the signers
/// are counted; with one, the balances that the snapshot gives them are
/// added up. Either number has to reach the quorum.
pub open spec fn policy_satisfied(
    policy: VotePolicy,
    signers: Set<Address>,
    balances: Seq<TokenBalance>,
) -> bool {
    match policy.governance_token {
        None => signers.len() >= policy.quorum,
        Some(_) => signed_weight(balances, signers) >= policy.quorum,
    }
}

/// A further signer never lowers the signed weight.
pub proof fn lemma_signed_weight_grows(
    balances: Seq<TokenBalance>,
    signers: Set<Address>,
    signer: Address,
)
    ensures
        signed_weight(balances, signers) <= signed_weight(balances, signers.insert(signer)),
    decreases balances.len(),
{
    if balances.len() > 0 {
        lemma_signed_weight_grows(balances.drop_last(), signers, signer);
    }
}

/// Once a policy is satisfied it stays satisfied when a signer is added. This
/// holds for both kinds of policy.
pub proof fn lemma_quorum_monotonic(
    policy: VotePolicy,
    signers: Set<Address>,
    signer: Address,
    balances: Seq<TokenBalance>,
)
    requires
        signers.finite(),
        policy_satisfied(policy, signers, balances),
    ensures
        policy_satisfied(policy, signers.insert(signer), balances),
{
    lemma_signed_weight_grows(balances, signers, signer);
}

/// The total balance that the snapshot gives to the members of `signers`.
pub fn weigh(balances: &Vec<TokenBalance>, signers: &AddressSet) -> (total: Amount)
    ensures
        total@ == signed_weight(balances@, signers@),
{
    let mut total = Amount::zero();
    let mut i: usize = 0;
    while i < balances.len()
        invariant
            i <= balances.len(),
            total@ == signed_weight(balances@.subrange(0, i as int), signers@),
        decreases balances.len() - i,
    {
        proof {
            let next = balances@.subrange(0, i + 1);
            assert(next.drop_last() =~= balances@.subrange(0, i as int));
            assert(next.last() == balances@[i as int]);
        }
        if signers.contains(&balances[i].holder) {
            total = total.plus(&balances[i].amount);
        }
        i += 1;
    }
    assert(balances@.subrange(0, balances@.len() as int) =~= balances@);
    total
}

/// Decides whether `signers` satisfy `policy`, given a snapshot of the
/// balances of the governance token. The snapshot is not read when the
/// policy has no governance token.
pub fn satisfies(policy: &VotePolicy, signers: &AddressSet, balances: &Vec<TokenBalance>) -> (ok:
    bool)
    requires
        signers.inv(),
    ensures
        ok == policy_satisfied(*policy, signers@, balances@),
{
    match &policy.governance_token {
        None => signers.len() >= policy.quorum,
        Some(_) => {
            let total = weigh(balances, signers);
            let needed = Amount::from_u64(policy.quorum as u64);
            total.at_least(&needed)
        },
    }
}

} // verus!
