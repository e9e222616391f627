//! What an action does once it has reached quorum.
//!
//! Changes of membership, quorum and policy are applied to the store right
//! here. Transfers, calls, deployments and upgrades are work for the host:
//! the executor hands them out as an [`Effect`], and [`settle`] turns the
//! host's report into the result of the operation.

use crate::action::{Action, CallActionData, CodeMetadata};
use crate::address::Address;
use crate::amount::Amount;
use crate::error::MultisigError;
use crate::membership::{Authority, Membership};
use vstd::prelude::*;

verus! {

/// What is left to do after an action was taken from its slot.
#[derive(Clone, Debug, PartialEq, Eq)]
pub enum Effect {
    /// The action changed membership, quorum or policy; the store holds the
    /// change and the host has nothing to do.
    Applied,
    /// Transfer the amount and call the endpoint, and wait for the callee.
    TransferExecute(CallActionData),
    /// Send the call off without waiting for the callee.
    AsyncCall(CallActionData),
    /// Deploy a new contract with the code of `source`.
    DeployFromSource {
        amount: Amount,
        source: Address,
        code_metadata: CodeMetadata,
        arguments: Vec<Vec<u8>>,
    },
    /// Replace the code of `sc_address` with the code of `source`.
    UpgradeFromSource {
        sc_address: Address,
        amount: Amount,
        source: Address,
        code_metadata: CodeMetadata,
        arguments: Vec<Vec<u8>>,
    },
}

/// The effect of each kind of action.
pub open spec fn effect_of(action: Action) -> Effect {
    match action {
        Action::SendTransferExecute(call) => Effect::TransferExecute(call),
        Action::SendAsyncCall(call) => Effect::AsyncCall(call),
        Action::SCDeployFromSource { amount, source, code_metadata, arguments } => {
            Effect::DeployFromSource { amount, source, code_metadata, arguments }
        },
        Action::SCUpgradeFromSource { sc_address, amount, source, code_metadata, arguments } => {
            Effect::UpgradeFromSource { sc_address, amount, source, code_metadata, arguments }
        },
        _ => Effect::Applied,
    }
}

/// Lets `action` take effect: applies it to the store if it is about
/// membership, quorum or policy, and returns what is left for the host.
/// When the store would not be valid afterwards, nothing changes.
pub(crate) fn carry_out(membership: &mut Membership, action: Action) -> (result: Result<
    Effect,
    MultisigError,
>)
    requires
        old(membership).inv(),
    ensures
        final(membership).inv(),
        match result {
            Ok(effect) => {
                &&& old(membership)@.after(action).valid()
                &&& final(membership)@ == old(membership)@.after(action)
                &&& effect == effect_of(action)
            },
            Err(e) => {
                &&& !old(membership)@.after(action).valid()
                &&& e == MultisigError::InvalidConfiguration
                &&& final(membership)@ == old(membership)@
            },
        },
{
    proof {
        membership.lemma_inv_valid();
    }
    let authority = Authority::executor();
    match action {
        Action::Nothing => Ok(Effect::Applied),
        Action::AddBoardMember(addr) => match membership.add_board_member(&authority, addr) {
            Ok(()) => Ok(Effect::Applied),
            Err(e) => Err(e),
        },
        Action::AddProposer(addr) => match membership.add_proposer(&authority, addr) {
            Ok(()) => Ok(Effect::Applied),
            Err(e) => Err(e),
        },
        Action::RemoveUser(addr) => match membership.remove_user(&authority, addr) {
            Ok(()) => Ok(Effect::Applied),
            Err(e) => Err(e),
        },
        Action::ChangeQuorum(quorum) => match membership.change_quorum(&authority, quorum) {
            Ok(()) => Ok(Effect::Applied),
            Err(e) => Err(e),
        },
        Action::ChangeVotePolicy { policy } => match membership.change_vote_policy(
            &authority,
            policy,
        ) {
            Ok(()) => Ok(Effect::Applied),
            Err(e) => Err(e),
        },
        Action::SendTransferExecute(call) => Ok(Effect::TransferExecute(call)),
        Action::SendAsyncCall(call) => Ok(Effect::AsyncCall(call)),
        Action::SCDeployFromSource { amount, source, code_metadata, arguments } => Ok(
            Effect::DeployFromSource { amount, source, code_metadata, arguments },
        ),
        Action::SCUpgradeFromSource { sc_address, amount, source, code_metadata, arguments } => Ok(
            Effect::UpgradeFromSource { sc_address, amount, source, code_metadata, arguments },
        ),
    }
}

/// What the host reports after it did the work of an effect.
#[derive(Clone, Copy, Debug, PartialEq, Eq)]
pub enum HostReport {
    /// The work was done.
    Completed,
    /// The callee of a transfer-and-call failed.
    CalleeFailed,
    /// A contract was deployed at the given address.
    Deployed(Address),
}

/// The result of performing the action `action_id`, given its effect and the
/// host's report.
pub open spec fn settled(action_id: usize, effect: Effect, report: HostReport) -> Result<
    Option<Address>,
    MultisigError,
> {
    if effect is TransferExecute && report is CalleeFailed {
        Err(MultisigError::ExecutionFailed(action_id))
    } else if effect is DeployFromSource && report is Deployed {
        Ok(Some(report->0))
    } else {
        Ok(None)
    }
}

/// Turns the host's report into the result of the operation. Only the
/// failure of the callee of a transfer-and-call is an error, and it does not
/// bring the action back: its slot stays empty. A deployment yields the
/// address of the new contract. The outcome of an asynchronous call is not
/// awaited, so no report about it is an error.
pub fn settle(action_id: usize, effect: &Effect, report: HostReport) -> (result: Result<
    Option<Address>,
    MultisigError,
>)
    ensures
        result == settled(action_id, *effect, report),
{
    match (effect, report) {
        (Effect::TransferExecute(_), HostReport::CalleeFailed) => Err(
            MultisigError::ExecutionFailed(action_id),
        ),
        (Effect::DeployFromSource { .. }, HostReport::Deployed(addr)) => Ok(Some(addr)),
        _ => Ok(None),
    }
}

} // verus!
