//! The operations that the board can authorize.

use crate::address::Address;
use crate::amount::Amount;
use crate::token::TokenIdentifier;
use vstd::prelude::*;

verus! {

/// Flags that accompany the code of a deployed contract.
#[derive(Clone, Copy, Debug, PartialEq, Eq)]
pub struct CodeMetadata {
    pub bits: u16,
}

/// A call to another contract: where to, with how much, which endpoint and
/// which arguments.
#[derive(Clone, Debug, PartialEq, Eq)]
pub struct CallActionData {
    pub to: Address,
    pub egld_amount: Amount,
    pub endpoint_name: Vec<u8>,
    pub arguments: Vec<Vec<u8>>,
}

/// How signatures are weighed. Without a governance token `quorum` is the
/// number of signers needed; with one it is the least total balance of that
/// token that the signers must hold.
#[derive(Clone, Debug, PartialEq, Eq)]
pub struct VotePolicy {
    pub governance_token: Option<TokenIdentifier>,
    pub quorum: usize,
}

/// An operation that can be proposed. `Nothing` marks a slot that holds no
/// action: one never filled, or one whose action was performed or discarded.
#[derive(Clone, Debug, PartialEq, Eq)]
pub enum Action {
    Nothing,
    AddBoardMember(Address),
    AddProposer(Address),
    RemoveUser(Address),
    ChangeQuorum(usize),
    SendTransferExecute(CallActionData),
    SendAsyncCall(CallActionData),
    SCDeployFromSource {
        amount: Amount,
        source: Address,
        code_metadata: CodeMetadata,
        arguments: Vec<Vec<u8>>,
    },
    SCUpgradeFromSource {
        sc_address: Address,
        amount: Amount,
        source: Address,
        code_metadata: CodeMetadata,
        arguments: Vec<Vec<u8>>,
    },
    ChangeVotePolicy { policy: VotePolicy },
}

impl Action {
    /// An action is pending exactly when it is not `Nothing`.
    pub open spec fn pending(self) -> bool {
        !(self is Nothing)
    }

    /// Only pending actions are kept; performed and discarded ones become
    /// `Nothing`.
    pub fn is_pending(&self) -> (pending: bool)
        ensures
            pending == self.pending(),
            pending == (*self != Action::Nothing),
    {
        !matches!(*self, Action::Nothing)
    }
}

/// What is known of one action: its id, the action and who signed it.
#[derive(Debug, PartialEq, Eq)]
pub struct ActionFullInfo<'a> {
    pub action_id: usize,
    pub action_data: &'a Action,
    pub signers: Vec<Address>,
}

} // verus!
