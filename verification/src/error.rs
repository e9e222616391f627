//! The ways in which an operation of the engine is refused.

use crate::address::Address;
use vstd::prelude::*;

verus! {

/// Why an operation was refused. Each value names the address or the action
/// id at fault where there is one.
#[derive(Clone, Copy, Debug, PartialEq, Eq)]
pub enum MultisigError {
    /// The address lacks the role that the operation asks for.
    Unauthorized(Address),
    /// No action was ever stored under the id.
    ActionNotFound(usize),
    /// The action under the id was already performed or discarded.
    ActionAlreadyResolved(usize),
    /// The proposed action is the empty action.
    InvalidAction,
    /// The change would leave the board empty or the quorum out of reach.
    InvalidConfiguration,
    /// The action under the id has not gathered enough signatures.
    QuorumNotReached(usize),
    /// The callee failed while the action under the id was carried out.
    ExecutionFailed(usize),
}

impl MultisigError {
    /// The stable tag of each kind of error.
    pub open spec fn tag_text(self) -> Seq<char> {
        match self {
            MultisigError::Unauthorized(_) => "unauthorized"@,
            MultisigError::ActionNotFound(_) => "action not found"@,
            MultisigError::ActionAlreadyResolved(_) => "action already resolved"@,
            MultisigError::InvalidAction => "invalid action"@,
            MultisigError::InvalidConfiguration => "invalid configuration"@,
            MultisigError::QuorumNotReached(_) => "quorum not reached"@,
            MultisigError::ExecutionFailed(_) => "execution failed"@,
        }
    }

    /// A short human-readable tag that depends on the kind of error alone.
    pub fn tag(&self) -> (text: &'static str)
        ensures
            text@ == self.tag_text(),
    {
        match self {
            MultisigError::Unauthorized(_) => "unauthorized",
            MultisigError::ActionNotFound(_) => "action not found",
            MultisigError::ActionAlreadyResolved(_) => "action already resolved",
            MultisigError::InvalidAction => "invalid action",
            MultisigError::InvalidConfiguration => "invalid configuration",
            MultisigError::QuorumNotReached(_) => "quorum not reached",
            MultisigError::ExecutionFailed(_) => "execution failed",
        }
    }

    /// The address at fault, where the error names one.
    pub fn offending_address(&self) -> (addr: Option<Address>)
        ensures
            addr == match *self {
                MultisigError::Unauthorized(a) => Some(a),
                _ => None::<Address>,
            },
    {
        match self {
            MultisigError::Unauthorized(a) => Some(*a),
            _ => None,
        }
    }

    /// The action id at fault, where the error names one.
    pub fn offending_action(&self) -> (id: Option<usize>)
        ensures
            id == match *self {
                MultisigError::ActionNotFound(k) => Some(k),
                MultisigError::ActionAlreadyResolved(k) => Some(k),
                MultisigError::QuorumNotReached(k) => Some(k),
                MultisigError::ExecutionFailed(k) => Some(k),
                _ => None::<usize>,
            },
    {
        match self {
            MultisigError::ActionNotFound(k) => Some(*k),
            MultisigError::ActionAlreadyResolved(k) => Some(*k),
            MultisigError::QuorumNotReached(k) => Some(*k),
            MultisigError::ExecutionFailed(k) => Some(*k),
            _ => None,
        }
    }
}

} // verus!
