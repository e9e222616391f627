//! The engine: proposing, signing, discarding and performing actions.
//!
//! [`MultisigView`] is the mathematical state and its functions say what
//! every operation returns and how it changes the state. [`Multisig`] is the
//! executable engine; each of its operations is proved to do exactly that.

use crate::action::{Action, ActionFullInfo, VotePolicy};
use crate::address::Address;
use crate::address_set::AddressSet;
use crate::error::MultisigError;
use crate::executor::{carry_out, effect_of, Effect};
use crate::ledger::{LedgerView, ProposalLedger};
use crate::membership::{mutation_outcome, Authority, Membership, MembershipView, UserRole};
use crate::voting::{policy_satisfied, satisfies, TokenBalance};
use vstd::prelude::*;

verus! {

/// The state of the engine: the membership store and the proposal ledger.
#[verifier::ext_equal]
pub struct MultisigView {
    pub membership: MembershipView,
    pub ledger: LedgerView,
}

impl MultisigView {
    /// Both parts are valid.
    pub open spec fn valid(self) -> bool {
        self.membership.valid() && self.ledger.valid()
    }

    /// The action under `id`; `Nothing` where none waits.
    pub open spec fn action(self, id: usize) -> Action {
        self.ledger.action(id)
    }

    /// The signers of the action under `id`.
    pub open spec fn signers(self, id: usize) -> Set<Address> {
        self.ledger.signers(id)
    }

    /// The signers that a new proposal by `proposer` starts with: the
    /// proposer if it sits on the board, else nobody.
    pub open spec fn first_signers(self, proposer: Address) -> Set<Address> {
        if self.membership.role_of(proposer) is BoardMember {
            set![proposer]
        } else {
            Set::<Address>::empty()
        }
    }

    /// What `propose` returns: the next id, unless the proposer holds no role
    /// or the action is `Nothing`.
    pub open spec fn propose_result(self, action: Action, proposer: Address) -> Result<
        usize,
        MultisigError,
    > {
        if self.membership.role_of(proposer) is Outsider {
            Err(MultisigError::Unauthorized(proposer))
        } else if action is Nothing {
            Err(MultisigError::InvalidAction)
        } else {
            Ok((self.ledger.last_id() + 1) as usize)
        }
    }

    /// The state after `propose`.
    pub open spec fn after_propose(self, action: Action, proposer: Address) -> MultisigView {
        if self.propose_result(action, proposer) is Ok {
            MultisigView {
                membership: self.membership,
                ledger: self.ledger.appended(action, self.first_signers(proposer)),
            }
        } else {
            self
        }
    }

    /// What `get` returns: the stored action, unless the id was never handed
    /// out.
    pub open spec fn get_result(self, id: usize) -> Result<Action, MultisigError> {
        if self.ledger.allocated(id) {
            Ok(self.ledger.action(id))
        } else {
            Err(MultisigError::ActionNotFound(id))
        }
    }

    /// What `sign` and `unsign` return: success exactly when `signer` sits on
    /// the board and an action waits under `id`.
    pub open spec fn vote_result(self, id: usize, signer: Address) -> Result<(), MultisigError> {
        if !(self.membership.role_of(signer) is BoardMember) {
            Err(MultisigError::Unauthorized(signer))
        } else if !self.ledger.allocated(id) {
            Err(MultisigError::ActionNotFound(id))
        } else if !self.ledger.pending(id) {
            Err(MultisigError::ActionAlreadyResolved(id))
        } else {
            Ok(())
        }
    }

    /// The state after `sign`.
    pub open spec fn after_sign(self, id: usize, signer: Address) -> MultisigView {
        if self.vote_result(id, signer) is Ok {
            MultisigView {
                membership: self.membership,
                ledger: self.ledger.with_signers(id, self.ledger.signers(id).insert(signer)),
            }
        } else {
            self
        }
    }

    /// The state after `unsign`.
    pub open spec fn after_unsign(self, id: usize, signer: Address) -> MultisigView {
        if self.vote_result(id, signer) is Ok {
            MultisigView {
                membership: self.membership,
                ledger: self.ledger.with_signers(id, self.ledger.signers(id).remove(signer)),
            }
        } else {
            self
        }
    }

    /// Whether the signers of the action under `id` satisfy the policy in
    /// force, given a snapshot of the balances of the governance token.
    pub open spec fn quorum_reached(self, id: usize, balances: Seq<TokenBalance>) -> bool {
        policy_satisfied(self.membership.policy, self.ledger.signers(id), balances)
    }

    /// What `discard` returns. A board member may discard an action that it
    /// signed, and any action that has not reached quorum.
    pub open spec fn discard_result(
        self,
        id: usize,
        caller: Address,
        balances: Seq<TokenBalance>,
    ) -> Result<(), MultisigError> {
        if !(self.membership.role_of(caller) is BoardMember) {
            Err(MultisigError::Unauthorized(caller))
        } else if !self.ledger.allocated(id) {
            Err(MultisigError::ActionNotFound(id))
        } else if !self.ledger.pending(id) {
            Err(MultisigError::ActionAlreadyResolved(id))
        } else if !self.ledger.signers(id).contains(caller) && self.quorum_reached(id, balances) {
            Err(MultisigError::Unauthorized(caller))
        } else {
            Ok(())
        }
    }

    /// The state after `discard`.
    pub open spec fn after_discard(
        self,
        id: usize,
        caller: Address,
        balances: Seq<TokenBalance>,
    ) -> MultisigView {
        if self.discard_result(id, caller, balances) is Ok {
            MultisigView { membership: self.membership, ledger: self.ledger.resolved(id) }
        } else {
            self
        }
    }

    /// What `perform` returns: the effect of the action, unless no action
    /// waits under `id`, quorum is not reached, or the action would leave the
    /// membership store invalid.
    pub open spec fn perform_result(self, id: usize, balances: Seq<TokenBalance>) -> Result<
        Effect,
        MultisigError,
    > {
        if !self.ledger.allocated(id) {
            Err(MultisigError::ActionNotFound(id))
        } else if !self.ledger.pending(id) {
            Err(MultisigError::ActionAlreadyResolved(id))
        } else if !self.quorum_reached(id, balances) {
            Err(MultisigError::QuorumNotReached(id))
        } else if !self.membership.after(self.ledger.action(id)).valid() {
            Err(MultisigError::InvalidConfiguration)
        } else {
            Ok(effect_of(self.ledger.action(id)))
        }
    }

    /// The state after `perform`.
    pub open spec fn after_perform(self, id: usize, balances: Seq<TokenBalance>) -> MultisigView {
        if self.perform_result(id, balances) is Ok {
            MultisigView {
                membership: self.membership.after(self.ledger.action(id)),
                ledger: self.ledger.resolved(id),
            }
        } else {
            self
        }
    }
}

/// The multi-signature engine.
#[derive(Debug)]
pub struct Multisig {
    membership: Membership,
    ledger: ProposalLedger,
}

impl View for Multisig {
    type V = MultisigView;

    closed spec fn view(&self) -> MultisigView {
        MultisigView { membership: self.membership@, ledger: self.ledger@ }
    }
}

impl Multisig {
    /// Both parts satisfy their invariants.
    pub closed spec fn inv(&self) -> bool {
        self.membership.inv() && self.ledger.inv()
    }

    /// An engine that satisfies its invariant is in a valid state, and its
    /// ids fit the machine's word.
    pub proof fn lemma_inv_valid(&self)
        requires
            self.inv(),
        ensures
            self@.valid(),
            self@.ledger.last_id() <= usize::MAX,
    {
        self.membership.lemma_inv_valid();
        self.ledger.lemma_inv_valid();
    }

    /// An engine with the given board and policy, no proposers and no
    /// actions. An address listed twice counts once. Refused when the board
    /// is empty or too small for a quorum that counts signers.
    pub fn new(board_members: &Vec<Address>, policy: VotePolicy) -> (result: Result<
        Multisig,
        MultisigError,
    >)
        ensures
            match result {
                Ok(engine) => {
                    &&& engine.inv()
                    &&& engine@.membership == (MembershipView {
                        board: board_members@.to_set(),
                        proposers: Set::<Address>::empty(),
                        policy,
                    })
                    &&& engine@.ledger.slots.len() == 0
                },
                Err(e) => {
                    &&& e == MultisigError::InvalidConfiguration
                    &&& !(MembershipView {
                        board: board_members@.to_set(),
                        proposers: Set::<Address>::empty(),
                        policy,
                    }).valid()
                },
            },
    {
        match Membership::new(board_members, policy) {
            Ok(membership) => Ok(Multisig { membership, ledger: ProposalLedger::new() }),
            Err(e) => Err(e),
        }
    }

    /// The role that `addr` holds.
    pub fn role_of(&self, addr: &Address) -> (role: UserRole)
        requires
            self.inv(),
        ensures
            role == self@.membership.role_of(*addr),
    {
        self.membership.role_of(addr)
    }

    /// The policy in force.
    pub fn policy(&self) -> (policy: &VotePolicy)
        ensures
            *policy == self@.membership.policy,
    {
        self.membership.policy()
    }

    /// The quorum of the policy in force.
    pub fn quorum(&self) -> (quorum: usize)
        ensures
            quorum == self@.membership.policy.quorum,
    {
        self.membership.quorum()
    }

    /// The board members, each listed once.
    pub fn board_members(&self) -> (list: Vec<Address>)
        requires
            self.inv(),
        ensures
            list@.to_set() == self@.membership.board,
            list@.no_duplicates(),
    {
        self.membership.board_members()
    }

    /// The proposers, each listed once.
    pub fn proposers(&self) -> (list: Vec<Address>)
        requires
            self.inv(),
        ensures
            list@.to_set() == self@.membership.proposers,
            list@.no_duplicates(),
    {
        self.membership.proposers()
    }

    /// Asks to make `addr` a board member. Only the executor is heard; an
    /// outside caller is refused, and the way to the board is a proposal.
    pub fn add_board_member(&mut self, authority: &Authority, addr: Address) -> (result: Result<
        (),
        MultisigError,
    >)
        requires
            old(self).inv(),
        ensures
            final(self).inv(),
            final(self)@.ledger == old(self)@.ledger,
            mutation_outcome(
                old(self)@.membership,
                *authority,
                Action::AddBoardMember(addr),
                result,
                final(self)@.membership,
            ),
    {
        self.membership.add_board_member(authority, addr)
    }

    /// Asks to make `addr` a proposer. Only the executor is heard.
    pub fn add_proposer(&mut self, authority: &Authority, addr: Address) -> (result: Result<
        (),
        MultisigError,
    >)
        requires
            old(self).inv(),
        ensures
            final(self).inv(),
            final(self)@.ledger == old(self)@.ledger,
            mutation_outcome(
                old(self)@.membership,
                *authority,
                Action::AddProposer(addr),
                result,
                final(self)@.membership,
            ),
    {
        self.membership.add_proposer(authority, addr)
    }

    /// Asks to take every role from `addr`. Only the executor is heard.
    pub fn remove_user(&mut self, authority: &Authority, addr: Address) -> (result: Result<
        (),
        MultisigError,
    >)
        requires
            old(self).inv(),
        ensures
            final(self).inv(),
            final(self)@.ledger == old(self)@.ledger,
            mutation_outcome(
                old(self)@.membership,
                *authority,
                Action::RemoveUser(addr),
                result,
                final(self)@.membership,
            ),
    {
        self.membership.remove_user(authority, addr)
    }

    /// Asks to set the quorum. Only the executor is heard.
    pub fn change_quorum(&mut self, authority: &Authority, quorum: usize) -> (result: Result<
        (),
        MultisigError,
    >)
        requires
            old(self).inv(),
        ensures
            final(self).inv(),
            final(self)@.ledger == old(self)@.ledger,
            mutation_outcome(
                old(self)@.membership,
                *authority,
                Action::ChangeQuorum(quorum),
                result,
                final(self)@.membership,
            ),
    {
        self.membership.change_quorum(authority, quorum)
    }

    /// Asks to replace the vote policy. Only the executor is heard.
    pub fn change_vote_policy(&mut self, authority: &Authority, policy: VotePolicy) -> (result:
        Result<(), MultisigError>)
        requires
            old(self).inv(),
        ensures
            final(self).inv(),
            final(self)@.ledger == old(self)@.ledger,
            mutation_outcome(
                old(self)@.membership,
                *authority,
                Action::ChangeVotePolicy { policy },
                result,
                final(self)@.membership,
            ),
    {
        self.membership.change_vote_policy(authority, policy)
    }

    /// The id that was handed out last; 0 when none was.
    pub fn last_action_id(&self) -> (id: usize)
        ensures
            id == self@.ledger.last_id(),
    {
        self.ledger.last_id()
    }

    /// Stores `action` under the next id and returns the id. The proposer
    /// must be a board member or a proposer, and the action must not be
    /// `Nothing`. A board member signs its own proposal. A refused proposal
    /// changes nothing and uses up no id.
    pub fn propose(&mut self, action: Action, proposer: Address) -> (result: Result<
        usize,
        MultisigError,
    >)
        requires
            old(self).inv(),
        ensures
            final(self).inv(),
            result == old(self)@.propose_result(action, proposer),
            final(self)@ == old(self)@.after_propose(action, proposer),
    {
        let role = self.membership.role_of(&proposer);
        if !role.can_propose() {
            return Err(MultisigError::Unauthorized(proposer));
        }
        if !action.is_pending() {
            return Err(MultisigError::InvalidAction);
        }
        let first_signer = if role.can_sign() {
            Some(proposer)
        } else {
            None
        };
        let id = self.ledger.allocate(action, first_signer);
        Ok(id)
    }

    /// The action under `id`, which is `Nothing` once it was performed or
    /// discarded. Fails if `id` was never handed out.
    pub fn get(&self, id: usize) -> (result: Result<&Action, MultisigError>)
        requires
            self.inv(),
        ensures
            match result {
                Ok(action) => self@.get_result(id) == Ok::<Action, MultisigError>(*action),
                Err(e) => self@.get_result(id) == Err::<Action, MultisigError>(e),
            },
    {
        self.ledger.get(id)
    }

    /// The action that waits under `id`, for a caller that expects one.
    /// Fails if none does: because `id` was never handed out, or because its
    /// action was performed or discarded.
    pub fn get_pending(&self, id: usize) -> (result: Result<&Action, MultisigError>)
        requires
            self.inv(),
        ensures
            match result {
                Ok(action) => self@.ledger.pending(id) && *action == self@.action(id),
                Err(e) => !self@.ledger.pending(id) && e == MultisigError::ActionNotFound(id),
            },
    {
        self.ledger.get_pending(id)
    }

    /// The signers of the action under `id`, each listed once.
    pub fn signers(&self, id: usize) -> (list: Vec<Address>)
        requires
            self.inv(),
        ensures
            list@.to_set() == self@.signers(id),
            list@.no_duplicates(),
    {
        self.ledger.signers(id)
    }

    /// The id, the action and the signers of one slot. For an id that was
    /// never handed out the action is `Nothing` and nobody signed.
    pub fn get_action_full_info(&self, id: usize) -> (info: ActionFullInfo<'_>)
        requires
            self.inv(),
        ensures
            info.action_id == id,
            *info.action_data == self@.action(id),
            info.signers@.to_set() == self@.signers(id),
            info.signers@.no_duplicates(),
    {
        ActionFullInfo {
            action_id: id,
            action_data: self.ledger.action(id),
            signers: self.ledger.signers(id),
        }
    }

    /// The checks that `sign`, `unsign` and `discard` share.
    fn check_vote(&self, id: usize, signer: &Address) -> (result: Result<(), MultisigError>)
        requires
            self.inv(),
        ensures
            result == self@.vote_result(id, *signer),
    {
        if !self.membership.role_of(signer).can_sign() {
            return Err(MultisigError::Unauthorized(*signer));
        }
        if !self.ledger.is_allocated(id) {
            return Err(MultisigError::ActionNotFound(id));
        }
        if !self.ledger.is_pending(id) {
            return Err(MultisigError::ActionAlreadyResolved(id));
        }
        Ok(())
    }

    /// Adds `signer` to the signers of the action under `id`. The signer
    /// must sit on the board and the action must be waiting. Signing twice
    /// is the same as signing once.
    pub fn sign(&mut self, id: usize, signer: Address) -> (result: Result<(), MultisigError>)
        requires
            old(self).inv(),
        ensures
            final(self).inv(),
            result == old(self)@.vote_result(id, signer),
            final(self)@ == old(self)@.after_sign(id, signer),
    {
        match self.check_vote(id, &signer) {
            Ok(()) => {
                self.ledger.add_signer(id, signer);
                Ok(())
            },
            Err(e) => Err(e),
        }
    }

    /// Removes `signer` from the signers of the action under `id`. The
    /// signer must sit on the board and the action must be waiting. Nothing
    /// changes if it had not signed.
    pub fn unsign(&mut self, id: usize, signer: Address) -> (result: Result<(), MultisigError>)
        requires
            old(self).inv(),
        ensures
            final(self).inv(),
            result == old(self)@.vote_result(id, signer),
            final(self)@ == old(self)@.after_unsign(id, signer),
    {
        match self.check_vote(id, &signer) {
            Ok(()) => {
                self.ledger.remove_signer(id, &signer);
                Ok(())
            },
            Err(e) => Err(e),
        }
    }

    /// Whether the signers of the action under `id` satisfy the policy in
    /// force. `balances` is a snapshot of who holds how much of the
    /// governance token, taken now; it is not read when the policy has no
    /// governance token.
    pub fn quorum_reached(&self, id: usize, balances: &Vec<TokenBalance>) -> (reached: bool)
        requires
            self.inv(),
        ensures
            reached == self@.quorum_reached(id, balances@),
    {
        if self.ledger.is_allocated(id) {
            satisfies(self.membership.policy(), self.ledger.signer_set(id), balances)
        } else {
            let nobody = AddressSet::new();
            satisfies(self.membership.policy(), &nobody, balances)
        }
    }

    /// Empties the slot of `id` without performing its action. The caller
    /// must sit on the board; it may discard an action that it signed, and
    /// any action that has not reached quorum.
    pub fn discard(&mut self, id: usize, caller: Address, balances: &Vec<TokenBalance>) -> (result:
        Result<(), MultisigError>)
        requires
            old(self).inv(),
        ensures
            final(self).inv(),
            result == old(self)@.discard_result(id, caller, balances@),
            final(self)@ == old(self)@.after_discard(id, caller, balances@),
    {
        match self.check_vote(id, &caller) {
            Ok(()) => {},
            Err(e) => {
                return Err(e);
            },
        }
        if !self.ledger.has_signed(id, &caller) && self.quorum_reached(id, balances) {
            return Err(MultisigError::Unauthorized(caller));
        }
        let _ = self.ledger.resolve(id);
        Ok(())
    }

    /// Performs the action under `id` once it has reached quorum: empties
    /// its slot, applies it to the membership store if it is about
    /// membership, quorum or policy, and returns what is left for the host
    /// to do. A refused call changes nothing.
    pub fn perform(&mut self, id: usize, balances: &Vec<TokenBalance>) -> (result: Result<
        Effect,
        MultisigError,
    >)
        requires
            old(self).inv(),
        ensures
            final(self).inv(),
            result == old(self)@.perform_result(id, balances@),
            final(self)@ == old(self)@.after_perform(id, balances@),
    {
        if !self.ledger.is_allocated(id) {
            return Err(MultisigError::ActionNotFound(id));
        }
        if !self.ledger.is_pending(id) {
            return Err(MultisigError::ActionAlreadyResolved(id));
        }
        if !self.quorum_reached(id, balances) {
            return Err(MultisigError::QuorumNotReached(id));
        }
        if !self.membership.admits(self.ledger.action(id)) {
            return Err(MultisigError::InvalidConfiguration);
        }
        let action = self.ledger.resolve(id);
        carry_out(&mut self.membership, action)
    }
}

} // verus!
