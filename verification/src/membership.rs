//! Who sits on the board, who may propose, and the active vote policy.

use crate::action::{Action, VotePolicy};
use crate::address::Address;
use crate::address_set::AddressSet;
use crate::error::MultisigError;
use vstd::prelude::*;

verus! {

/// The role of an address. An address holds at most one role.
#[derive(Clone, Copy, Debug, PartialEq, Eq)]
pub enum UserRole {
    Outsider,
    Proposer,
    BoardMember,
}

impl UserRole {
    /// Board members and proposers may propose.
    pub fn can_propose(&self) -> (allowed: bool)
        ensures
            allowed == !(*self is Outsider),
    {
        match self {
            UserRole::Outsider => false,
            _ => true,
        }
    }

    /// Only board members may sign.
    pub fn can_sign(&self) -> (allowed: bool)
        ensures
            allowed == (*self is BoardMember),
    {
        match self {
            UserRole::BoardMember => true,
            _ => false,
        }
    }
}

/// On whose behalf a change of membership or policy is asked for.
///
/// A value that stands for the executor can be made only inside this crate,
/// once an action has reached quorum. Everyone else can only make a value
/// that stands for an outside caller, and every mutator refuses those.
#[derive(Debug)]
pub struct Authority {
    caller: Option<Address>,
}

impl Authority {
    /// Whether the value stands for the executor.
    pub closed spec fn is_executor(&self) -> bool {
        self.caller is None
    }

    /// The outside caller, whose address is reported when the request is
    /// refused. Meaningless for the executor.
    pub closed spec fn caller(&self) -> Address {
        self.caller->0
    }

    /// The authority of an outside caller.
    pub fn external(caller: Address) -> (authority: Authority)
        ensures
            !authority.is_executor(),
            authority.caller() == caller,
    {
        Authority { caller: Some(caller) }
    }

    /// The authority of the executor.
    pub(crate) fn executor() -> (authority: Authority)
        ensures
            authority.is_executor(),
    {
        Authority { caller: None }
    }
}

/// The mathematical content of the store: two sets and a policy.
#[verifier::ext_equal]
pub struct MembershipView {
    pub board: Set<Address>,
    pub proposers: Set<Address>,
    pub policy: VotePolicy,
}

impl MembershipView {
    /// The board is never empty, no address holds two roles, and a quorum
    /// that counts signers never exceeds the size of the board. A quorum
    /// that weighs token balances is not a count and is not bounded by it.
    pub open spec fn valid(self) -> bool {
        &&& self.board.finite()
        &&& self.proposers.finite()
        &&& self.board.disjoint(self.proposers)
        &&& self.board.len() >= 1
        &&& (self.policy.governance_token is None ==> self.policy.quorum <= self.board.len())
    }

    /// The role that `addr` holds.
    pub open spec fn role_of(self, addr: Address) -> UserRole {
        if self.board.contains(addr) {
            UserRole::BoardMember
        } else if self.proposers.contains(addr) {
            UserRole::Proposer
        } else {
            UserRole::Outsider
        }
    }

    /// The store after `action` took effect. Actions that are not about
    /// membership or policy leave it as it is.
    pub open spec fn after(self, action: Action) -> MembershipView {
        match action {
            Action::AddBoardMember(addr) => MembershipView {
                board: self.board.insert(addr),
                proposers: self.proposers.remove(addr),
                policy: self.policy,
            },
            Action::AddProposer(addr) => MembershipView {
                board: self.board.remove(addr),
                proposers: self.proposers.insert(addr),
                policy: self.policy,
            },
            Action::RemoveUser(addr) => MembershipView {
                board: self.board.remove(addr),
                proposers: self.proposers.remove(addr),
                policy: self.policy,
            },
            Action::ChangeQuorum(quorum) => MembershipView {
                board: self.board,
                proposers: self.proposers,
                policy: VotePolicy {
                    governance_token: self.policy.governance_token,
                    quorum,
                },
            },
            Action::ChangeVotePolicy { policy } => MembershipView {
                board: self.board,
                proposers: self.proposers,
                policy,
            },
            _ => self,
        }
    }
}

/// What a mutator returns and how it leaves the store, for a request made
/// under `authority` to let `action` take effect on `before`.
pub open spec fn mutation_outcome(
    before: MembershipView,
    authority: Authority,
    action: Action,
    result: Result<(), MultisigError>,
    after: MembershipView,
) -> bool {
    if !authority.is_executor() {
        result == Err::<(), MultisigError>(MultisigError::Unauthorized(authority.caller()))
            && after == before
    } else if !before.after(action).valid() {
        result == Err::<(), MultisigError>(MultisigError::InvalidConfiguration) && after == before
    } else {
        result == Ok::<(), MultisigError>(()) && after == before.after(action)
    }
}

/// The board members, the proposers and the vote policy in force.
#[derive(Debug)]
pub struct Membership {
    board: AddressSet,
    proposers: AddressSet,
    policy: VotePolicy,
}

impl View for Membership {
    type V = MembershipView;

    closed spec fn view(&self) -> MembershipView {
        MembershipView { board: self.board@, proposers: self.proposers@, policy: self.policy }
    }
}

impl Membership {
    /// The two lists are well formed and the content is valid.
    pub closed spec fn inv(&self) -> bool {
        &&& self.board.inv()
        &&& self.proposers.inv()
        &&& self@.valid()
    }

    /// A store that satisfies its invariant has valid content.
    pub proof fn lemma_inv_valid(&self)
        requires
            self.inv(),
        ensures
            self@.valid(),
    {
    }

    /// A store with the given board and policy and no proposers. An address
    /// listed twice counts once. Refused when the content would not be valid.
    pub fn new(board_members: &Vec<Address>, policy: VotePolicy) -> (result: Result<
        Membership,
        MultisigError,
    >)
        ensures
            match result {
                Ok(store) => {
                    &&& store.inv()
                    &&& store@ == (MembershipView {
                        board: board_members@.to_set(),
                        proposers: Set::<Address>::empty(),
                        policy,
                    })
                },
                Err(e) => {
                    &&& e == MultisigError::InvalidConfiguration
                    &&& !(MembershipView {
                        board: board_members@.to_set(),
                        proposers: Set::<Address>::empty(),
                        policy,
                    }).valid()
                },
            },
    {
        let mut board = AddressSet::new();
        let mut i: usize = 0;
        while i < board_members.len()
            invariant
                i <= board_members.len(),
                board.inv(),
                board@ == board_members@.subrange(0, i as int).to_set(),
            decreases board_members.len() - i,
        {
            let ghost prefix = board_members@.subrange(0, i as int);
            board.insert(board_members[i]);
            proof {
                let next = board_members@.subrange(0, i + 1);
                assert(next =~= prefix.push(board_members@[i as int]));
                prefix.lemma_push_to_set_commute(board_members@[i as int]);
            }
            i += 1;
        }
        assert(board_members@.subrange(0, board_members@.len() as int) =~= board_members@);
        let proposers = AddressSet::new();
        proof {
            board.lemma_view();
            proposers.lemma_view();
        }
        let count = board.len();
        if count == 0 || (policy.governance_token.is_none() && policy.quorum > count) {
            return Err(MultisigError::InvalidConfiguration);
        }
        Ok(Membership { board, proposers, policy })
    }

    /// The role that `addr` holds.
    pub fn role_of(&self, addr: &Address) -> (role: UserRole)
        requires
            self.inv(),
        ensures
            role == self@.role_of(*addr),
    {
        if self.board.contains(addr) {
            UserRole::BoardMember
        } else if self.proposers.contains(addr) {
            UserRole::Proposer
        } else {
            UserRole::Outsider
        }
    }

    /// The number of board members.
    pub fn board_size(&self) -> (n: usize)
        requires
            self.inv(),
        ensures
            n == self@.board.len(),
    {
        self.board.len()
    }

    /// The board members, each listed once.
    pub fn board_members(&self) -> (list: Vec<Address>)
        requires
            self.inv(),
        ensures
            list@.to_set() == self@.board,
            list@.no_duplicates(),
    {
        proof {
            self.board.lemma_view();
        }
        self.board.to_vec()
    }

    /// The proposers, each listed once.
    pub fn proposers(&self) -> (list: Vec<Address>)
        requires
            self.inv(),
        ensures
            list@.to_set() == self@.proposers,
            list@.no_duplicates(),
    {
        proof {
            self.proposers.lemma_view();
        }
        self.proposers.to_vec()
    }

    /// The policy in force.
    pub fn policy(&self) -> (policy: &VotePolicy)
        ensures
            *policy == self@.policy,
    {
        &self.policy
    }

    /// The number of signers, or the token balance, that an action needs.
    pub fn quorum(&self) -> (quorum: usize)
        ensures
            quorum == self@.policy.quorum,
    {
        self.policy.quorum
    }

    /// Whether the store would still be valid after `action` took effect.
    pub fn admits(&self, action: &Action) -> (ok: bool)
        requires
            self.inv(),
        ensures
            ok == self@.after(*action).valid(),
    {
        proof {
            self.board.lemma_view();
            self.proposers.lemma_view();
        }
        let count = self.board.len();
        match action {
            Action::AddBoardMember(addr) => {
                proof {
                    let next = self@.after(*action);
                    assert(next.board.len() >= count);
                    assert(next.board.disjoint(next.proposers));
                }
                true
            },
            Action::AddProposer(addr) => {
                let ok = self.board_survives_without(addr);
                proof {
                    let next = self@.after(*action);
                    assert(next.board.disjoint(next.proposers));
                }
                ok
            },
            Action::RemoveUser(addr) => {
                let ok = self.board_survives_without(addr);
                proof {
                    let next = self@.after(*action);
                    assert(next.board.disjoint(next.proposers));
                }
                ok
            },
            Action::ChangeQuorum(quorum) => self.policy.governance_token.is_some() || *quorum
                <= count,
            Action::ChangeVotePolicy { policy } => policy.governance_token.is_some()
                || policy.quorum <= count,
            _ => true,
        }
    }

    /// Whether the board stays non-empty, and large enough for a quorum that
    /// counts signers, once `addr` has left it.
    fn board_survives_without(&self, addr: &Address) -> (ok: bool)
        requires
            self.inv(),
        ensures
            ok == {
                let rest = self@.board.remove(*addr);
                rest.len() >= 1 && (self@.policy.governance_token is None ==> self@.policy.quorum
                    <= rest.len())
            },
    {
        proof {
            self.board.lemma_view();
        }
        let count = self.board.len();
        if self.board.contains(addr) {
            let rest = count - 1;
            rest >= 1 && (self.policy.governance_token.is_some() || self.policy.quorum <= rest)
        } else {
            assert(self@.board.remove(*addr) =~= self@.board);
            true
        }
    }

    /// Makes `addr` a board member; a proposer role that it held is revoked.
    /// Refused unless asked for by the executor.
    pub fn add_board_member(&mut self, authority: &Authority, addr: Address) -> (result: Result<
        (),
        MultisigError,
    >)
        requires
            old(self).inv(),
        ensures
            final(self).inv(),
            mutation_outcome(
                old(self)@,
                *authority,
                Action::AddBoardMember(addr),
                result,
                final(self)@,
            ),
    {
        if let Some(caller) = authority.caller {
            return Err(MultisigError::Unauthorized(caller));
        }
        if !self.admits(&Action::AddBoardMember(addr)) {
            return Err(MultisigError::InvalidConfiguration);
        }
        self.proposers.remove(&addr);
        self.board.insert(addr);
        Ok(())
    }

    /// Makes `addr` a proposer; a seat on the board that it held is given up.
    /// Refused unless asked for by the executor, and when the board would be
    /// left empty or too small for the quorum.
    pub fn add_proposer(&mut self, authority: &Authority, addr: Address) -> (result: Result<
        (),
        MultisigError,
    >)
        requires
            old(self).inv(),
        ensures
            final(self).inv(),
            mutation_outcome(
                old(self)@,
                *authority,
                Action::AddProposer(addr),
                result,
                final(self)@,
            ),
    {
        if let Some(caller) = authority.caller {
            return Err(MultisigError::Unauthorized(caller));
        }
        if !self.admits(&Action::AddProposer(addr)) {
            return Err(MultisigError::InvalidConfiguration);
        }
        self.board.remove(&addr);
        self.proposers.insert(addr);
        Ok(())
    }

    /// Takes every role from `addr`; nothing changes if it held none.
    /// Refused unless asked for by the executor, and when the board would be
    /// left empty or too small for the quorum.
    pub fn remove_user(&mut self, authority: &Authority, addr: Address) -> (result: Result<
        (),
        MultisigError,
    >)
        requires
            old(self).inv(),
        ensures
            final(self).inv(),
            mutation_outcome(
                old(self)@,
                *authority,
                Action::RemoveUser(addr),
                result,
                final(self)@,
            ),
    {
        if let Some(caller) = authority.caller {
            return Err(MultisigError::Unauthorized(caller));
        }
        if !self.admits(&Action::RemoveUser(addr)) {
            return Err(MultisigError::InvalidConfiguration);
        }
        self.board.remove(&addr);
        self.proposers.remove(&addr);
        Ok(())
    }

    /// Sets the quorum and keeps the governance token. Refused unless asked
    /// for by the executor, and when a quorum that counts signers would
    /// exceed the size of the board.
    pub fn change_quorum(&mut self, authority: &Authority, quorum: usize) -> (result: Result<
        (),
        MultisigError,
    >)
        requires
            old(self).inv(),
        ensures
            final(self).inv(),
            mutation_outcome(
                old(self)@,
                *authority,
                Action::ChangeQuorum(quorum),
                result,
                final(self)@,
            ),
    {
        if let Some(caller) = authority.caller {
            return Err(MultisigError::Unauthorized(caller));
        }
        if !self.admits(&Action::ChangeQuorum(quorum)) {
            return Err(MultisigError::InvalidConfiguration);
        }
        self.policy.quorum = quorum;
        Ok(())
    }

    /// Replaces the vote policy. Refused unless asked for by the executor,
    /// and when a quorum that counts signers would exceed the size of the
    /// board.
    pub fn change_vote_policy(&mut self, authority: &Authority, policy: VotePolicy) -> (result:
        Result<(), MultisigError>)
        requires
            old(self).inv(),
        ensures
            final(self).inv(),
            mutation_outcome(
                old(self)@,
                *authority,
                Action::ChangeVotePolicy { policy },
                result,
                final(self)@,
            ),
    {
        if let Some(caller) = authority.caller {
            return Err(MultisigError::Unauthorized(caller));
        }
        proof {
            self.board.lemma_view();
        }
        if policy.governance_token.is_none() && policy.quorum > self.board.len() {
            return Err(MultisigError::InvalidConfiguration);
        }
        self.policy = policy;
        Ok(())
    }
}

} // verus!
