use multisig_engine::action::{Action, VotePolicy};
use multisig_engine::address::Address;
use multisig_engine::address_set::AddressSet;
use multisig_engine::error::MultisigError;
use multisig_engine::ledger::ProposalLedger;
use multisig_engine::membership::{Authority, Membership, UserRole};
use multisig_engine::token::TokenIdentifier;

fn addr(tag: u8) -> Address {
    Address::new([tag; 32])
}

fn count_policy(quorum: usize) -> VotePolicy {
    VotePolicy { governance_token: None, quorum }
}

#[test]
fn address_set_holds_each_address_once() {
    let mut set = AddressSet::new();
    assert_eq!(set.len(), 0);
    assert!(set.insert(addr(1)));
    assert!(set.insert(addr(2)));
    assert!(!set.insert(addr(1)));
    assert_eq!(set.len(), 2);
    assert!(set.contains(&addr(1)));
    assert!(!set.contains(&addr(3)));
    assert_eq!(set.to_vec(), vec![addr(1), addr(2)]);
    assert!(set.remove(&addr(1)));
    assert!(!set.remove(&addr(1)));
    assert_eq!(set.to_vec(), vec![addr(2)]);
    set.clear();
    assert_eq!(set.len(), 0);
    assert!(!set.contains(&addr(2)));
}

#[test]
fn store_tells_the_role_of_each_address() {
    let store = Membership::new(&vec![addr(1), addr(2)], count_policy(2)).unwrap();
    assert_eq!(store.role_of(&addr(1)), UserRole::BoardMember);
    assert_eq!(store.role_of(&addr(3)), UserRole::Outsider);
    assert_eq!(store.board_size(), 2);
    assert_eq!(store.quorum(), 2);
    assert!(UserRole::BoardMember.can_propose());
    assert!(UserRole::BoardMember.can_sign());
    assert!(UserRole::Proposer.can_propose());
    assert!(!UserRole::Proposer.can_sign());
    assert!(!UserRole::Outsider.can_propose());
    assert!(!UserRole::Outsider.can_sign());
}

#[test]
fn store_refuses_a_board_that_cannot_reach_quorum() {
    assert_eq!(
        Membership::new(&vec![addr(1)], count_policy(2)).err(),
        Some(MultisigError::InvalidConfiguration)
    );
    assert_eq!(
        Membership::new(&vec![], count_policy(0)).err(),
        Some(MultisigError::InvalidConfiguration)
    );
}

#[test]
fn store_says_which_actions_it_admits() {
    let store = Membership::new(&vec![addr(1), addr(2)], count_policy(2)).unwrap();
    assert!(store.admits(&Action::AddBoardMember(addr(3))));
    assert!(store.admits(&Action::AddProposer(addr(3))));
    assert!(!store.admits(&Action::AddProposer(addr(1))));
    assert!(!store.admits(&Action::RemoveUser(addr(2))));
    assert!(store.admits(&Action::RemoveUser(addr(3))));
    assert!(store.admits(&Action::ChangeQuorum(0)));
    assert!(store.admits(&Action::ChangeQuorum(2)));
    assert!(!store.admits(&Action::ChangeQuorum(3)));
    assert!(!store.admits(&Action::ChangeVotePolicy { policy: count_policy(3) }));
    assert!(store.admits(&Action::ChangeVotePolicy {
        policy: VotePolicy {
            governance_token: Some(TokenIdentifier::from_bytes(b"GOV-123456".to_vec())),
            quorum: 3,
        },
    }));
    assert!(store.admits(&Action::Nothing));
}

#[test]
fn store_refuses_outside_callers() {
    let mut store = Membership::new(&vec![addr(1), addr(2)], count_policy(1)).unwrap();
    let outside = Authority::external(addr(7));
    assert_eq!(
        store.add_board_member(&outside, addr(7)),
        Err(MultisigError::Unauthorized(addr(7)))
    );
    assert_eq!(store.add_proposer(&outside, addr(7)), Err(MultisigError::Unauthorized(addr(7))));
    assert_eq!(store.remove_user(&outside, addr(1)), Err(MultisigError::Unauthorized(addr(7))));
    assert_eq!(store.change_quorum(&outside, 2), Err(MultisigError::Unauthorized(addr(7))));
    assert_eq!(
        store.change_vote_policy(&outside, count_policy(2)),
        Err(MultisigError::Unauthorized(addr(7)))
    );
    assert_eq!(store.role_of(&addr(7)), UserRole::Outsider);
    assert_eq!(store.board_size(), 2);
    assert_eq!(store.quorum(), 1);
}

#[test]
fn empty_ledger_holds_nothing() {
    let ledger = ProposalLedger::new();
    assert_eq!(ledger.last_id(), 0);
    assert!(!ledger.is_allocated(0));
    assert!(!ledger.is_allocated(1));
    assert!(!ledger.is_pending(1));
    assert_eq!(*ledger.action(1), Action::Nothing);
    assert_eq!(ledger.get(1), Err(MultisigError::ActionNotFound(1)));
    assert_eq!(ledger.get_pending(1), Err(MultisigError::ActionNotFound(1)));
    assert!(ledger.signers(1).is_empty());
    assert_eq!(ledger.signer_count(1), 0);
    assert!(!ledger.has_signed(1, &addr(1)));
}
