use multisig_engine::action::{Action, CallActionData, CodeMetadata, VotePolicy};
use multisig_engine::address::Address;
use multisig_engine::amount::Amount;
use multisig_engine::token::TokenIdentifier;

fn addr(tag: u8) -> Address {
    Address::new([tag; 32])
}

fn call_data() -> CallActionData {
    CallActionData {
        to: addr(9),
        egld_amount: Amount::from_u64(1000),
        endpoint_name: b"deposit".to_vec(),
        arguments: vec![vec![1, 2], vec![]],
    }
}

#[test]
fn test_is_pending() {
    assert!(!Action::Nothing.is_pending());
    assert!(Action::ChangeQuorum(5).is_pending());
}

#[test]
fn every_action_but_nothing_is_pending() {
    let actions = vec![
        Action::AddBoardMember(addr(1)),
        Action::AddProposer(addr(2)),
        Action::RemoveUser(addr(3)),
        Action::ChangeQuorum(0),
        Action::SendTransferExecute(call_data()),
        Action::SendAsyncCall(call_data()),
        Action::SCDeployFromSource {
            amount: Amount::zero(),
            source: addr(4),
            code_metadata: CodeMetadata { bits: 0x0500 },
            arguments: vec![],
        },
        Action::SCUpgradeFromSource {
            sc_address: addr(5),
            amount: Amount::from_u64(7),
            source: addr(4),
            code_metadata: CodeMetadata { bits: 0 },
            arguments: vec![vec![0xff]],
        },
        Action::ChangeVotePolicy {
            policy: VotePolicy {
                governance_token: Some(TokenIdentifier::from_bytes(b"GOV-123456".to_vec())),
                quorum: 10,
            },
        },
    ];
    for action in actions.iter() {
        assert!(action.is_pending());
        assert_ne!(*action, Action::Nothing);
    }
    assert!(!Action::Nothing.is_pending());
}

#[test]
fn address_comparison_goes_by_bytes() {
    let mut bytes = [7u8; 32];
    let a = Address::new(bytes);
    assert!(a.same_as(&addr(7)));
    bytes[31] = 8;
    assert!(!a.same_as(&Address::new(bytes)));
    assert_eq!(Address::zero(), addr(0));
    assert_eq!(Address::zero().bytes, [0u8; 32]);
}
