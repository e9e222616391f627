use multisig_engine::amount::Amount;
use multisig_engine::call_value::{CallValueError, CallValueWrapper};
use multisig_engine::token::{EsdtTokenPayment, EsdtTokenType, TokenIdentifier};

fn token(name: &[u8]) -> TokenIdentifier {
    TokenIdentifier::from_bytes(name.to_vec())
}

fn nft_transfer() -> EsdtTokenPayment {
    EsdtTokenPayment {
        token_type: EsdtTokenType::SemiFungible,
        token_identifier: token(b"SFT-abcdef"),
        token_nonce: 42,
        amount: Amount::from_u64(3),
    }
}

fn two_transfers() -> CallValueWrapper {
    CallValueWrapper::with_esdt_transfers(vec![
        nft_transfer(),
        EsdtTokenPayment::new(token(b"TOK-123456"), 0, Amount::from_u64(500)),
    ])
}

#[test]
fn empty_call_carries_nothing() {
    let value = CallValueWrapper::new();
    assert!(value.egld_value().is_zero());
    assert!(value.esdt_value().is_zero());
    assert_eq!(value.esdt_num_transfers(), 0);
    assert!(value.all_esdt_transfers().is_empty());
    assert_eq!(value.check_not_payable(), Ok(()));
}

#[test]
fn egld_call_reads_as_native_payment() {
    let value = CallValueWrapper::with_egld(Amount::from_u64(1_000_000));
    assert_eq!(value.egld_value(), Amount::from_u64(1_000_000));
    assert!(value.esdt_value().is_zero());
    assert!(value.token().is_egld());
    assert_eq!(value.token().bytes, b"EGLD".to_vec());
    assert_eq!(value.esdt_token_nonce(), 0);
    assert_eq!(value.esdt_token_type(), EsdtTokenType::Fungible);
    assert!(value.all_esdt_transfers().is_empty());
    let payment = value.payment();
    assert_eq!(payment.token_identifier, TokenIdentifier::egld());
    assert_eq!(payment.token_nonce, 0);
    assert_eq!(payment.amount, Amount::from_u64(1_000_000));
    assert_eq!(payment.token_type, EsdtTokenType::Fungible);
}

#[test]
fn esdt_call_reads_the_first_transfer() {
    let value = two_transfers();
    assert!(value.egld_value().is_zero());
    assert_eq!(value.esdt_num_transfers(), 2);
    assert_eq!(value.esdt_value(), Amount::from_u64(3));
    assert_eq!(value.token(), token(b"SFT-abcdef"));
    assert!(!value.token().is_egld());
    assert_eq!(value.esdt_token_nonce(), 42);
    assert_eq!(value.esdt_token_type(), EsdtTokenType::SemiFungible);
    assert_eq!(value.payment(), nft_transfer());
    assert_eq!(value.all_esdt_transfers().len(), 2);
    assert_eq!(value.all_esdt_transfers()[1].amount, Amount::from_u64(500));
}

#[test]
fn payment_token_pair_and_tuple_agree_with_payment() {
    let value = two_transfers();
    let (amount, tok) = value.payment_token_pair();
    assert_eq!(amount, Amount::from_u64(3));
    assert_eq!(tok, token(b"SFT-abcdef"));
    let (tok, nonce, amount) = value.payment_as_tuple();
    assert_eq!(tok, token(b"SFT-abcdef"));
    assert_eq!(nonce, 42);
    assert_eq!(amount, Amount::from_u64(3));

    let native = CallValueWrapper::with_egld(Amount::from_u64(9));
    let (amount, tok) = native.payment_token_pair();
    assert_eq!(amount, Amount::from_u64(9));
    assert!(tok.is_egld());
    let (tok, nonce, amount) = native.payment_as_tuple();
    assert!(tok.is_egld());
    assert_eq!(nonce, 0);
    assert_eq!(amount, Amount::from_u64(9));
}

#[test]
fn require_egld_refuses_token_transfers() {
    let native = CallValueWrapper::with_egld(Amount::from_u64(9));
    assert_eq!(native.require_egld(), Ok(Amount::from_u64(9)));
    assert_eq!(CallValueWrapper::new().require_egld(), Ok(Amount::zero()));
    assert_eq!(two_transfers().require_egld(), Err(CallValueError::EsdtNotAccepted));
}

#[test]
fn require_esdt_asks_for_the_named_token() {
    let value = two_transfers();
    assert_eq!(value.require_esdt(b"SFT-abcdef"), Ok(Amount::from_u64(3)));
    assert_eq!(value.require_esdt(b"TOK-123456"), Err(CallValueError::BadTokenProvided));
    assert_eq!(value.require_esdt(b"SFT-abcde"), Err(CallValueError::BadTokenProvided));
    let native = CallValueWrapper::with_egld(Amount::from_u64(9));
    assert_eq!(native.require_esdt(b"EGLD"), Err(CallValueError::BadTokenProvided));
}

#[test]
fn check_not_payable_refuses_any_payment() {
    assert_eq!(CallValueWrapper::with_egld(Amount::zero()).check_not_payable(), Ok(()));
    assert_eq!(
        CallValueWrapper::with_egld(Amount::from_u64(1)).check_not_payable(),
        Err(CallValueError::NotPayable)
    );
    assert_eq!(two_transfers().check_not_payable(), Err(CallValueError::NotPayable));
}

#[test]
fn new_payment_is_fungible_only_with_nonce_zero() {
    let fungible = EsdtTokenPayment::new(token(b"TOK-123456"), 0, Amount::from_u64(1));
    assert_eq!(fungible.token_type, EsdtTokenType::Fungible);
    let nft = EsdtTokenPayment::new(token(b"NFT-123456"), 5, Amount::from_u64(1));
    assert_eq!(nft.token_type, EsdtTokenType::NonFungible);
    assert_eq!(nft.duplicate(), nft);
}

#[test]
fn token_names_compare_byte_by_byte() {
    let tok = token(b"TOK-123456");
    assert!(tok.is_named(b"TOK-123456"));
    assert!(!tok.is_named(b"TOK-123457"));
    assert!(!tok.is_named(b"TOK"));
    assert!(!tok.is_egld());
    assert!(token(b"EGLD").is_egld());
    assert!(!token(b"EGLE").is_egld());
    assert_eq!(tok.duplicate(), tok);
}
