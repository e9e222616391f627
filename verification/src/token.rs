//! Token names and payments in a token.

use crate::amount::Amount;
use vstd::prelude::*;

verus! {

/// The name under which the native currency goes: the bytes of `EGLD`.
pub open spec fn egld_name() -> Seq<u8> {
    seq![69u8, 71u8, 76u8, 68u8]
}

/// The name of a token. The native currency has the reserved name `EGLD`.
#[derive(Clone, Debug, PartialEq, Eq)]
pub struct TokenIdentifier {
    pub bytes: Vec<u8>,
}

impl View for TokenIdentifier {
    type V = Seq<u8>;

    open spec fn view(&self) -> Seq<u8> {
        self.bytes@
    }
}

impl TokenIdentifier {
    /// The token with the given name.
    pub fn from_bytes(bytes: Vec<u8>) -> (token: TokenIdentifier)
        ensures
            token.bytes == bytes,
    {
        TokenIdentifier { bytes }
    }

    /// The native currency.
    pub fn egld() -> (token: TokenIdentifier)
        ensures
            token@ == egld_name(),
    {
        let mut bytes: Vec<u8> = Vec::new();
        bytes.push(69u8);
        bytes.push(71u8);
        bytes.push(76u8);
        bytes.push(68u8);
        assert(bytes@ =~= egld_name());
        TokenIdentifier { bytes }
    }

    /// Whether this is the native currency.
    pub fn is_egld(&self) -> (yes: bool)
        ensures
            yes == (self@ == egld_name()),
    {
        let yes = self.bytes.len() == 4 && self.bytes[0] == 69u8 && self.bytes[1] == 71u8
            && self.bytes[2] == 76u8 && self.bytes[3] == 68u8;
        assert(yes ==> self.bytes@ =~= egld_name());
        yes
    }

    /// Whether the token goes by the name `name`.
    pub fn is_named(&self, name: &[u8]) -> (yes: bool)
        ensures
            yes == (self@ == name@),
    {
        if self.bytes.len() != name.len() {
            return false;
        }
        let mut i: usize = 0;
        while i < name.len()
            invariant
                i <= name.len(),
                self.bytes@.len() == name@.len(),
                forall|j: int| 0 <= j < i ==> self.bytes@[j] == name@[j],
            decreases name.len() - i,
        {
            if self.bytes[i] != name[i] {
                return false;
            }
            i += 1;
        }
        assert(self.bytes@ =~= name@);
        true
    }

    /// A copy of this name.
    pub fn duplicate(&self) -> (copy: TokenIdentifier)
        ensures
            copy@ == self@,
    {
        let bytes = self.bytes.clone();
        assert(bytes@ =~= self.bytes@);
        TokenIdentifier { bytes }
    }
}

/// The kind of a token.
#[derive(Clone, Copy, Debug, PartialEq, Eq)]
pub enum EsdtTokenType {
    Fungible,
    NonFungible,
    SemiFungible,
    Meta,
    Invalid,
}

/// A payment as a plain value: kind and name of the token, the nonce that
/// tells the instances of a non-fungible token apart, and the amount.
pub struct PaymentView {
    pub token_type: EsdtTokenType,
    pub token_identifier: Seq<u8>,
    pub token_nonce: u64,
    pub amount: nat,
}

/// A payment in some token.
#[derive(Clone, Debug, PartialEq, Eq)]
pub struct EsdtTokenPayment {
    pub token_type: EsdtTokenType,
    pub token_identifier: TokenIdentifier,
    pub token_nonce: u64,
    pub amount: Amount,
}

impl View for EsdtTokenPayment {
    type V = PaymentView;

    open spec fn view(&self) -> PaymentView {
        PaymentView {
            token_type: self.token_type,
            token_identifier: self.token_identifier@,
            token_nonce: self.token_nonce,
            amount: self.amount@,
        }
    }
}

impl EsdtTokenPayment {
    /// A payment of `amount` in the given token. With nonce 0 the token
    /// counts as fungible, with any other nonce as non-fungible.
    pub fn new(token_identifier: TokenIdentifier, token_nonce: u64, amount: Amount) -> (payment:
        EsdtTokenPayment)
        ensures
            payment.token_identifier == token_identifier,
            payment.token_nonce == token_nonce,
            payment.amount == amount,
            payment.token_type == if token_nonce == 0 {
                EsdtTokenType::Fungible
            } else {
                EsdtTokenType::NonFungible
            },
    {
        let token_type = if token_nonce == 0 {
            EsdtTokenType::Fungible
        } else {
            EsdtTokenType::NonFungible
        };
        EsdtTokenPayment { token_type, token_identifier, token_nonce, amount }
    }

    /// A copy of this payment.
    pub fn duplicate(&self) -> (copy: EsdtTokenPayment)
        ensures
            copy@ == self@,
    {
        EsdtTokenPayment {
            token_type: self.token_type,
            token_identifier: self.token_identifier.duplicate(),
            token_nonce: self.token_nonce,
            amount: self.amount.duplicate(),
        }
    }
}

} // verus!
