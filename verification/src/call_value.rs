//! What was paid along with a call.
//!
//! A call carries either an amount of the native currency or a list of
//! token transfers, never both. The readers that speak of one payment go by
//! the first transfer, and by the native amount when there is no transfer.

use crate::amount::Amount;
use crate::token::{egld_name, EsdtTokenPayment, EsdtTokenType, PaymentView, TokenIdentifier};
use vstd::prelude::*;

verus! {

/// Why the payment that came with a call is refused.
#[derive(Clone, Copy, Debug, PartialEq, Eq)]
pub enum CallValueError {
    /// Something was paid to an operation that takes no payment.
    NotPayable,
    /// Tokens were transferred where only the native currency is taken.
    EsdtNotAccepted,
    /// The payment is not in the token that was asked for.
    BadTokenProvided,
}

/// The payment that came with the current call.
#[derive(Debug)]
pub struct CallValueWrapper {
    egld_value: Amount,
    esdt_transfers: Vec<EsdtTokenPayment>,
}

impl CallValueWrapper {
    /// The amount of native currency that was stored.
    pub closed spec fn egld(&self) -> nat {
        self.egld_value@
    }

    /// The token transfers, in the order in which they were attached.
    pub closed spec fn transfers(&self) -> Seq<PaymentView> {
        Seq::new(self.esdt_transfers@.len(), |i: int| self.esdt_transfers@[i]@)
    }

    /// Native currency and token transfers do not come together.
    pub open spec fn exclusive(&self) -> bool {
        self.transfers().len() > 0 ==> self.egld() == 0
    }

    /// The call seen as one payment: the first transfer, or the native
    /// amount when no token was transferred.
    pub open spec fn single_payment(&self) -> PaymentView {
        if self.transfers().len() == 0 {
            PaymentView {
                token_type: EsdtTokenType::Fungible,
                token_identifier: egld_name(),
                token_nonce: 0,
                amount: self.egld(),
            }
        } else {
            self.transfers()[0]
        }
    }

    /// A call that carries nothing.
    pub fn new() -> (value: CallValueWrapper)
        ensures
            value.egld() == 0,
            value.transfers().len() == 0,
            value.exclusive(),
    {
        CallValueWrapper { egld_value: Amount::zero(), esdt_transfers: Vec::new() }
    }

    /// A call that carries `amount` of the native currency.
    pub fn with_egld(amount: Amount) -> (value: CallValueWrapper)
        ensures
            value.egld() == amount@,
            value.transfers().len() == 0,
            value.exclusive(),
    {
        CallValueWrapper { egld_value: amount, esdt_transfers: Vec::new() }
    }

    /// A call that carries the given token transfers.
    pub fn with_esdt_transfers(transfers: Vec<EsdtTokenPayment>) -> (value: CallValueWrapper)
        ensures
            value.egld() == 0,
            value.transfers() == Seq::new(transfers@.len(), |i: int| transfers@[i]@),
            value.exclusive(),
    {
        let value = CallValueWrapper { egld_value: Amount::zero(), esdt_transfers: transfers };
        assert(value.transfers() =~= Seq::new(transfers@.len(), |i: int| transfers@[i]@));
        value
    }

    /// The number of token transfers.
    pub fn esdt_num_transfers(&self) -> (n: usize)
        ensures
            n == self.transfers().len(),
    {
        self.esdt_transfers.len()
    }

    /// The amount of native currency; zero when tokens were transferred.
    pub fn egld_value(&self) -> (amount: Amount)
        ensures
            amount@ == self.egld(),
    {
        self.egld_value.duplicate()
    }

    /// All token transfers of the call; none when nothing or only native
    /// currency was paid.
    pub fn all_esdt_transfers(&self) -> (transfers: &Vec<EsdtTokenPayment>)
        ensures
            transfers@.len() == self.transfers().len(),
            forall|i: int| 0 <= i < transfers@.len() ==> transfers@[i]@ == self.transfers()[i],
    {
        &self.esdt_transfers
    }

    /// The amount of the first token transfer; zero when there is none.
    pub fn esdt_value(&self) -> (amount: Amount)
        ensures
            amount@ == if self.transfers().len() == 0 {
                0
            } else {
                self.transfers()[0].amount
            },
    {
        if self.esdt_transfers.len() == 0 {
            Amount::zero()
        } else {
            self.esdt_transfers[0].amount.duplicate()
        }
    }

    /// The token of the payment; the native currency when no token was
    /// transferred.
    pub fn token(&self) -> (token: TokenIdentifier)
        ensures
            token@ == self.single_payment().token_identifier,
    {
        if self.esdt_transfers.len() == 0 {
            TokenIdentifier::egld()
        } else {
            self.esdt_transfers[0].token_identifier.duplicate()
        }
    }

    /// The nonce of the transferred token; 0 when no token was transferred.
    pub fn esdt_token_nonce(&self) -> (nonce: u64)
        ensures
            nonce == self.single_payment().token_nonce,
    {
        if self.esdt_transfers.len() > 0 {
            self.esdt_transfers[0].token_nonce
        } else {
            0
        }
    }

    /// The kind of the transferred token; fungible when no token was
    /// transferred.
    pub fn esdt_token_type(&self) -> (token_type: EsdtTokenType)
        ensures
            token_type == self.single_payment().token_type,
    {
        if self.esdt_transfers.len() > 0 {
            self.esdt_transfers[0].token_type
        } else {
            EsdtTokenType::Fungible
        }
    }

    /// The amount of native currency, for an operation that takes nothing
    /// else. Refused when tokens were transferred.
    pub fn require_egld(&self) -> (result: Result<Amount, CallValueError>)
        ensures
            match result {
                Ok(amount) => self.transfers().len() == 0 && amount@ == self.egld(),
                Err(e) => self.transfers().len() > 0 && e == CallValueError::EsdtNotAccepted,
            },
    {
        if self.esdt_transfers.len() > 0 {
            Err(CallValueError::EsdtNotAccepted)
        } else {
            Ok(self.egld_value.duplicate())
        }
    }

    /// The amount paid in the token `token`, for an operation that takes
    /// nothing else. Refused when the payment is not a transfer of that token.
    pub fn require_esdt(&self, token: &[u8]) -> (result: Result<Amount, CallValueError>)
        ensures
            match result {
                Ok(amount) => {
                    &&& self.transfers().len() > 0
                    &&& self.transfers()[0].token_identifier == token@
                    &&& amount@ == self.transfers()[0].amount
                },
                Err(e) => {
                    &&& e == CallValueError::BadTokenProvided
                    &&& (self.transfers().len() == 0 || self.transfers()[0].token_identifier
                        != token@)
                },
            },
    {
        if self.esdt_transfers.len() > 0 && self.esdt_transfers[0].token_identifier.is_named(
            token,
        ) {
            Ok(self.esdt_transfers[0].amount.duplicate())
        } else {
            Err(CallValueError::BadTokenProvided)
        }
    }

    /// Passes only a call that carries nothing.
    pub fn check_not_payable(&self) -> (result: Result<(), CallValueError>)
        ensures
            match result {
                Ok(()) => self.egld() == 0 && self.transfers().len() == 0,
                Err(e) => e == CallValueError::NotPayable && (self.egld() != 0
                    || self.transfers().len() > 0),
            },
    {
        if self.esdt_transfers.len() == 0 && self.egld_value.is_zero() {
            Ok(())
        } else {
            Err(CallValueError::NotPayable)
        }
    }

    /// The amount that was paid, in native currency or in a token, and the
    /// token it was paid in.
    pub fn payment_token_pair(&self) -> (pair: (Amount, TokenIdentifier))
        ensures
            pair.0@ == self.single_payment().amount,
            pair.1@ == self.single_payment().token_identifier,
    {
        if self.esdt_transfers.len() == 0 {
            (self.egld_value.duplicate(), TokenIdentifier::egld())
        } else {
            (
                self.esdt_transfers[0].amount.duplicate(),
                self.esdt_transfers[0].token_identifier.duplicate(),
            )
        }
    }

    /// The call seen as one payment.
    pub fn payment(&self) -> (payment: EsdtTokenPayment)
        ensures
            payment@ == self.single_payment(),
    {
        if self.esdt_transfers.len() == 0 {
            EsdtTokenPayment::new(TokenIdentifier::egld(), 0, self.egld_value())
        } else {
            self.esdt_transfers[0].duplicate()
        }
    }

    /// Token, nonce and amount of the call seen as one payment.
    pub fn payment_as_tuple(&self) -> (triple: (TokenIdentifier, u64, Amount))
        ensures
            triple.0@ == self.single_payment().token_identifier,
            triple.1 == self.single_payment().token_nonce,
            triple.2@ == self.single_payment().amount,
    {
        let (amount, token) = self.payment_token_pair();
        let nonce = self.esdt_token_nonce();
        (token, nonce, amount)
    }
}

} // verus!
