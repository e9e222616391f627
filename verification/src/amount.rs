//! Arbitrary-precision unsigned amounts.
//!
//! An amount is kept as its big-endian magnitude. The arithmetic itself is
//! done by `num_bigint`; this module states what each operation returns in
//! terms of the number that the bytes denote.

use num_bigint::BigUint;
use vstd::prelude::*;

verus! {

/// The natural number that `bytes` denotes, most significant byte first.
/// The empty sequence denotes zero and leading zero bytes do not change the value.
pub open spec fn be_value(bytes: Seq<u8>) -> nat
    decreases bytes.len(),
{
    if bytes.len() == 0 {
        0
    } else {
        be_value(bytes.drop_last()) * 256 + bytes.last() as nat
    }
}

/// A magnitude denotes zero exactly when every one of its bytes is zero.
pub proof fn lemma_be_value_all_zero(bytes: Seq<u8>)
    ensures
        be_value(bytes) == 0 <==> (forall|i: int| 0 <= i < bytes.len() ==> bytes[i] == 0),
    decreases bytes.len(),
{
    if bytes.len() > 0 {
        let front = bytes.drop_last();
        lemma_be_value_all_zero(front);
        if be_value(bytes) == 0 {
            assert(be_value(front) == 0 && bytes.last() == 0);
            assert forall|i: int| 0 <= i < bytes.len() implies bytes[i] == 0 by {
                if i < bytes.len() - 1 {
                    assert(front[i] == bytes[i]);
                }
            }
        }
        if forall|i: int| 0 <= i < bytes.len() ==> bytes[i] == 0 {
            assert forall|i: int| 0 <= i < front.len() implies front[i] == 0 by {
                assert(front[i] == bytes[i]);
            }
        }
    }
}

/// Adds two numbers given as big-endian bytes.
///
/// The body reads each argument with `BigUint::from_bytes_be`, adds the two
/// values with `+` and writes the sum with `BigUint::to_bytes_be`. The
/// contract is not proved; it says of `num_bigint` that reading takes the
/// bytes most significant first (no bytes are zero), that `+` is addition
/// without bound, and that writing gives bytes that read back as the number.
#[verifier::external_body]
fn biguint_sum_be(a: &Vec<u8>, b: &Vec<u8>) -> (sum: Vec<u8>)
    ensures
        be_value(sum@) == be_value(a@) + be_value(b@),
{
    (BigUint::from_bytes_be(a) + BigUint::from_bytes_be(b)).to_bytes_be()
}

/// Compares two numbers given as big-endian bytes.
///
/// The body reads each argument with `BigUint::from_bytes_be` and compares
/// the two values with `>=`. The contract is not proved; it says of
/// `num_bigint` that `BigUint` values are ordered as the numbers they are.
#[verifier::external_body]
fn biguint_ge_be(a: &Vec<u8>, b: &Vec<u8>) -> (ge: bool)
    ensures
        ge == (be_value(a@) >= be_value(b@)),
{
    BigUint::from_bytes_be(a) >= BigUint::from_bytes_be(b)
}

/// The big-endian bytes of a 64-bit number.
///
/// The body makes the value with `BigUint::from` and writes it with
/// `BigUint::to_bytes_be`. The contract is not proved; it says of
/// `num_bigint` that the conversion keeps the number and that writing gives
/// bytes that read back as the number.
#[verifier::external_body]
fn biguint_from_u64_be(value: u64) -> (bytes: Vec<u8>)
    ensures
        be_value(bytes@) == value,
{
    BigUint::from(value).to_bytes_be()
}

/// An unsigned amount of unbounded size, held as big-endian bytes.
///
/// Two amounts are equal under `==` when they denote the same number, even
/// if one of them carries leading zero bytes.
#[derive(Clone, Debug, Eq)]
pub struct Amount {
    pub bytes: Vec<u8>,
}

impl PartialEq for Amount {
    fn eq(&self, other: &Amount) -> (same: bool) {
        self.at_least(other) && other.at_least(self)
    }
}

impl vstd::std_specs::cmp::PartialEqSpecImpl for Amount {
    open spec fn obeys_eq_spec() -> bool {
        true
    }

    open spec fn eq_spec(&self, other: &Amount) -> bool {
        self@ == other@
    }
}

impl View for Amount {
    type V = nat;

    open spec fn view(&self) -> nat {
        be_value(self.bytes@)
    }
}

impl Amount {
    /// The amount zero.
    pub fn zero() -> (amount: Amount)
        ensures
            amount@ == 0,
            amount.bytes@.len() == 0,
    {
        Amount { bytes: Vec::new() }
    }

    /// The amount that the given big-endian bytes denote.
    pub fn from_bytes_be(bytes: Vec<u8>) -> (amount: Amount)
        ensures
            amount.bytes == bytes,
            amount@ == be_value(bytes@),
    {
        Amount { bytes }
    }

    /// The amount equal to `value`.
    pub fn from_u64(value: u64) -> (amount: Amount)
        ensures
            amount@ == value,
    {
        Amount { bytes: biguint_from_u64_be(value) }
    }

    /// The sum of the two amounts.
    pub fn plus(&self, other: &Amount) -> (sum: Amount)
        ensures
            sum@ == self@ + other@,
    {
        Amount { bytes: biguint_sum_be(&self.bytes, &other.bytes) }
    }

    /// Whether this amount is greater than or equal to `other`.
    pub fn at_least(&self, other: &Amount) -> (ge: bool)
        ensures
            ge == (self@ >= other@),
    {
        biguint_ge_be(&self.bytes, &other.bytes)
    }

    /// Whether this amount is zero.
    pub fn is_zero(&self) -> (zero: bool)
        ensures
            zero == (self@ == 0),
    {
        let mut i: usize = 0;
        while i < self.bytes.len()
            invariant
                i <= self.bytes.len(),
                forall|j: int| 0 <= j < i ==> self.bytes@[j] == 0,
            decreases self.bytes.len() - i,
        {
            if self.bytes[i] != 0 {
                proof {
                    lemma_be_value_all_zero(self.bytes@);
                }
                return false;
            }
            i += 1;
        }
        proof {
            lemma_be_value_all_zero(self.bytes@);
        }
        true
    }

    /// A copy of this amount, byte for byte.
    pub fn duplicate(&self) -> (copy: Amount)
        ensures
            copy.bytes@ == self.bytes@,
            copy@ == self@,
    {
        let bytes = self.bytes.clone();
        assert(bytes@ =~= self.bytes@);
        Amount { bytes }
    }
}

} // verus!
