//! A deterministic source of fresh addresses, for test set-ups.
//!
//! Each address is the SHA-256 digest of the one before it, starting from
//! the all-zero address, so two factories hand out the same sequence.

use crate::address::Address;
use sha2::{Digest, Sha256};
use vstd::prelude::*;

verus! {

/// Number of zero bytes at the start of a contract address.
pub const SC_ADDR_LEADING_ZEROES: usize = 8;

/// The SHA-256 digest of `data`, as `sha2` computes it. Nothing is stated
/// about its value; it depends on `data` alone.
pub uninterp spec fn sha256_digest(data: Seq<u8>) -> Seq<u8>;

/// The SHA-256 digest of 32 bytes.
///
/// The body makes a hasher with `Sha256::new`, feeds it `data` with one
/// `update` and takes the result of `finalize`. The contract is not proved;
/// it says of `sha2` that the result is determined by the bytes fed in.
#[verifier::external_body]
fn sha256(data: &[u8; 32]) -> (digest: [u8; 32])
    ensures
        digest@ == sha256_digest(data@),
{
    let mut hasher = Sha256::new();
    hasher.update(data);
    hasher.finalize().into()
}

/// `raw` with its first eight bytes set to zero.
pub open spec fn with_leading_zeroes(raw: Seq<u8>) -> Seq<u8> {
    Seq::new(raw.len(), |i: int| if i < SC_ADDR_LEADING_ZEROES { 0u8 } else { raw[i] })
}

/// The contract address that belongs to the raw address `raw`: the same
/// bytes, but for the first eight, which are zero.
pub fn sc_address_from(raw: [u8; 32]) -> (addr: Address)
    ensures
        addr.bytes@ == with_leading_zeroes(raw@),
{
    let mut bytes = raw;
    let mut i: usize = 0;
    while i < SC_ADDR_LEADING_ZEROES
        invariant
            i <= SC_ADDR_LEADING_ZEROES,
            forall|j: int| 0 <= j < i ==> bytes@[j] == 0,
            forall|j: int| i <= j < 32 ==> bytes@[j] == raw@[j],
        decreases SC_ADDR_LEADING_ZEROES - i,
    {
        bytes[i] = 0;
        i += 1;
    }
    assert(bytes@ =~= with_leading_zeroes(raw@));
    Address { bytes }
}

/// Hands out addresses, each derived from the one handed out before.
#[derive(Debug)]
pub struct AddressFactory {
    last_generated_address: [u8; 32],
}

impl AddressFactory {
    /// The raw address that was generated last; 32 zero bytes at the start.
    pub closed spec fn last(&self) -> Seq<u8> {
        self.last_generated_address@
    }

    /// A factory at the start of its sequence.
    pub fn new() -> (factory: AddressFactory)
        ensures
            factory.last() == Seq::new(32, |i: int| 0u8),
    {
        let factory = AddressFactory { last_generated_address: [0u8; 32] };
        assert(factory.last_generated_address@ =~= Seq::new(32, |i: int| 0u8));
        factory
    }

    /// The next account address: the digest of the raw address generated
    /// last.
    pub fn new_address(&mut self) -> (addr: Address)
        ensures
            addr.bytes@ == sha256_digest(old(self).last()),
            final(self).last() == addr.bytes@,
    {
        Address { bytes: self.new_address_raw() }
    }

    /// The next contract address: the digest of the raw address generated
    /// last, with its first eight bytes set to zero. The factory goes on
    /// from the digest itself.
    pub fn new_sc_address(&mut self) -> (addr: Address)
        ensures
            final(self).last() == sha256_digest(old(self).last()),
            addr.bytes@ == with_leading_zeroes(final(self).last()),
    {
        let raw = self.new_address_raw();
        sc_address_from(raw)
    }

    fn new_address_raw(&mut self) -> (raw: [u8; 32])
        ensures
            raw@ == sha256_digest(old(self).last()),
            final(self).last() == raw@,
    {
        let result = sha256(&self.last_generated_address);
        self.last_generated_address = result;
        result
    }
}

} // verus!
