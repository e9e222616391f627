//! A finite set of addresses.

use crate::address::Address;
use vstd::prelude::*;

verus! {

/// A set of addresses, kept as a list in which no address occurs twice.
#[derive(Debug)]
pub struct AddressSet {
    items: Vec<Address>,
}

impl View for AddressSet {
    type V = Set<Address>;

    closed spec fn view(&self) -> Set<Address> {
        self.items@.to_set()
    }
}

impl AddressSet {
    /// No address is listed twice.
    pub closed spec fn inv(&self) -> bool {
        self.items@.no_duplicates()
    }

    /// The members in the order in which they were added.
    pub closed spec fn order(&self) -> Seq<Address> {
        self.items@
    }

    /// The view is finite, and it is the set of the listed members.
    pub proof fn lemma_view(&self)
        requires
            self.inv(),
        ensures
            self@.finite(),
            self@ == self.order().to_set(),
            self.order().no_duplicates(),
            self@.len() == self.order().len(),
    {
        self.items@.unique_seq_to_set();
    }

    /// The empty set.
    pub fn new() -> (set: AddressSet)
        ensures
            set.inv(),
            set@ == Set::<Address>::empty(),
    {
        let set = AddressSet { items: Vec::new() };
        assert(set.items@.to_set() =~= Set::<Address>::empty());
        set
    }

    /// The number of members.
    pub fn len(&self) -> (n: usize)
        requires
            self.inv(),
        ensures
            n == self@.len(),
    {
        proof {
            self.items@.unique_seq_to_set();
        }
        self.items.len()
    }

    /// Whether `addr` is a member.
    pub fn contains(&self, addr: &Address) -> (found: bool)
        ensures
            found == self@.contains(*addr),
    {
        let mut i: usize = 0;
        while i < self.items.len()
            invariant
                i <= self.items.len(),
                forall|j: int| 0 <= j < i ==> self.items@[j] != *addr,
            decreases self.items.len() - i,
        {
            if self.items[i].same_as(addr) {
                assert(self.items@.contains(*addr));
                return true;
            }
            i += 1;
        }
        false
    }

    /// Adds `addr`; returns whether it was new.
    pub fn insert(&mut self, addr: Address) -> (added: bool)
        requires
            old(self).inv(),
        ensures
            final(self).inv(),
            final(self)@ == old(self)@.insert(addr),
            added == !old(self)@.contains(addr),
    {
        if self.contains(&addr) {
            assert(self@.insert(addr) =~= self@);
            false
        } else {
            let ghost before = self.items@;
            self.items.push(addr);
            assert(self.items@.to_set() =~= before.to_set().insert(addr)) by {
                assert forall|a: Address| self.items@.to_set().contains(a) implies before.to_set().insert(addr).contains(a) by {
                    let k = choose|k: int| 0 <= k < self.items@.len() && self.items@[k] == a;
                    if k < before.len() {
                        assert(before[k] == a);
                    }
                }
                assert forall|a: Address| before.to_set().insert(addr).contains(a) implies self.items@.to_set().contains(a) by {
                    if a == addr {
                        assert(self.items@[before.len() as int] == a);
                    } else {
                        let k = choose|k: int| 0 <= k < before.len() && before[k] == a;
                        assert(self.items@[k] == a);
                    }
                }
            }
            true
        }
    }

    /// Removes `addr`; returns whether it was a member.
    pub fn remove(&mut self, addr: &Address) -> (removed: bool)
        requires
            old(self).inv(),
        ensures
            final(self).inv(),
            final(self)@ == old(self)@.remove(*addr),
            removed == old(self)@.contains(*addr),
    {
        let mut i: usize = 0;
        while i < self.items.len()
            invariant
                i <= self.items.len(),
                self.items@ == old(self).items@,
                self.items@.no_duplicates(),
                forall|j: int| 0 <= j < i ==> self.items@[j] != *addr,
            decreases self.items.len() - i,
        {
            if self.items[i].same_as(addr) {
                let ghost before = self.items@;
                self.items.remove(i);
                assert(self.items@ =~= before.remove(i as int));
                assert(self.items@.no_duplicates());
                assert(self.items@.to_set() =~= before.to_set().remove(*addr)) by {
                    assert forall|a: Address| self.items@.to_set().contains(a) implies before.to_set().remove(*addr).contains(a) by {
                        let k = choose|k: int| 0 <= k < self.items@.len() && self.items@[k] == a;
                        if k < i {
                            assert(before[k] == a);
                        } else {
                            assert(before[k + 1] == a);
                        }
                    }
                    assert forall|a: Address| before.to_set().remove(*addr).contains(a) implies self.items@.to_set().contains(a) by {
                        let k = choose|k: int| 0 <= k < before.len() && before[k] == a;
                        if k < i {
                            assert(self.items@[k] == a);
                        } else {
                            assert(self.items@[k - 1] == a);
                        }
                    }
                }
                return true;
            }
            i += 1;
        }
        assert(self@.remove(*addr) =~= self@);
        false
    }

    /// Removes every member.
    pub fn clear(&mut self)
        ensures
            final(self).inv(),
            final(self)@ == Set::<Address>::empty(),
    {
        self.items.clear();
        assert(self.items@.to_set() =~= Set::<Address>::empty());
    }

    /// The members as a list without repetitions.
    pub fn to_vec(&self) -> (list: Vec<Address>)
        ensures
            list@ == self.order(),
    {
        let mut list: Vec<Address> = Vec::new();
        let mut i: usize = 0;
        while i < self.items.len()
            invariant
                i <= self.items.len(),
                list@ == self.items@.subrange(0, i as int),
            decreases self.items.len() - i,
        {
            list.push(self.items[i]);
            i += 1;
        }
        assert(self.items@.subrange(0, self.items@.len() as int) =~= self.items@);
        list
    }
}

} // verus!
