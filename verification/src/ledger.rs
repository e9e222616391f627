//! The proposal slots and the counter that numbers them.

use crate::action::Action;
use crate::address::Address;
use crate::address_set::AddressSet;
use crate::error::MultisigError;
use vstd::prelude::*;

verus! {

/// The content of one slot: the action and the set of its signers.
#[verifier::ext_equal]
pub struct SlotView {
    pub action: Action,
    pub signers: Set<Address>,
}

/// The content of the ledger. The slot of the action with id `k` stands at
/// index `k - 1`, so the ids in use are `1..=slots.len()`.
#[verifier::ext_equal]
pub struct LedgerView {
    pub slots: Seq<SlotView>,
}

impl LedgerView {
    /// Every signer set is finite, and a slot without an action has no signers.
    pub open spec fn valid(self) -> bool {
        forall|i: int|
            0 <= i < self.slots.len() ==> {
                &&& (#[trigger] self.slots[i]).signers.finite()
                &&& (self.slots[i].action is Nothing ==> self.slots[i].signers
                    == Set::<Address>::empty())
            }
    }

    /// The id that was handed out last; 0 when none was.
    pub open spec fn last_id(self) -> nat {
        self.slots.len()
    }

    /// Whether `id` was ever handed out.
    pub open spec fn allocated(self, id: usize) -> bool {
        1 <= id <= self.slots.len()
    }

    /// The action under `id`; `Nothing` for an id that was never handed out.
    pub open spec fn action(self, id: usize) -> Action {
        if self.allocated(id) {
            self.slots[id - 1].action
        } else {
            Action::Nothing
        }
    }

    /// The signers of the action under `id`; none for an id that was never
    /// handed out.
    pub open spec fn signers(self, id: usize) -> Set<Address> {
        if self.allocated(id) {
            self.slots[id - 1].signers
        } else {
            Set::<Address>::empty()
        }
    }

    /// Whether an action waits under `id`.
    pub open spec fn pending(self, id: usize) -> bool {
        self.action(id).pending()
    }

    /// The ledger with one more slot, which holds `action` and `signers`.
    pub open spec fn appended(self, action: Action, signers: Set<Address>) -> LedgerView {
        LedgerView { slots: self.slots.push(SlotView { action, signers }) }
    }

    /// The ledger in which the slot of `id` holds `signers`, all else the same.
    pub open spec fn with_signers(self, id: usize, signers: Set<Address>) -> LedgerView {
        LedgerView {
            slots: self.slots.update(id - 1, SlotView { action: self.action(id), signers }),
        }
    }

    /// The ledger in which the slot of `id` is empty, all else the same.
    pub open spec fn resolved(self, id: usize) -> LedgerView {
        LedgerView {
            slots: self.slots.update(
                id - 1,
                SlotView { action: Action::Nothing, signers: Set::<Address>::empty() },
            ),
        }
    }
}

/// One slot of the ledger.
#[derive(Debug)]
struct ProposalSlot {
    action: Action,
    signers: AddressSet,
}

impl View for ProposalSlot {
    type V = SlotView;

    closed spec fn view(&self) -> SlotView {
        SlotView { action: self.action, signers: self.signers@ }
    }
}

/// The proposal ledger. Ids start at 1, grow by one with each stored action
/// and are never handed out again.
#[derive(Debug)]
pub struct ProposalLedger {
    slots: Vec<ProposalSlot>,
    vacant: Action,
}

impl View for ProposalLedger {
    type V = LedgerView;

    closed spec fn view(&self) -> LedgerView {
        LedgerView { slots: Seq::new(self.slots@.len(), |i: int| self.slots@[i]@) }
    }
}

impl ProposalLedger {
    /// The representation is sound and the content is valid.
    pub closed spec fn inv(&self) -> bool {
        &&& self.vacant is Nothing
        &&& forall|i: int| 0 <= i < self.slots@.len() ==> (#[trigger] self.slots@[i]).signers.inv()
        &&& self@.valid()
    }

    /// A ledger that satisfies its invariant has valid content, and its ids
    /// fit the machine's word.
    pub proof fn lemma_inv_valid(&self)
        requires
            self.inv(),
        ensures
            self@.valid(),
            self@.last_id() <= usize::MAX,
    {
        assert(self.slots.len() == self.slots@.len());
    }

    /// The empty ledger.
    pub fn new() -> (ledger: ProposalLedger)
        ensures
            ledger.inv(),
            ledger@.slots.len() == 0,
    {
        ProposalLedger { slots: Vec::new(), vacant: Action::Nothing }
    }

    /// The id that was handed out last; 0 when none was.
    pub fn last_id(&self) -> (id: usize)
        ensures
            id == self@.last_id(),
    {
        self.slots.len()
    }

    /// Whether `id` was ever handed out.
    pub fn is_allocated(&self, id: usize) -> (yes: bool)
        ensures
            yes == self@.allocated(id),
    {
        1 <= id && id <= self.slots.len()
    }

    /// The action under `id`, which is `Nothing` once the action was
    /// performed or discarded, and for an id that was never handed out.
    pub fn action(&self, id: usize) -> (action: &Action)
        requires
            self.inv(),
        ensures
            *action == self@.action(id),
    {
        if 1 <= id && id <= self.slots.len() {
            &self.slots[id - 1].action
        } else {
            &self.vacant
        }
    }

    /// Whether an action waits under `id`.
    pub fn is_pending(&self, id: usize) -> (yes: bool)
        requires
            self.inv(),
        ensures
            yes == self@.pending(id),
    {
        self.action(id).is_pending()
    }

    /// The action under `id`. Fails if `id` was never handed out.
    pub fn get(&self, id: usize) -> (result: Result<&Action, MultisigError>)
        requires
            self.inv(),
        ensures
            match result {
                Ok(action) => self@.allocated(id) && *action == self@.action(id),
                Err(e) => !self@.allocated(id) && e == MultisigError::ActionNotFound(id),
            },
    {
        if self.is_allocated(id) {
            Ok(self.action(id))
        } else {
            Err(MultisigError::ActionNotFound(id))
        }
    }

    /// The action that waits under `id`. Fails if none does: because `id`
    /// was never handed out, or because its action was performed or discarded.
    pub fn get_pending(&self, id: usize) -> (result: Result<&Action, MultisigError>)
        requires
            self.inv(),
        ensures
            match result {
                Ok(action) => self@.pending(id) && *action == self@.action(id),
                Err(e) => !self@.pending(id) && e == MultisigError::ActionNotFound(id),
            },
    {
        let action = self.action(id);
        if action.is_pending() {
            Ok(action)
        } else {
            Err(MultisigError::ActionNotFound(id))
        }
    }

    /// Whether `addr` signed the action under `id`.
    pub fn has_signed(&self, id: usize, addr: &Address) -> (yes: bool)
        requires
            self.inv(),
        ensures
            yes == self@.signers(id).contains(*addr),
    {
        if 1 <= id && id <= self.slots.len() {
            self.slots[id - 1].signers.contains(addr)
        } else {
            false
        }
    }

    /// The signers of the action under `id`, each listed once.
    pub fn signers(&self, id: usize) -> (list: Vec<Address>)
        requires
            self.inv(),
        ensures
            list@.to_set() == self@.signers(id),
            list@.no_duplicates(),
    {
        if 1 <= id && id <= self.slots.len() {
            proof {
                self.slots@[id - 1].signers.lemma_view();
            }
            self.slots[id - 1].signers.to_vec()
        } else {
            let list: Vec<Address> = Vec::new();
            assert(list@.to_set() =~= Set::<Address>::empty());
            list
        }
    }

    /// The number of signers of the action under `id`.
    pub fn signer_count(&self, id: usize) -> (n: usize)
        requires
            self.inv(),
        ensures
            n == self@.signers(id).len(),
    {
        if 1 <= id && id <= self.slots.len() {
            self.slots[id - 1].signers.len()
        } else {
            0
        }
    }

    /// The signer set of an id that was handed out.
    pub(crate) fn signer_set(&self, id: usize) -> (set: &AddressSet)
        requires
            self.inv(),
            self@.allocated(id),
        ensures
            set.inv(),
            set@ == self@.signers(id),
    {
        &self.slots[id - 1].signers
    }

    /// Stores `action` under a fresh id, signed by `first_signer` if there is
    /// one, and returns the id.
    pub(crate) fn allocate(&mut self, action: Action, first_signer: Option<Address>) -> (id: usize)
        requires
            old(self).inv(),
            action.pending(),
        ensures
            final(self).inv(),
            id == old(self)@.last_id() + 1,
            final(self)@ == old(self)@.appended(
                action,
                match first_signer {
                    Some(addr) => set![addr],
                    None => Set::<Address>::empty(),
                },
            ),
    {
        let mut signers = AddressSet::new();
        if let Some(addr) = first_signer {
            signers.insert(addr);
        }
        proof {
            signers.lemma_view();
        }
        let ghost before = self@;
        let ghost added = signers@;
        self.slots.push(ProposalSlot { action, signers });
        proof {
            assert(self@.slots =~= before.slots.push(SlotView { action, signers: added }));
            assert(added =~= match first_signer {
                Some(addr) => set![addr],
                None => Set::<Address>::empty(),
            });
        }
        self.slots.len()
    }

    /// Adds `addr` to the signers of the action that waits under `id`.
    pub(crate) fn add_signer(&mut self, id: usize, addr: Address)
        requires
            old(self).inv(),
            old(self)@.pending(id),
        ensures
            final(self).inv(),
            final(self)@ == old(self)@.with_signers(id, old(self)@.signers(id).insert(addr)),
    {
        let ghost before = self@;
        let slot = &mut self.slots[id - 1];
        slot.signers.insert(addr);
        proof {
            self.slots@[id - 1].signers.lemma_view();
            assert(self@.slots =~= before.with_signers(
                id,
                before.signers(id).insert(addr),
            ).slots);
        }
    }

    /// Removes `addr` from the signers of the action that waits under `id`.
    pub(crate) fn remove_signer(&mut self, id: usize, addr: &Address)
        requires
            old(self).inv(),
            old(self)@.pending(id),
        ensures
            final(self).inv(),
            final(self)@ == old(self)@.with_signers(id, old(self)@.signers(id).remove(*addr)),
    {
        let ghost before = self@;
        let slot = &mut self.slots[id - 1];
        slot.signers.remove(addr);
        proof {
            self.slots@[id - 1].signers.lemma_view();
            assert(self@.slots =~= before.with_signers(
                id,
                before.signers(id).remove(*addr),
            ).slots);
        }
    }

    /// Empties the slot of `id` and hands out the action that waited there.
    pub(crate) fn resolve(&mut self, id: usize) -> (action: Action)
        requires
            old(self).inv(),
            old(self)@.pending(id),
        ensures
            final(self).inv(),
            action == old(self)@.action(id),
            final(self)@ == old(self)@.resolved(id),
    {
        let ghost before = self@;
        let slot = &mut self.slots[id - 1];
        slot.signers.clear();
        let mut action = Action::Nothing;
        core::mem::swap(&mut slot.action, &mut action);
        proof {
            assert(self@.slots =~= before.resolved(id).slots);
        }
        action
    }
}

} // verus!
