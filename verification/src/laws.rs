//! Laws of the engine, proved of every state and every input.
//!
//! The laws of the engine speak of [`MultisigView`], the state that the
//! contracts of the executable operations are stated over. The others speak
//! of the numbers that amounts denote and of the weight of a set of signers.

use crate::action::Action;
use crate::address::Address;
use crate::engine::MultisigView;
use crate::error::MultisigError;
use crate::executor::Effect;
use crate::amount::be_value;
use crate::voting::{lemma_quorum_monotonic, signed_weight, TokenBalance};
use vstd::prelude::*;

verus! {

/// After a successful `propose`, the new id holds the proposed action, and
/// its signers are the proposer alone if it sits on the board, else nobody.
pub proof fn law_propose_stores_action(state: MultisigView, action: Action, proposer: Address)
    requires
        state.valid(),
        state.ledger.last_id() < usize::MAX,
        state.propose_result(action, proposer) is Ok,
    ensures
        ({
            let id = state.propose_result(action, proposer)->Ok_0;
            let next = state.after_propose(action, proposer);
            &&& id == state.ledger.last_id() + 1
            &&& next.get_result(id) == Ok::<Action, MultisigError>(action)
            &&& state.membership.role_of(proposer) is BoardMember ==> next.signers(id)
                == set![proposer]
            &&& !(state.membership.role_of(proposer) is BoardMember) ==> next.signers(id)
                == Set::<Address>::empty()
        }),
{
}

/// A refused `propose` leaves the state as it was, so the next accepted
/// proposal gets the id that it would have got without the refused one.
pub proof fn law_refused_propose_uses_no_id(
    state: MultisigView,
    refused: Action,
    action: Action,
    refused_by: Address,
    proposer: Address,
)
    requires
        state.propose_result(refused, refused_by) is Err,
    ensures
        state.after_propose(refused, refused_by) == state,
        state.after_propose(refused, refused_by).propose_result(action, proposer)
            == state.propose_result(action, proposer),
{
}

/// `propose` hands out ids in increasing order and leaves every slot that
/// existed before as it was: no id is used twice and no emptied slot is
/// filled again.
pub proof fn law_propose_keeps_older_slots(
    state: MultisigView,
    action: Action,
    proposer: Address,
    id: usize,
)
    requires
        state.ledger.allocated(id),
    ensures
        state.after_propose(action, proposer).ledger.last_id() >= state.ledger.last_id(),
        state.after_propose(action, proposer).action(id) == state.action(id),
        state.after_propose(action, proposer).signers(id) == state.signers(id),
{
}

/// Signing twice is the same as signing once.
pub proof fn law_sign_is_idempotent(state: MultisigView, id: usize, signer: Address)
    ensures
        state.after_sign(id, signer).after_sign(id, signer) == state.after_sign(id, signer),
{
    let once = state.after_sign(id, signer);
    let twice = once.after_sign(id, signer);
    if state.vote_result(id, signer) is Ok {
        assert(once.vote_result(id, signer) is Ok);
        assert(once.signers(id).insert(signer) =~= once.signers(id));
        assert(twice.ledger.slots =~= once.ledger.slots);
    }
    assert(twice =~= once);
}

/// Unsigning an address that has not signed changes nothing.
pub proof fn law_unsign_of_non_signer_changes_nothing(
    state: MultisigView,
    id: usize,
    signer: Address,
)
    requires
        !state.signers(id).contains(signer),
    ensures
        state.after_unsign(id, signer) == state,
{
    let next = state.after_unsign(id, signer);
    if state.vote_result(id, signer) is Ok {
        assert(state.signers(id).remove(signer) =~= state.signers(id));
        assert(next.ledger.slots =~= state.ledger.slots);
    }
    assert(next =~= state);
}

/// Signing and then unsigning leaves the signers of the action without the
/// address, and every other part of the state as it was. For an address that
/// had not signed before, the state is back where it started.
pub proof fn law_sign_then_unsign(state: MultisigView, id: usize, signer: Address)
    ensures
        ({
            let back = state.after_sign(id, signer).after_unsign(id, signer);
            &&& back.membership == state.membership
            &&& back.ledger.slots.len() == state.ledger.slots.len()
            &&& forall|k: usize| k != id ==> back.signers(k) == state.signers(k)
            &&& forall|k: usize| back.action(k) == state.action(k)
            &&& state.vote_result(id, signer) is Ok ==> back.signers(id) == state.signers(
                id,
            ).remove(signer)
            &&& !state.signers(id).contains(signer) ==> back == state
        }),
{
    let signed = state.after_sign(id, signer);
    let back = signed.after_unsign(id, signer);
    if state.vote_result(id, signer) is Ok {
        assert(signed.vote_result(id, signer) is Ok);
        assert(state.signers(id).insert(signer).remove(signer) =~= state.signers(id).remove(
            signer,
        ));
        if !state.signers(id).contains(signer) {
            assert(state.signers(id).remove(signer) =~= state.signers(id));
            assert(back.ledger.slots =~= state.ledger.slots);
            assert(back =~= state);
        }
    } else {
        assert(back =~= state);
    }
}

/// Once an action has reached quorum, a further signature does not take the
/// quorum away. This holds whether the policy counts signers or weighs
/// their balances.
pub proof fn law_quorum_is_monotonic(
    state: MultisigView,
    id: usize,
    signer: Address,
    balances: Seq<TokenBalance>,
)
    requires
        state.valid(),
        state.quorum_reached(id, balances),
    ensures
        state.after_sign(id, signer).quorum_reached(id, balances),
{
    lemma_quorum_monotonic(state.membership.policy, state.signers(id), signer, balances);
}

/// After a successful `perform` the slot is empty: `get` returns `Nothing`
/// and nobody is left among the signers. Performing the same id again fails
/// with `ActionAlreadyResolved`, whatever the balances.
pub proof fn law_perform_resolves(
    state: MultisigView,
    id: usize,
    balances: Seq<TokenBalance>,
    later_balances: Seq<TokenBalance>,
)
    requires
        state.perform_result(id, balances) is Ok,
    ensures
        ({
            let next = state.after_perform(id, balances);
            &&& next.get_result(id) == Ok::<Action, MultisigError>(Action::Nothing)
            &&& next.signers(id) == Set::<Address>::empty()
            &&& next.perform_result(id, later_balances) == Err::<Effect, MultisigError>(
                MultisigError::ActionAlreadyResolved(id),
            )
            &&& next.after_perform(id, later_balances) == next
        }),
{
}

/// A refused `perform` changes nothing. In particular an action that would
/// leave the board empty, or too small for the quorum, stays in its slot and
/// the membership stays as it was.
pub proof fn law_refused_perform_changes_nothing(
    state: MultisigView,
    id: usize,
    balances: Seq<TokenBalance>,
)
    requires
        state.perform_result(id, balances) is Err,
    ensures
        state.after_perform(id, balances) == state,
{
}

/// A successful `discard` empties the slot, whether or not the action had
/// reached quorum, and leaves membership and policy as they were.
pub proof fn law_discard_resolves(
    state: MultisigView,
    id: usize,
    caller: Address,
    balances: Seq<TokenBalance>,
)
    requires
        state.discard_result(id, caller, balances) is Ok,
    ensures
        ({
            let next = state.after_discard(id, caller, balances);
            &&& next.get_result(id) == Ok::<Action, MultisigError>(Action::Nothing)
            &&& next.signers(id) == Set::<Address>::empty()
            &&& next.membership == state.membership
        }),
{
}

/// A board member that signed a waiting action can discard it whatever the
/// quorum state is, and any board member can discard a waiting action that
/// has not reached quorum.
pub proof fn law_who_may_discard(
    state: MultisigView,
    id: usize,
    caller: Address,
    balances: Seq<TokenBalance>,
)
    requires
        state.ledger.pending(id),
        state.membership.role_of(caller) is BoardMember,
        state.signers(id).contains(caller) || !state.quorum_reached(id, balances),
    ensures
        state.discard_result(id, caller, balances) == Ok::<(), MultisigError>(()),
        state.after_discard(id, caller, balances).action(id) == Action::Nothing,
{
}

/// An operation that is refused changes nothing.
pub proof fn law_refusals_change_nothing(
    state: MultisigView,
    id: usize,
    action: Action,
    addr: Address,
    balances: Seq<TokenBalance>,
)
    ensures
        state.propose_result(action, addr) is Err ==> state.after_propose(action, addr) == state,
        state.vote_result(id, addr) is Err ==> state.after_sign(id, addr) == state,
        state.vote_result(id, addr) is Err ==> state.after_unsign(id, addr) == state,
        state.discard_result(id, addr, balances) is Err ==> state.after_discard(
            id,
            addr,
            balances,
        ) == state,
        state.perform_result(id, balances) is Err ==> state.after_perform(id, balances) == state,
{
}

/// An emptied slot stays empty: a board member that signs, unsigns or
/// discards there, and anyone who performs there, is told that the action
/// was already resolved, and `propose` never fills the slot again.
pub proof fn law_resolved_is_final(
    state: MultisigView,
    id: usize,
    member: Address,
    action: Action,
    balances: Seq<TokenBalance>,
)
    requires
        state.ledger.allocated(id),
        !state.ledger.pending(id),
        state.membership.role_of(member) is BoardMember,
    ensures
        state.vote_result(id, member) == Err::<(), MultisigError>(
            MultisigError::ActionAlreadyResolved(id),
        ),
        state.discard_result(id, member, balances) == Err::<(), MultisigError>(
            MultisigError::ActionAlreadyResolved(id),
        ),
        state.perform_result(id, balances) == Err::<Effect, MultisigError>(
            MultisigError::ActionAlreadyResolved(id),
        ),
        state.after_propose(action, member).action(id) == Action::Nothing,
{
}

/// `perform` and `discard` touch no slot but their own. So an action that
/// waits in another slot keeps its signers, and whether it has reached
/// quorum is decided by the policy in force when that is asked.
pub proof fn law_other_slots_are_kept(
    state: MultisigView,
    id: usize,
    other: usize,
    caller: Address,
    balances: Seq<TokenBalance>,
)
    requires
        other != id,
    ensures
        state.after_perform(id, balances).action(other) == state.action(other),
        state.after_perform(id, balances).signers(other) == state.signers(other),
        state.after_discard(id, caller, balances).action(other) == state.action(other),
        state.after_discard(id, caller, balances).signers(other) == state.signers(other),
        state.after_sign(id, caller).action(other) == state.action(other),
        state.after_sign(id, caller).signers(other) == state.signers(other),
        state.after_unsign(id, caller).action(other) == state.action(other),
        state.after_unsign(id, caller).signers(other) == state.signers(other),
{
}

/// No operation takes an id back: the counter never goes down, and an id
/// that was handed out stays handed out.
pub proof fn law_ids_are_never_taken_back(
    state: MultisigView,
    id: usize,
    action: Action,
    addr: Address,
    balances: Seq<TokenBalance>,
)
    ensures
        state.after_propose(action, addr).ledger.last_id() >= state.ledger.last_id(),
        state.after_sign(id, addr).ledger.last_id() == state.ledger.last_id(),
        state.after_unsign(id, addr).ledger.last_id() == state.ledger.last_id(),
        state.after_discard(id, addr, balances).ledger.last_id() == state.ledger.last_id(),
        state.after_perform(id, balances).ledger.last_id() == state.ledger.last_id(),
{
}

/// Every operation takes a valid state to a valid state: the board is never
/// empty, no address holds two roles, a quorum that counts signers never
/// exceeds the size of the board, and an empty slot has no signers.
pub proof fn law_operations_keep_validity(
    state: MultisigView,
    id: usize,
    action: Action,
    addr: Address,
    balances: Seq<TokenBalance>,
)
    requires
        state.valid(),
    ensures
        state.after_propose(action, addr).valid(),
        state.after_sign(id, addr).valid(),
        state.after_unsign(id, addr).valid(),
        state.after_discard(id, addr, balances).valid(),
        state.after_perform(id, balances).valid(),
{
}

/// A zero byte in front of the bytes of an amount does not change the
/// number that they denote.
pub proof fn law_leading_zero_keeps_the_amount(bytes: Seq<u8>)
    ensures
        be_value(seq![0u8] + bytes) == be_value(bytes),
    decreases bytes.len(),
{
    let padded = seq![0u8] + bytes;
    if bytes.len() == 0 {
        assert(padded.drop_last() =~= Seq::<u8>::empty());
        assert(be_value(padded.drop_last()) == 0);
        assert(padded.last() == 0);
    } else {
        law_leading_zero_keeps_the_amount(bytes.drop_last());
        assert(padded.drop_last() =~= seq![0u8] + bytes.drop_last());
        assert(padded.last() == bytes.last());
    }
}

/// The signatures of nobody weigh nothing.
pub proof fn law_nobody_weighs_nothing(balances: Seq<TokenBalance>)
    ensures
        signed_weight(balances, Set::<Address>::empty()) == 0,
    decreases balances.len(),
{
    if balances.len() > 0 {
        law_nobody_weighs_nothing(balances.drop_last());
    }
}

/// The signed weight is the sum, over the signers, of what the snapshot
/// gives to each of them: a new signer adds exactly its own holdings.
pub proof fn law_signed_weight_is_a_sum(
    balances: Seq<TokenBalance>,
    signers: Set<Address>,
    signer: Address,
)
    requires
        !signers.contains(signer),
    ensures
        signed_weight(balances, signers.insert(signer)) == signed_weight(balances, signers)
            + signed_weight(balances, set![signer]),
    decreases balances.len(),
{
    if balances.len() > 0 {
        law_signed_weight_is_a_sum(balances.drop_last(), signers, signer);
    }
}

} // verus!
