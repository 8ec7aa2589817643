//! What holds of the register in every state: the algebra of its
//! operations, stated over the abstract register.

use vstd::prelude::*;
use crate::register::{beyond_newest, newest, DeltaRegister};
use crate::xor_fold::{
    lemma_xor_associative, lemma_xor_cancel, lemma_xor_fold_concat,
    lemma_xor_fold_concat_commutes, lemma_xor_fold_permutation, lemma_xor_fold_push,
    lemma_xor_fold_single, lemma_xor_fold_split, lemma_xor_identity, lemma_xor_self_inverse,
    xor_fold,
};

verus! {

/// Self-inverse: accumulating the same delta twice in a row leaves the
/// accumulator and the reconstructed state as they were, so an accumulator
/// that was zero is zero again. The base is untouched throughout. This holds
/// whether or not the history evicts; while it does not, both copies of the
/// delta are recorded.
pub proof fn law_self_inverse(register: DeltaRegister, delta: u64)
    ensures
        register.accumulate(delta).accumulate(delta).accumulator == register.accumulator,
        register.accumulate(delta).accumulate(delta).initial_state == register.initial_state,
        register.accumulate(delta).accumulate(delta).reconstruct() == register.reconstruct(),
        register.is_accumulator_zero() ==> register.accumulate(delta).accumulate(
            delta,
        ).is_accumulator_zero(),
        register.history.len() + 2 <= register.max_history ==> register.accumulate(
            delta,
        ).accumulate(delta).history == register.history.push(delta).push(delta),
{
    lemma_xor_cancel(register.accumulator, delta);
}

/// A run of accumulations XORs the fold of the run into the accumulator, and
/// changes neither the base nor the history bound, whatever is evicted on the
/// way.
pub proof fn law_accumulate_all_folds(register: DeltaRegister, deltas: Seq<u64>)
    ensures
        register.accumulate_all(deltas).accumulator == register.accumulator ^ xor_fold(deltas),
        register.accumulate_all(deltas).initial_state == register.initial_state,
        register.accumulate_all(deltas).max_history == register.max_history,
    decreases deltas.len(),
{
    if deltas.len() == 0 {
        lemma_xor_identity(register.accumulator);
    } else {
        law_accumulate_all_folds(register, deltas.drop_last());
        lemma_xor_associative(
            register.accumulator,
            xor_fold(deltas.drop_last()),
            deltas.last(),
        );
    }
}

/// Applying one run of deltas and then another is applying the two runs
/// joined.
pub proof fn law_accumulate_all_concat(register: DeltaRegister, first: Seq<u64>, second: Seq<u64>)
    ensures
        register.accumulate_all(first).accumulate_all(second) == register.accumulate_all(
            first + second,
        ),
    decreases second.len(),
{
    if second.len() > 0 {
        assert((first + second).drop_last() =~= first + second.drop_last());
        law_accumulate_all_concat(register, first, second.drop_last());
    }
}

/// Commutativity: two runs of deltas applied in either order give the same
/// accumulator and the same reconstructed state, whatever is evicted on the
/// way.
pub proof fn law_accumulate_commutes(register: DeltaRegister, first: Seq<u64>, second: Seq<u64>)
    ensures
        register.accumulate_all(first).accumulate_all(second).accumulator
            == register.accumulate_all(second).accumulate_all(first).accumulator,
        register.accumulate_all(first).accumulate_all(second).reconstruct()
            == register.accumulate_all(second).accumulate_all(first).reconstruct(),
{
    law_accumulate_all_concat(register, first, second);
    law_accumulate_all_concat(register, second, first);
    law_accumulate_all_folds(register, first + second);
    law_accumulate_all_folds(register, second + first);
    lemma_xor_fold_concat_commutes(first, second);
}

/// Commutativity of two single deltas.
pub proof fn law_accumulate_pair_commutes(register: DeltaRegister, first: u64, second: u64)
    ensures
        register.accumulate(first).accumulate(second).accumulator == register.accumulate(
            second,
        ).accumulate(first).accumulator,
        register.accumulate(first).accumulate(second).reconstruct() == register.accumulate(
            second,
        ).accumulate(first).reconstruct(),
{
    let a = register.accumulator;
    assert((a ^ first) ^ second == (a ^ second) ^ first) by (bit_vector);
}

/// Order independence: two runs that hold the same deltas, each as often as
/// in the other, give the same accumulator in whatever order each applies
/// them.
pub proof fn law_accumulate_order_irrelevant(
    register: DeltaRegister,
    deltas: Seq<u64>,
    reordered: Seq<u64>,
)
    requires
        deltas.to_multiset() == reordered.to_multiset(),
    ensures
        register.accumulate_all(deltas).accumulator == register.accumulate_all(
            reordered,
        ).accumulator,
        register.accumulate_all(deltas).reconstruct() == register.accumulate_all(
            reordered,
        ).reconstruct(),
{
    law_accumulate_all_folds(register, deltas);
    law_accumulate_all_folds(register, reordered);
    lemma_xor_fold_permutation(deltas, reordered);
}

/// Reconstruction identity: in every state the reconstructed value is the
/// base XOR the accumulator.
pub proof fn law_reconstruction_identity(register: DeltaRegister)
    ensures
        register.reconstruct() == register.initial_state ^ register.accumulator,
{
}

/// Rollback undoes accumulate: when the history has room for one more delta,
/// accumulating a delta and rolling one step back undoes exactly one delta
/// and restores the whole register, and with it the accumulator and the
/// reconstructed state.
pub proof fn law_rollback_undoes_accumulate(register: DeltaRegister, delta: u64)
    requires
        register.history.len() < register.max_history,
    ensures
        register.accumulate(delta).rollback_count(1) == 1,
        register.accumulate(delta).rollback(1) == register,
        register.accumulate(delta).rollback(1).accumulator == register.accumulator,
        register.accumulate(delta).rollback(1).reconstruct() == register.reconstruct(),
{
    let after = register.accumulate(delta);
    assert(after.rolled_back(1) =~= seq![delta]);
    lemma_xor_fold_single(delta);
    lemma_xor_cancel(register.accumulator, delta);
    assert(after.rollback(1).history =~= register.history);
}

/// Rollback restores the accumulator even from a full history, as long as
/// the register retains anything at all: the step back undoes the delta just
/// accumulated. What the accumulation evicted stays evicted.
pub proof fn law_rollback_restores_accumulator(register: DeltaRegister, delta: u64)
    requires
        register.wf(),
        register.max_history > 0,
    ensures
        register.accumulate(delta).rollback_count(1) == 1,
        register.accumulate(delta).rollback(1).accumulator == register.accumulator,
        register.accumulate(delta).rollback(1).reconstruct() == register.reconstruct(),
{
    let after = register.accumulate(delta);
    assert(after.rolled_back(1) =~= seq![delta]);
    lemma_xor_fold_single(delta);
    lemma_xor_cancel(register.accumulator, delta);
}

/// A register that retains nothing cannot roll back: the delta stays in the
/// accumulator.
pub proof fn law_no_history_no_rollback(register: DeltaRegister, delta: u64, count: nat)
    requires
        register.wf(),
        register.max_history == 0,
    ensures
        register.accumulate(delta).rollback_count(count) == 0,
        register.accumulate(delta).rollback(count) == register.accumulate(delta),
{
    let after = register.accumulate(delta);
    lemma_xor_identity(after.accumulator);
    assert(after.rollback(count).history =~= after.history);
}

/// Rollback saturation: asking for at least as many steps as the history
/// holds undoes exactly what it holds and empties it. What is left in the
/// accumulator is the contribution of the evicted deltas.
pub proof fn law_rollback_saturates(register: DeltaRegister, count: nat)
    requires
        register.history.len() <= count,
    ensures
        register.rollback_count(count) == register.history.len(),
        register.rollback(count).history == Seq::<u64>::empty(),
        register.rollback(count).accumulator == register.evicted_fold(),
{
    assert(register.rolled_back(count) =~= register.history);
}

/// Rollback saturation to the loaded state: when nothing that was evicted
/// since the last load is left in the accumulator, a saturating rollback
/// brings the accumulator back to zero, the value that the load gave it, and
/// the reconstructed state back to the base.
pub proof fn law_rollback_saturates_to_load(register: DeltaRegister, count: nat)
    requires
        register.history.len() <= count,
        register.evicted_fold() == 0,
    ensures
        register.rollback_count(count) == register.history.len(),
        register.rollback(count).history == Seq::<u64>::empty(),
        register.rollback(count).accumulator == 0,
        register.rollback(count) == register.load(register.initial_state),
        register.rollback(count).reconstruct() == register.initial_state,
{
    law_rollback_saturates(register, count);
    lemma_xor_identity(register.initial_state);
}

/// A rollback of any depth XORs out exactly the deltas it removes: the
/// history before it is the history after it followed by those deltas, and
/// the register never undoes more than was asked for or than it holds.
pub proof fn law_rollback_splits_history(register: DeltaRegister, count: nat)
    ensures
        register.rollback_count(count) <= count,
        register.rollback_count(count) <= register.history.len(),
        register.rollback_count(count) == count || register.rollback_count(count)
            == register.history.len(),
        register.rolled_back(count).len() == register.rollback_count(count),
        register.rollback(count).history + register.rolled_back(count) == register.history,
        register.rollback(count).history.len() + register.rollback_count(count)
            == register.history.len(),
        register.rollback(count).evicted_fold() == register.evicted_fold(),
{
    let kept = register.history.len() - register.rollback_count(count);
    lemma_xor_fold_split(register.history, kept);
    let (a, k, r) = (
        register.accumulator,
        xor_fold(register.history.take(kept)),
        xor_fold(register.rolled_back(count)),
    );
    assert((a ^ r) ^ k == a ^ (k ^ r)) by (bit_vector);
}

/// Only a load changes the base, and nothing changes the history bound.
pub proof fn law_base_and_bound_are_kept(register: DeltaRegister, value: u64, count: nat)
    ensures
        register.accumulate(value).initial_state == register.initial_state,
        register.rollback(count).initial_state == register.initial_state,
        register.load(value).max_history == register.max_history,
        register.accumulate(value).max_history == register.max_history,
        register.rollback(count).max_history == register.max_history,
{
}

/// History bound: the bound holds of a fresh register, and every operation
/// keeps it.
pub proof fn law_history_bound_invariant(
    register: DeltaRegister,
    max_history: nat,
    value: u64,
    count: nat,
)
    requires
        register.wf(),
    ensures
        DeltaRegister::empty(max_history).wf(),
        register.load(value).wf(),
        register.accumulate(value).wf(),
        register.rollback(count).wf(),
{
}

/// History bound: after any run of accumulations the history holds no more
/// than its bound.
pub proof fn law_history_bounded(register: DeltaRegister, deltas: Seq<u64>)
    requires
        register.wf(),
    ensures
        register.accumulate_all(deltas).wf(),
        register.accumulate_all(deltas).history.len() <= register.max_history,
    decreases deltas.len(),
{
    if deltas.len() > 0 {
        law_history_bounded(register, deltas.drop_last());
        law_accumulate_all_folds(register, deltas.drop_last());
    }
}

/// First in, first out: after any run of accumulations the history is the
/// newest part of what it held followed by the run, as much of it as the
/// bound admits. The oldest deltas are the ones evicted.
pub proof fn law_history_retains_newest(register: DeltaRegister, deltas: Seq<u64>)
    requires
        register.wf(),
    ensures
        register.accumulate_all(deltas).history == newest(
            register.history + deltas,
            register.max_history,
        ),
    decreases deltas.len(),
{
    if deltas.len() > 0 {
        let before = register.accumulate_all(deltas.drop_last());
        law_history_retains_newest(register, deltas.drop_last());
        law_accumulate_all_folds(register, deltas.drop_last());
        assert((register.history + deltas.drop_last()).push(deltas.last()) =~= register.history
            + deltas);
        assert(before.accumulate(deltas.last()).history =~= newest(
            register.history + deltas,
            register.max_history,
        ));
    }
}

/// Load reset: right after a load the base and the reconstructed state are
/// the loaded value, the accumulator is zero and the history is empty, so
/// nothing applied before can be rolled back. The bound is kept.
pub proof fn law_load_resets(register: DeltaRegister, value: u64, count: nat)
    ensures
        register.load(value).initial_state == value,
        register.load(value).accumulator == 0,
        register.load(value).is_accumulator_zero(),
        register.load(value).history.len() == 0,
        register.load(value).reconstruct() == value,
        register.load(value).max_history == register.max_history,
        register.load(value).evicted_fold() == 0,
        register.load(value).rollback_count(count) == 0,
        register.load(value) == DeltaRegister::empty(register.max_history).load(value),
{
    lemma_xor_identity(value);
    lemma_xor_identity(0);
}

/// The accumulator is the fold of the history until a delta is evicted: an
/// accumulation that evicts nothing leaves the evicted contribution as it
/// was, and one that evicts XORs the evicted delta, the oldest of the
/// history with the new delta at its tail, into it.
pub proof fn law_evicted_fold_tracks_evictions(register: DeltaRegister, delta: u64)
    ensures
        !register.evicts_on_accumulate() ==> register.accumulate(delta).evicted_fold()
            == register.evicted_fold(),
        register.evicts_on_accumulate() ==> register.accumulate(delta).evicted_fold()
            == register.evicted_fold() ^ register.history.push(delta)[0],
{
    let (a, h) = (register.accumulator, xor_fold(register.history));
    lemma_xor_fold_push(register.history, delta);
    if register.evicts_on_accumulate() {
        let recorded = register.history.push(delta);
        let evicted = recorded[0];
        let kept = xor_fold(recorded.skip(1));
        lemma_xor_fold_split(recorded, 1);
        assert(recorded.take(1) =~= seq![evicted]);
        lemma_xor_fold_single(evicted);
        assert(h ^ delta == evicted ^ kept ==> (a ^ delta) ^ kept == (a ^ h) ^ evicted)
            by (bit_vector);
    } else {
        assert((a ^ delta) ^ (h ^ delta) == a ^ h) by (bit_vector);
    }
}

/// After any run of accumulations the accumulator has gained, beyond the
/// fold of the history, the fold of what the run evicted: the oldest part of
/// the former history followed by the run, as much of it as the bound does
/// not admit.
pub proof fn law_evicted_fold_after_run(register: DeltaRegister, deltas: Seq<u64>)
    requires
        register.wf(),
    ensures
        register.accumulate_all(deltas).evicted_fold() == register.evicted_fold() ^ xor_fold(
            beyond_newest(register.history + deltas, register.max_history),
        ),
        beyond_newest(register.history + deltas, register.max_history) + register.accumulate_all(
            deltas,
        ).history == register.history + deltas,
{
    let recorded = register.history + deltas;
    let evicted = beyond_newest(recorded, register.max_history);
    let kept = newest(recorded, register.max_history);
    law_history_retains_newest(register, deltas);
    law_accumulate_all_folds(register, deltas);
    assert(evicted + kept =~= recorded);
    lemma_xor_fold_concat(evicted, kept);
    lemma_xor_fold_concat(register.history, deltas);
    let (a, h, d, e, k) = (
        register.accumulator,
        xor_fold(register.history),
        xor_fold(deltas),
        xor_fold(evicted),
        xor_fold(kept),
    );
    assert(e ^ k == h ^ d ==> (a ^ d) ^ k == (a ^ h) ^ e) by (bit_vector);
}

/// While nothing that was evicted is left in the accumulator, the
/// accumulator is zero exactly when the retained deltas cancel out.
pub proof fn law_zero_accumulator_is_cancelled_history(register: DeltaRegister)
    requires
        register.evicted_fold() == 0,
    ensures
        register.accumulator == xor_fold(register.history),
        register.is_accumulator_zero() <==> xor_fold(register.history) == 0,
{
    let (a, h) = (register.accumulator, xor_fold(register.history));
    assert(a ^ h == 0 ==> a == h) by (bit_vector);
}

/// While nothing is evicted, the accumulator is the fold of the history:
/// from a state in which it is, a run of accumulations that fits into the
/// history appends the run to the history and keeps it so.
pub proof fn law_accumulator_is_fold_of_history(register: DeltaRegister, deltas: Seq<u64>)
    requires
        register.accumulator == xor_fold(register.history),
        register.history.len() + deltas.len() <= register.max_history,
    ensures
        register.accumulate_all(deltas).history == register.history + deltas,
        register.accumulate_all(deltas).accumulator == xor_fold(
            register.accumulate_all(deltas).history,
        ),
        register.accumulate_all(deltas).evicted_fold() == 0,
{
    law_history_retains_newest(register, deltas);
    law_accumulate_all_folds(register, deltas);
    lemma_xor_fold_concat(register.history, deltas);
    lemma_xor_self_inverse(xor_fold(register.history + deltas));
}

} // verus!
