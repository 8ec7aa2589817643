//! The XOR fold of a sequence of deltas, and the algebra that makes XOR a
//! merge operator: identity, self-inverse, commutativity and associativity.

use vstd::prelude::*;
use vstd::seq_lib::{to_multiset_build, to_multiset_contains, to_multiset_len, to_multiset_remove};

verus! {

/// The XOR of every element of `deltas`; zero, the identity, for the empty
/// sequence.
pub open spec fn xor_fold(deltas: Seq<u64>) -> u64
    decreases deltas.len(),
{
    if deltas.len() == 0 {
        0
    } else {
        xor_fold(deltas.drop_last()) ^ deltas.last()
    }
}

/// Zero is the identity of XOR.
pub proof fn lemma_xor_identity(a: u64)
    ensures
        a ^ 0 == a,
        0 ^ a == a,
{
    assert(a ^ 0 == a) by (bit_vector);
    assert(0 ^ a == a) by (bit_vector);
}

/// Every value is its own inverse under XOR.
pub proof fn lemma_xor_self_inverse(a: u64)
    ensures
        a ^ a == 0,
{
    assert(a ^ a == 0) by (bit_vector);
}

/// XOR is commutative.
pub proof fn lemma_xor_commutative(a: u64, b: u64)
    ensures
        a ^ b == b ^ a,
{
    assert(a ^ b == b ^ a) by (bit_vector);
}

/// XOR is associative.
pub proof fn lemma_xor_associative(a: u64, b: u64, c: u64)
    ensures
        (a ^ b) ^ c == a ^ (b ^ c),
{
    assert((a ^ b) ^ c == a ^ (b ^ c)) by (bit_vector);
}

/// Applying the same delta twice cancels it.
pub proof fn lemma_xor_cancel(a: u64, d: u64)
    ensures
        (a ^ d) ^ d == a,
{
    assert((a ^ d) ^ d == a) by (bit_vector);
}

/// Folding one more delta at the tail XORs it into the fold.
pub proof fn lemma_xor_fold_push(deltas: Seq<u64>, delta: u64)
    ensures
        xor_fold(deltas.push(delta)) == xor_fold(deltas) ^ delta,
{
    assert(deltas.push(delta).drop_last() =~= deltas);
}

/// The fold of a concatenation is the XOR of the folds of its parts.
pub proof fn lemma_xor_fold_concat(front: Seq<u64>, back: Seq<u64>)
    ensures
        xor_fold(front + back) == xor_fold(front) ^ xor_fold(back),
    decreases back.len(),
{
    if back.len() == 0 {
        lemma_xor_identity(xor_fold(front));
    } else {
        assert((front + back).drop_last() =~= front + back.drop_last());
        lemma_xor_fold_concat(front, back.drop_last());
        lemma_xor_associative(xor_fold(front), xor_fold(back.drop_last()), back.last());
    }
}

/// Splitting a sequence at any point splits its fold.
pub proof fn lemma_xor_fold_split(deltas: Seq<u64>, at: int)
    requires
        0 <= at <= deltas.len(),
    ensures
        xor_fold(deltas) == xor_fold(deltas.take(at)) ^ xor_fold(deltas.skip(at)),
{
    assert(deltas =~= deltas.take(at) + deltas.skip(at));
    lemma_xor_fold_concat(deltas.take(at), deltas.skip(at));
}

/// The fold of a single delta is that delta.
pub proof fn lemma_xor_fold_single(delta: u64)
    ensures
        xor_fold(seq![delta]) == delta,
{
    lemma_xor_fold_push(Seq::<u64>::empty(), delta);
    lemma_xor_identity(delta);
}

/// The order in which two runs of deltas are folded does not matter.
pub proof fn lemma_xor_fold_concat_commutes(first: Seq<u64>, second: Seq<u64>)
    ensures
        xor_fold(first + second) == xor_fold(second + first),
{
    lemma_xor_fold_concat(first, second);
    lemma_xor_fold_concat(second, first);
    lemma_xor_commutative(xor_fold(first), xor_fold(second));
}

/// Taking one delta out of a sequence XORs it out of the fold.
pub proof fn lemma_xor_fold_remove(deltas: Seq<u64>, at: int)
    requires
        0 <= at < deltas.len(),
    ensures
        xor_fold(deltas) == xor_fold(deltas.remove(at)) ^ deltas[at],
{
    let front = deltas.take(at);
    let back = deltas.skip(at + 1);
    let (p, x, q) = (xor_fold(front), deltas[at], xor_fold(back));
    assert(deltas =~= front.push(x) + back);
    lemma_xor_fold_push(front, x);
    lemma_xor_fold_concat(front.push(x), back);
    lemma_xor_fold_concat(front, back);
    assert((p ^ x) ^ q == (p ^ q) ^ x) by (bit_vector);
}

/// The fold does not depend on the order of the deltas: two sequences that
/// hold the same deltas, each as often as the other, fold to the same value.
pub proof fn lemma_xor_fold_permutation(left: Seq<u64>, right: Seq<u64>)
    requires
        left.to_multiset() == right.to_multiset(),
    ensures
        xor_fold(left) == xor_fold(right),
    decreases left.len(),
{
    to_multiset_len(left);
    to_multiset_len(right);
    if left.len() > 0 {
        let x = left.last();
        let rest = left.drop_last();
        assert(left =~= rest.push(x));
        to_multiset_build(rest, x);
        to_multiset_contains(right, x);
        let at = choose|i: int| 0 <= i < right.len() && right[i] == x;
        to_multiset_remove(right, at);
        assert(rest.to_multiset() =~= right.remove(at).to_multiset());
        lemma_xor_fold_permutation(rest, right.remove(at));
        lemma_xor_fold_remove(right, at);
    }
}

} // verus!
