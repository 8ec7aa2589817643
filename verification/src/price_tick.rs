//! The executable register over 64-bit deltas.

use std::collections::VecDeque;
use vstd::prelude::*;
use crate::register::DeltaRegister;
use crate::xor_fold::{
    lemma_xor_associative, lemma_xor_commutative, lemma_xor_fold_concat, lemma_xor_fold_single,
    lemma_xor_identity, xor_fold,
};

verus! {

/// The history bound of a register made by [`PriceTick::new`].
pub const DEFAULT_MAX_HISTORY: usize = 4096;

/// A delta-state register for price ticks.
#[derive(Debug)]
pub struct PriceTick {
    /// The last loaded snapshot.
    initial_state: u64,
    /// The XOR of the applied deltas.
    accumulator: u64,
    /// The retained deltas, oldest first, kept for rollback.
    history: VecDeque<u64>,
    /// The most deltas that `history` retains.
    max_history: usize,
}

impl View for PriceTick {
    type V = DeltaRegister;

    closed spec fn view(&self) -> DeltaRegister {
        DeltaRegister {
            initial_state: self.initial_state,
            accumulator: self.accumulator,
            history: self.history@,
            max_history: self.max_history as nat,
        }
    }
}

impl PriceTick {
    #[verifier::type_invariant]
    spec fn inv(&self) -> bool {
        self.history@.len() <= self.max_history
    }

    /// A register with zero base, zero accumulator and no history, which
    /// retains at most [`DEFAULT_MAX_HISTORY`] deltas.
    pub fn new() -> (register: Self)
        ensures
            register@ == DeltaRegister::empty(DEFAULT_MAX_HISTORY as nat),
            register@.wf(),
    {
        Self::with_max_history(DEFAULT_MAX_HISTORY)
    }

    /// A register with zero base, zero accumulator and no history, which
    /// retains at most `max_history` deltas.
    pub fn with_max_history(max_history: usize) -> (register: Self)
        ensures
            register@ == DeltaRegister::empty(max_history as nat),
            register@.wf(),
    {
        PriceTick { initial_state: 0, accumulator: 0, history: VecDeque::new(), max_history }
    }

    /// Moves the history out, leaving an empty one in its place, so that it
    /// can be edited as a local value and put back once it is within its
    /// bound again.
    fn take_history(&mut self) -> (history: VecDeque<u64>)
        ensures
            history@ == old(self).history@,
            history@.len() <= old(self).max_history,
            final(self).history@ == Seq::<u64>::empty(),
            final(self).initial_state == old(self).initial_state,
            final(self).accumulator == old(self).accumulator,
            final(self).max_history == old(self).max_history,
    {
        proof {
            use_type_invariant(&*self);
        }
        let mut history: VecDeque<u64> = VecDeque::new();
        std::mem::swap(&mut history, &mut self.history);
        history
    }

    /// Sets the base to `initial_state`, resets the accumulator to zero and
    /// clears the history: nothing applied before can be rolled back.
    pub fn load(&mut self, initial_state: u64)
        ensures
            final(self)@ == old(self)@.load(initial_state),
            final(self)@.wf(),
    {
        let mut history = self.take_history();
        history.clear();
        self.initial_state = initial_state;
        self.accumulator = 0;
        self.history = history;
    }

    /// XORs `delta` into the accumulator and records it as the newest entry
    /// of the history. A full history drops its oldest entry to make room;
    /// the accumulator keeps what that entry contributed.
    pub fn accumulate(&mut self, delta: u64)
        ensures
            final(self)@ == old(self)@.accumulate(delta),
            final(self)@.wf(),
    {
        let mut history = self.take_history();
        history.push_back(delta);
        if history.len() > self.max_history {
            history.pop_front();
        }
        self.history = history;
        self.accumulator ^= delta;
    }

    /// The current state: the base XOR the accumulator.
    pub fn reconstruct(&self) -> (state: u64)
        ensures
            state == self@.reconstruct(),
    {
        self.initial_state ^ self.accumulator
    }

    /// Whether the accumulator is zero: no delta is applied, or those that
    /// are cancel out.
    pub fn is_accumulator_zero(&self) -> (zero: bool)
        ensures
            zero == self@.is_accumulator_zero(),
    {
        self.accumulator == 0
    }

    /// Undoes the newest `count` retained deltas, or all of them if fewer are
    /// retained, and returns how many were undone.
    pub fn rollback(&mut self, count: usize) -> (undone: usize)
        ensures
            undone == old(self)@.rollback_count(count as nat),
            final(self)@ == old(self)@.rollback(count as nat),
            final(self)@.wf(),
    {
        let ghost before = self@;
        let mut history = self.take_history();
        let mut accumulator: u64 = self.accumulator;
        let available: usize = history.len();
        let actual_count: usize = if count <= available { count } else { available };
        let mut i: usize = 0;
        proof {
            lemma_xor_identity(before.accumulator);
        }
        while i < actual_count
            invariant
                i <= actual_count <= before.history.len(),
                history@ == before.history.take(before.history.len() - i),
                accumulator == before.accumulator ^ xor_fold(
                    before.history.skip(before.history.len() - i),
                ),
            decreases actual_count - i,
        {
            let ghost undone_so_far = before.history.skip(before.history.len() - i);
            if let Some(delta) = history.pop_back() {
                accumulator ^= delta;
                proof {
                    let now = before.history.skip(before.history.len() - i - 1);
                    assert(now =~= seq![delta] + undone_so_far);
                    lemma_xor_fold_concat(seq![delta], undone_so_far);
                    lemma_xor_fold_single(delta);
                    lemma_xor_commutative(delta, xor_fold(undone_so_far));
                    lemma_xor_associative(before.accumulator, xor_fold(undone_so_far), delta);
                }
            }
            i += 1;
        }
        self.accumulator = accumulator;
        self.history = history;
        actual_count
    }

    /// The accumulator: the XOR of the applied deltas.
    pub fn get_accumulator(&self) -> (accumulator: u64)
        ensures
            accumulator == self@.accumulator,
    {
        self.accumulator
    }

    /// The base: the value given to the last `load`, or zero before any.
    pub fn get_initial_state(&self) -> (initial_state: u64)
        ensures
            initial_state == self@.initial_state,
    {
        self.initial_state
    }

    /// How many deltas the history retains; never more than the bound.
    pub fn history_size(&self) -> (size: usize)
        ensures
            size == self@.history.len(),
            size <= self@.max_history,
    {
        proof {
            use_type_invariant(self);
        }
        self.history.len()
    }

    /// The most deltas the history retains.
    pub fn max_history(&self) -> (max_history: usize)
        ensures
            max_history == self@.max_history,
    {
        self.max_history
    }
}

impl Default for PriceTick {
    /// The same register as [`PriceTick::new`].
    fn default() -> (register: Self)
        ensures
            register@ == DeltaRegister::empty(DEFAULT_MAX_HISTORY as nat),
            register@.wf(),
    {
        Self::new()
    }
}

impl Clone for PriceTick {
    /// A register in the same state.
    fn clone(&self) -> (copy: Self)
        ensures
            copy@ == self@,
    {
        proof {
            use_type_invariant(self);
        }
        let history = self.history.clone();
        PriceTick {
            initial_state: self.initial_state,
            accumulator: self.accumulator,
            history,
            max_history: self.max_history,
        }
    }
}

} // verus!
