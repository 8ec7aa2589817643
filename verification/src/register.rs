//! The delta-state register as a mathematical object: what each operation
//! does to the base, the accumulator and the retained history.

use vstd::prelude::*;
use crate::xor_fold::xor_fold;

verus! {

/// The newest `at_most` elements of `deltas`, or all of them if there are
/// fewer.
pub open spec fn newest(deltas: Seq<u64>, at_most: nat) -> Seq<u64> {
    if deltas.len() <= at_most {
        deltas
    } else {
        deltas.skip(deltas.len() - at_most)
    }
}

/// What `newest` leaves out of `deltas`: all but the newest `at_most`
/// elements.
pub open spec fn beyond_newest(deltas: Seq<u64>, at_most: nat) -> Seq<u64> {
    if deltas.len() <= at_most {
        Seq::empty()
    } else {
        deltas.take(deltas.len() - at_most)
    }
}

/// The abstract state of a delta-state register.
pub struct DeltaRegister {
    /// The last loaded snapshot.
    pub initial_state: u64,
    /// The XOR of every delta applied since the last load and not rolled back.
    pub accumulator: u64,
    /// The retained deltas, oldest first.
    pub history: Seq<u64>,
    /// The most deltas the history ever retains.
    pub max_history: nat,
}

impl DeltaRegister {
    /// The history respects its bound.
    pub open spec fn wf(self) -> bool {
        self.history.len() <= self.max_history
    }

    /// A freshly constructed register: zero base, zero accumulator, no history.
    pub open spec fn empty(max_history: nat) -> DeltaRegister {
        DeltaRegister { initial_state: 0, accumulator: 0, history: Seq::empty(), max_history }
    }

    /// Replaces the base, and forgets the accumulator and the history.
    pub open spec fn load(self, initial_state: u64) -> DeltaRegister {
        DeltaRegister {
            initial_state,
            accumulator: 0,
            history: Seq::empty(),
            max_history: self.max_history,
        }
    }

    /// Whether recording one more delta drops the oldest retained one.
    pub open spec fn evicts_on_accumulate(self) -> bool {
        self.history.len() >= self.max_history
    }

    /// XORs `delta` into the accumulator and records it at the tail of the
    /// history. When that overfills the history, the oldest recorded delta is
    /// dropped; the accumulator keeps its contribution.
    pub open spec fn accumulate(self, delta: u64) -> DeltaRegister {
        DeltaRegister {
            initial_state: self.initial_state,
            accumulator: self.accumulator ^ delta,
            history: if self.evicts_on_accumulate() {
                self.history.push(delta).skip(1)
            } else {
                self.history.push(delta)
            },
            max_history: self.max_history,
        }
    }

    /// Applies `deltas` one after another, first element first.
    pub open spec fn accumulate_all(self, deltas: Seq<u64>) -> DeltaRegister
        decreases deltas.len(),
    {
        if deltas.len() == 0 {
            self
        } else {
            self.accumulate_all(deltas.drop_last()).accumulate(deltas.last())
        }
    }

    /// The current state: the base with the accumulator folded in.
    pub open spec fn reconstruct(self) -> u64 {
        self.initial_state ^ self.accumulator
    }

    /// The accumulator is the identity: the applied deltas cancel out.
    pub open spec fn is_accumulator_zero(self) -> bool {
        self.accumulator == 0
    }

    /// How many deltas a rollback of `count` undoes: all that are asked for,
    /// as far as the history reaches.
    pub open spec fn rollback_count(self, count: nat) -> nat {
        if count <= self.history.len() {
            count
        } else {
            self.history.len()
        }
    }

    /// The deltas that a rollback of `count` undoes: the newest
    /// `rollback_count(count)` of the history.
    pub open spec fn rolled_back(self, count: nat) -> Seq<u64> {
        self.history.skip(self.history.len() - self.rollback_count(count))
    }

    /// Removes the newest `rollback_count(count)` deltas from the history and
    /// XORs each of them out of the accumulator.
    pub open spec fn rollback(self, count: nat) -> DeltaRegister {
        DeltaRegister {
            initial_state: self.initial_state,
            accumulator: self.accumulator ^ xor_fold(self.rolled_back(count)),
            history: self.history.take(self.history.len() - self.rollback_count(count)),
            max_history: self.max_history,
        }
    }

    /// What the accumulator holds beyond the fold of the retained history.
    /// A load makes it zero, a rollback keeps it, and an accumulation that
    /// evicts a delta XORs that delta into it: it is the contribution of the
    /// deltas evicted since the last load.
    pub open spec fn evicted_fold(self) -> u64 {
        self.accumulator ^ xor_fold(self.history)
    }
}

} // verus!
