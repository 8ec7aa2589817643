//! A delta-state register: a base snapshot, a running XOR accumulator of the
//! deltas applied to it, and a bounded history of those deltas for rollback.

pub mod laws;
pub mod price_tick;
pub mod register;
pub mod xor_fold;

pub use price_tick::PriceTick;
