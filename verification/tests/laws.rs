//! The algebraic laws of the register, each on concrete values.

use delta_register::PriceTick;

#[test]
fn test_law_self_inverse() {
    let mut register = PriceTick::new();
    register.load(0x0123456789ABCDEF);
    register.accumulate(0xDEADBEEFDEADBEEF);
    let accumulator: u64 = register.get_accumulator();
    let state: u64 = register.reconstruct();
    register.accumulate(0xCAFEF00DCAFEF00D);
    register.accumulate(0xCAFEF00DCAFEF00D);
    assert_eq!(register.get_accumulator(), accumulator);
    assert_eq!(register.reconstruct(), state);
    assert_eq!(register.history_size(), 3);
}

#[test]
fn test_law_self_inverse_keeps_zero() {
    let mut register = PriceTick::new();
    register.load(77);
    assert!(register.is_accumulator_zero());
    register.accumulate(u64::MAX);
    assert!(!register.is_accumulator_zero());
    register.accumulate(u64::MAX);
    assert!(register.is_accumulator_zero());
    assert_eq!(register.reconstruct(), 77);
}

#[test]
fn test_law_self_inverse_across_eviction() {
    let mut register = PriceTick::with_max_history(1);
    register.load(5);
    register.accumulate(0x30);
    register.accumulate(0x0C);
    register.accumulate(0x0C);
    assert_eq!(register.get_accumulator(), 0x30);
    assert_eq!(register.reconstruct(), 0x35);
}

#[test]
fn test_law_commutativity() {
    let first: Vec<u64> = vec![0x0001, 0x0300, 0x7000];
    let second: Vec<u64> = vec![0x0022, 0x4400];
    let mut one_way = PriceTick::new();
    one_way.load(0xFFFF);
    for delta in first.iter() {
        one_way.accumulate(*delta);
    }
    for delta in second.iter() {
        one_way.accumulate(*delta);
    }
    let mut other_way = PriceTick::new();
    other_way.load(0xFFFF);
    for delta in second.iter() {
        other_way.accumulate(*delta);
    }
    for delta in first.iter() {
        other_way.accumulate(*delta);
    }
    assert_eq!(one_way.get_accumulator(), 0x3723);
    assert_eq!(other_way.get_accumulator(), 0x3723);
    assert_eq!(one_way.reconstruct(), other_way.reconstruct());
    assert_eq!(one_way.reconstruct(), 0xC8DC);
}

#[test]
fn test_law_commutativity_of_two_deltas() {
    let mut one_way = PriceTick::new();
    one_way.accumulate(0xA5A5);
    one_way.accumulate(0x0FF0);
    let mut other_way = PriceTick::new();
    other_way.accumulate(0x0FF0);
    other_way.accumulate(0xA5A5);
    assert_eq!(one_way.get_accumulator(), 0xAA55);
    assert_eq!(other_way.get_accumulator(), 0xAA55);
}

#[test]
fn test_law_order_irrelevant() {
    let mut forward = PriceTick::with_max_history(2);
    let mut shuffled = PriceTick::with_max_history(2);
    for delta in [1u64, 2, 4, 8, 16] {
        forward.accumulate(delta);
    }
    for delta in [8u64, 1, 16, 4, 2] {
        shuffled.accumulate(delta);
    }
    assert_eq!(forward.get_accumulator(), 31);
    assert_eq!(shuffled.get_accumulator(), 31);
}

#[test]
fn test_law_reconstruction_identity() {
    let mut register = PriceTick::with_max_history(2);
    assert_eq!(
        register.reconstruct(),
        register.get_initial_state() ^ register.get_accumulator()
    );
    register.load(0x8000000000000001);
    assert_eq!(
        register.reconstruct(),
        register.get_initial_state() ^ register.get_accumulator()
    );
    for delta in [3u64, 5, 9, 17] {
        register.accumulate(delta);
        assert_eq!(
            register.reconstruct(),
            register.get_initial_state() ^ register.get_accumulator()
        );
    }
    register.rollback(1);
    assert_eq!(
        register.reconstruct(),
        register.get_initial_state() ^ register.get_accumulator()
    );
    assert_eq!(register.reconstruct(), 0x800000000000000E);
}

#[test]
fn test_law_rollback_undoes_accumulate() {
    let mut register = PriceTick::new();
    register.load(0x00FF00FF00FF00FF);
    register.accumulate(0x1);
    let accumulator: u64 = register.get_accumulator();
    let state: u64 = register.reconstruct();
    let size: usize = register.history_size();
    register.accumulate(0x8000000000000000);
    assert_eq!(register.reconstruct(), 0x80FF00FF00FF00FE);
    assert_eq!(register.rollback(1), 1);
    assert_eq!(register.get_accumulator(), accumulator);
    assert_eq!(register.reconstruct(), state);
    assert_eq!(register.history_size(), size);
}

#[test]
fn test_law_rollback_saturation() {
    let mut register = PriceTick::new();
    register.load(0x42);
    register.accumulate(0x100);
    register.accumulate(0x200);
    register.accumulate(0x400);
    assert_eq!(register.rollback(4), 3);
    assert_eq!(register.history_size(), 0);
    assert_eq!(register.get_accumulator(), 0);
    assert_eq!(register.reconstruct(), 0x42);
}

#[test]
fn test_law_rollback_saturation_at_exact_count() {
    let mut register = PriceTick::new();
    register.load(0x42);
    register.accumulate(0x100);
    register.accumulate(0x200);
    assert_eq!(register.rollback(2), 2);
    assert_eq!(register.history_size(), 0);
    assert!(register.is_accumulator_zero());
}

#[test]
fn test_law_history_bound() {
    let mut register = PriceTick::with_max_history(5);
    let mut delta: u64 = 0;
    while delta < 100 {
        register.accumulate(delta);
        assert!(register.history_size() <= register.max_history());
        delta += 1;
    }
    assert_eq!(register.history_size(), 5);
    assert_eq!(register.rollback(100), 5);
    // The fold of 0..=99 is 0; rolling 95..=99 back leaves the fold of 0..=94.
    assert_eq!(register.get_accumulator(), 95);
}

#[test]
fn test_law_load_reset() {
    let mut register = PriceTick::new();
    register.accumulate(0xFFFF);
    register.load(0x0BADC0DE);
    assert_eq!(register.get_initial_state(), 0x0BADC0DE);
    assert_eq!(register.get_accumulator(), 0);
    assert_eq!(register.history_size(), 0);
    assert_eq!(register.reconstruct(), 0x0BADC0DE);
}

#[test]
fn test_scenario_cancel_to_loaded_state() {
    let mut register = PriceTick::new();
    register.load(0xAAAAAAAAAAAAAAAA);
    register.accumulate(0x5555555555555555);
    assert_eq!(register.reconstruct(), 0xFFFFFFFFFFFFFFFF);
    register.accumulate(0x5555555555555555);
    assert!(register.is_accumulator_zero());
    assert_eq!(register.reconstruct(), 0xAAAAAAAAAAAAAAAA);
}

#[test]
fn test_scenario_three_deltas_roll_back_two() {
    let mut register = PriceTick::new();
    register.load(0);
    register.accumulate(0x1111111111111111);
    register.accumulate(0x2222222222222222);
    register.accumulate(0x4444444444444444);
    assert_eq!(register.get_accumulator(), 0x7777777777777777);
    assert_eq!(register.rollback(2), 2);
    assert_eq!(register.get_accumulator(), 0x1111111111111111);
    assert_eq!(register.history_size(), 1);
}
