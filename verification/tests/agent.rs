use reinforcement_grid::agent::{xorshift_step, LOW_63_BITS};
use reinforcement_grid::{QLearning, Sarsa};

#[test]
fn qlearning_keeps_its_parameters() {
    let learner = QLearning::new(0.1, 0.9, 0.2);
    assert_eq!(learner.learning_rate(), 0.1);
    assert_eq!(learner.discount(), 0.9);
    assert_eq!(learner.epsilon(), 0.2);
}

#[test]
fn sarsa_keeps_its_parameters() {
    let learner = Sarsa::new(0.5, 1.0, 0.0);
    assert_eq!(learner.learning_rate(), 0.5);
    assert_eq!(learner.discount(), 1.0);
    assert_eq!(learner.epsilon(), 0.0);
}

#[test]
fn xorshift_known_values() {
    assert_eq!(xorshift_step(42), 45454805674);
    assert_eq!(xorshift_step(45454805674), 11532217803599905471);
    assert_eq!(xorshift_step(99), 107127404707);
    assert_eq!(xorshift_step(0), 0);
}

#[test]
fn qlearning_random_bits_from_seed() {
    let mut learner = QLearning::new(0.1, 0.9, 0.1);
    assert_eq!(learner.next_random_bits(), 45454805674);
    // The top bit of the state is masked off.
    assert_eq!(learner.next_random_bits(), 11532217803599905471 & LOW_63_BITS);
    assert_eq!(learner.next_random_bits() & !LOW_63_BITS, 0);
}

#[test]
fn sarsa_random_bits_from_seed() {
    let mut learner = Sarsa::new(0.1, 0.9, 0.1);
    assert_eq!(learner.next_random_bits(), 107127404707);
}

#[test]
fn agents_are_reproducible_and_never_stuck() {
    let mut a = QLearning::new(0.1, 0.9, 0.1);
    let mut b = QLearning::new(0.3, 0.5, 0.7);
    for _ in 0..1000 {
        let x = a.next_random_bits();
        assert_eq!(x, b.next_random_bits());
        assert!(x <= LOW_63_BITS);
    }
    let mut state = 42u64;
    for _ in 0..1000 {
        state = xorshift_step(state);
        assert_ne!(state, 0);
    }
}
