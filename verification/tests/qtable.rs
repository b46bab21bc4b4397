use reinforcement_grid::qtable::best_action_by_key;
use reinforcement_grid::{Action, QTable};

#[test]
fn test_qtable_get_set() {
    let mut qt = QTable::new(3, 3, 0.0);
    assert_eq!(qt.get((1, 1), Action::Up), 0.0);
    qt.set((1, 1), Action::Up, 5.0);
    assert_eq!(qt.get((1, 1), Action::Up), 5.0);
}

#[test]
fn test_qtable_best_action() {
    // Values that order as 1.0, 2.0, 0.0, 5.0 do: the keys are the values.
    let mut qt: QTable<u64> = QTable::new(3, 3, 0);
    qt.set((0, 0), Action::Up, 1);
    qt.set((0, 0), Action::Right, 5);
    qt.set((0, 0), Action::Down, 2);
    assert_eq!(best_action_by_key(qt.values((0, 0))), Action::Right);
}

#[test]
fn best_action_takes_the_last_of_equal_keys() {
    assert_eq!(best_action_by_key(&[0, 0, 0, 0]), Action::Right);
    assert_eq!(best_action_by_key(&[7, 3, 7, 1]), Action::Left);
    assert_eq!(best_action_by_key(&[9, 3, 7, 1]), Action::Up);
    assert_eq!(best_action_by_key(&[0, u64::MAX, 7, u64::MAX - 1]), Action::Down);
}

#[test]
fn values_are_in_action_order() {
    let mut qt = QTable::new(2, 2, 0.5);
    qt.set((1, 0), Action::Left, -3.0);
    qt.set((1, 0), Action::Down, 2.0);
    assert_eq!(qt.values((1, 0)), &[0.5, 2.0, -3.0, 0.5]);
    assert_eq!(qt.values((0, 1)), &[0.5, 0.5, 0.5, 0.5]);
}

#[test]
fn write_leaves_other_entries_alone() {
    let mut qt = QTable::new(2, 3, 1.0);
    qt.set((1, 2), Action::Right, 9.0);
    for r in 0..2 {
        for c in 0..3 {
            for a in Action::all() {
                let expected = if (r, c) == (1, 2) && *a == Action::Right { 9.0 } else { 1.0 };
                assert_eq!(qt.get((r, c), *a), expected);
            }
        }
    }
}

#[test]
fn last_write_wins() {
    let mut qt = QTable::new(1, 1, 0.0);
    qt.set((0, 0), Action::Down, 1.0);
    qt.set((0, 0), Action::Down, 2.0);
    assert_eq!(qt.get((0, 0), Action::Down), 2.0);
}
