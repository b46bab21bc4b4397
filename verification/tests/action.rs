use reinforcement_grid::Action;

#[test]
fn test_action_apply() {
    assert_eq!(Action::Up.apply((2, 2)), (1, 2));
    assert_eq!(Action::Down.apply((2, 2)), (3, 2));
    assert_eq!(Action::Left.apply((2, 2)), (2, 1));
    assert_eq!(Action::Right.apply((2, 2)), (2, 3));
}

#[test]
fn action_all_lists_the_four_actions_in_order() {
    assert_eq!(Action::all(), &[Action::Up, Action::Down, Action::Left, Action::Right]);
    assert_eq!(Action::count(), 4);
    assert_eq!(Action::all().len(), Action::count());
}

#[test]
fn action_index_round_trip() {
    for (i, a) in Action::all().iter().enumerate() {
        assert_eq!(a.index(), i);
        assert_eq!(Action::from_index(i), *a);
    }
    assert_eq!(Action::from_index(4), Action::Right);
    assert_eq!(Action::from_index(usize::MAX), Action::Right);
}

#[test]
fn action_apply_at_the_origin_goes_negative() {
    assert_eq!(Action::Up.apply((0, 0)), (-1, 0));
    assert_eq!(Action::Left.apply((0, 0)), (0, -1));
}

#[test]
fn opposite_actions_undo_each_other() {
    let (r, c) = Action::Down.apply((4, 7));
    assert_eq!(Action::Up.apply((r as usize, c as usize)), (4, 7));
    let (r, c) = Action::Left.apply((4, 7));
    assert_eq!(Action::Right.apply((r as usize, c as usize)), (4, 7));
}

#[test]
fn applicable_unless_a_coordinate_overflows() {
    assert!(Action::Up.is_applicable((0, 0)));
    assert!(Action::Down.is_applicable((0, 0)));
    assert!(!Action::Down.is_applicable((isize::MAX as usize, 0)));
    assert!(!Action::Right.is_applicable((0, isize::MAX as usize)));
    assert!(Action::Up.is_applicable((isize::MAX as usize, 0)));
    assert!(!Action::Up.is_applicable((1usize << 63, 0)));
    assert!(Action::Up.is_applicable((usize::MAX, 0)));
    assert_eq!(Action::Up.apply((usize::MAX, 0)), (-2, 0));
}
