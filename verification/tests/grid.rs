use reinforcement_grid::{Action, Cell, GridWorld};

fn grid(rows: usize, cols: usize) -> GridWorld<f64> {
    GridWorld::new(rows, cols, -1.0, 0.0)
}

#[test]
fn test_grid_creation() {
    let grid = grid(3, 4);
    assert_eq!(grid.rows(), 3);
    assert_eq!(grid.cols(), 4);
}

#[test]
fn test_grid_wall() {
    let mut grid = grid(3, 3);
    grid.set_wall(1, 1);
    assert!(grid.is_wall((1, 1)));
    assert!(!grid.is_wall((0, 0)));
}

#[test]
fn test_grid_terminal() {
    let mut grid = grid(3, 3);
    grid.set_terminal(2, 2, 10.0);
    assert!(grid.is_terminal((2, 2)));
    assert!((grid.reward((2, 2)) - 10.0).abs() < 1e-10);
}

#[test]
fn test_grid_step_valid() {
    let mut grid = grid(4, 4);
    grid.set_terminal(3, 3, 10.0);
    let (ns, _reward) = grid.step((0, 0), Action::Right);
    assert_eq!(ns, (0, 1));
}

#[test]
fn test_grid_step_wall() {
    let mut grid = grid(3, 3);
    grid.set_wall(0, 1);
    let (ns, _) = grid.step((0, 0), Action::Right);
    assert_eq!(ns, (0, 0)); // Bounced back
}

#[test]
fn test_grid_step_out_of_bounds() {
    let grid = grid(3, 3);
    let (ns, _) = grid.step((0, 0), Action::Up);
    assert_eq!(ns, (0, 0)); // Stayed
}

#[test]
fn test_grid_valid_states() {
    let mut grid = grid(3, 3);
    grid.set_wall(1, 1);
    grid.set_terminal(2, 2, 10.0);
    let states = grid.valid_states();
    assert_eq!(states.len(), 7); // 9 - 1 wall - 1 terminal
    assert!(!states.contains(&(1, 1)));
    assert!(!states.contains(&(2, 2)));
}

#[test]
fn new_grid_cells_are_normal_with_the_default_reward() {
    let grid = grid(2, 3);
    for r in 0..2 {
        for c in 0..3 {
            assert_eq!(*grid.cell(r, c), Cell::Normal(-1.0));
            assert_eq!(grid.reward((r, c)), -1.0);
            assert!(!grid.is_wall((r, c)));
            assert!(!grid.is_terminal((r, c)));
        }
    }
}

#[test]
fn valid_states_are_in_row_major_order() {
    let mut grid = grid(2, 3);
    assert_eq!(grid.valid_states(), vec![(0, 0), (0, 1), (0, 2), (1, 0), (1, 1), (1, 2)]);
    grid.set_wall(0, 1);
    grid.set_terminal(1, 0, 5.0);
    assert_eq!(grid.valid_states(), vec![(0, 0), (0, 2), (1, 1), (1, 2)]);
}

#[test]
fn step_into_terminal_collects_its_reward() {
    let mut grid = grid(3, 3);
    grid.set_terminal(2, 2, 10.0);
    assert_eq!(grid.step((1, 2), Action::Down), ((2, 2), 10.0));
    assert_eq!(grid.step((2, 1), Action::Right), ((2, 2), 10.0));
}

#[test]
fn step_into_normal_cell_collects_its_reward() {
    let mut grid = grid(3, 3);
    grid.set_reward(1, 1, -5.0);
    assert_eq!(grid.step((0, 1), Action::Down), ((1, 1), -5.0));
    assert_eq!(grid.step((1, 1), Action::Left), ((1, 0), -1.0));
}

#[test]
fn bounce_gives_the_default_reward() {
    let mut grid = GridWorld::new(2, 2, -2.0, 0.5);
    grid.set_wall(1, 0);
    assert_eq!(grid.step((0, 0), Action::Down), ((0, 0), -2.0));
    assert_eq!(grid.step((1, 1), Action::Right), ((1, 1), -2.0));
    assert_eq!(grid.step((1, 1), Action::Down), ((1, 1), -2.0));
    assert_eq!(grid.reward((1, 0)), 0.5);
}

#[test]
fn is_valid_checks_bounds_and_walls() {
    let mut grid = grid(2, 3);
    grid.set_wall(1, 2);
    assert!(grid.is_valid((0, 0)));
    assert!(grid.is_valid((1, 1)));
    assert!(!grid.is_valid((1, 2)));
    assert!(!grid.is_valid((-1, 0)));
    assert!(!grid.is_valid((0, -1)));
    assert!(!grid.is_valid((2, 0)));
    assert!(!grid.is_valid((0, 3)));
    assert!(!grid.is_valid((isize::MIN, isize::MAX)));
}

#[test]
fn setting_a_cell_replaces_its_kind() {
    let mut grid = grid(2, 2);
    grid.set_wall(0, 0);
    grid.set_terminal(0, 0, 3.0);
    assert_eq!(*grid.cell(0, 0), Cell::Terminal(3.0));
    grid.set_reward(0, 0, 4.0);
    assert_eq!(*grid.cell(0, 0), Cell::Normal(4.0));
    assert_eq!(*grid.cell(1, 1), Cell::Normal(-1.0));
}

#[test]
fn single_cell_grid_always_bounces() {
    let grid = grid(1, 1);
    for a in Action::all() {
        assert_eq!(grid.step((0, 0), *a), ((0, 0), -1.0));
    }
}

#[test]
fn grid_with_integer_rewards() {
    let mut grid: GridWorld<i32> = GridWorld::new(1, 3, -1, 0);
    grid.set_terminal(0, 2, 100);
    assert_eq!(grid.step((0, 1), Action::Right), ((0, 2), 100));
    assert_eq!(grid.valid_states(), vec![(0, 0), (0, 1)]);
}
