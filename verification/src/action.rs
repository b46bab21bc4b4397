//! The four moves available to an agent in a grid world.
use vstd::prelude::*;

verus! {

/// Actions available in the grid world.
#[derive(Debug, Clone, Copy, PartialEq, Eq, Hash, Structural)]
pub enum Action {
    Up,
    Down,
    Left,
    Right,
}

impl Action {
    /// The row and column offsets of this action.
    pub open spec fn offset(self) -> (int, int) {
        match self {
            Action::Up => (-1, 0),
            Action::Down => (1, 0),
            Action::Left => (0, -1),
            Action::Right => (0, 1),
        }
    }

    /// Where `apply` sends `(r, c)`: each coordinate is read as an `isize`
    /// (as the `as` conversion does) and moved by the offset.
    pub open spec fn target(self, state: (usize, usize)) -> (int, int) {
        ((state.0 as isize) + self.offset().0, (state.1 as isize) + self.offset().1)
    }

    /// `apply` does not overflow on `state`.
    pub open spec fn can_apply(self, state: (usize, usize)) -> bool {
        let t = self.target(state);
        isize::MIN <= t.0 <= isize::MAX && isize::MIN <= t.1 <= isize::MAX
    }

    /// All four actions.
    pub fn all() -> (res: &'static [Action; 4])
        ensures
            res@ == seq![Action::Up, Action::Down, Action::Left, Action::Right],
    {
        &[Action::Up, Action::Down, Action::Left, Action::Right]
    }

    /// Apply this action to a position, returning the new position.
    pub fn apply(&self, state: (usize, usize)) -> (res: (isize, isize))
        requires
            self.can_apply(state),
        ensures
            res.0 == self.target(state).0,
            res.1 == self.target(state).1,
    {
        let (r, c) = state;
        match self {
            Action::Up => (r as isize - 1, c as isize),
            Action::Down => (r as isize + 1, c as isize),
            Action::Left => (r as isize, c as isize - 1),
            Action::Right => (r as isize, c as isize + 1),
        }
    }

    /// Whether `apply` can move `state` without overflow.
    pub fn is_applicable(&self, state: (usize, usize)) -> (b: bool)
        ensures
            b == self.can_apply(state),
    {
        let (r, c) = (state.0 as isize, state.1 as isize);
        match self {
            Action::Up => r > isize::MIN,
            Action::Down => r < isize::MAX,
            Action::Left => c > isize::MIN,
            Action::Right => c < isize::MAX,
        }
    }

    /// Number of possible actions.
    pub fn count() -> (n: usize)
        ensures
            n == 4,
    {
        4
    }

    /// The position of this action in `Action::all()`.
    pub open spec fn ord(self) -> int {
        match self {
            Action::Up => 0,
            Action::Down => 1,
            Action::Left => 2,
            Action::Right => 3,
        }
    }

    /// The position of this action in `Action::all()`.
    pub fn index(&self) -> (i: usize)
        ensures
            i == self.ord(),
            i < 4,
    {
        match self {
            Action::Up => 0,
            Action::Down => 1,
            Action::Left => 2,
            Action::Right => 3,
        }
    }

    /// The action at position `i` of `Action::all()`; any position past the
    /// third gives `Right`.
    pub fn from_index(i: usize) -> (a: Action)
        ensures
            i < 4 ==> a.ord() == i,
            i >= 4 ==> a == Action::Right,
    {
        match i {
            0 => Action::Up,
            1 => Action::Down,
            2 => Action::Left,
            _ => Action::Right,
        }
    }
}


/// The actions in the order `Action::all()` lists them.
pub open spec fn all_actions() -> Seq<Action> {
    seq![Action::Up, Action::Down, Action::Left, Action::Right]
}

/// `Action::all()` lists each action exactly once, at the position that `ord`
/// (and `index`) gives it.
pub proof fn lemma_all_positions(a: Action, b: Action)
    ensures
        0 <= a.ord() < 4,
        all_actions()[a.ord()] == a,
        Action::Up.ord() == 0,
        Action::Down.ord() == 1,
        Action::Left.ord() == 2,
        Action::Right.ord() == 3,
        all_actions().len() == 4,
        a.ord() == b.ord() ==> a == b,
{
}

/// Up and Down undo each other, and so do Left and Right: moving one way and
/// then back returns to the starting position.
pub proof fn lemma_opposite_moves(state: (usize, usize))
    requires
        state.0 < isize::MAX,
        state.1 < isize::MAX,
    ensures
        ({
            let d = Action::Down.target(state);
            Action::Up.target((d.0 as usize, d.1 as usize)) == (state.0 as int, state.1 as int)
        }),
        ({
            let r = Action::Right.target(state);
            Action::Left.target((r.0 as usize, r.1 as usize)) == (state.0 as int, state.1 as int)
        }),
        state.0 > 0 ==> ({
            let u = Action::Up.target(state);
            Action::Down.target((u.0 as usize, u.1 as usize)) == (state.0 as int, state.1 as int)
        }),
        state.1 > 0 ==> ({
            let l = Action::Left.target(state);
            Action::Right.target((l.0 as usize, l.1 as usize)) == (state.0 as int, state.1 as int)
        }),
{
}


/// Each action moves exactly one cell: Up decreases the row by one, Down
/// increases it by one, Left decreases the column by one, Right increases it
/// by one, and the other coordinate is unchanged.
pub proof fn lemma_unit_moves(state: (usize, usize))
    requires
        state.0 < isize::MAX,
        state.1 < isize::MAX,
    ensures
        Action::Up.target(state) == (state.0 - 1, state.1 as int),
        Action::Down.target(state) == (state.0 + 1, state.1 as int),
        Action::Left.target(state) == (state.0 as int, state.1 - 1),
        Action::Right.target(state) == (state.0 as int, state.1 + 1),
        Action::Up.can_apply(state),
        Action::Down.can_apply(state),
        Action::Left.can_apply(state),
        Action::Right.can_apply(state),
{
}


/// For every position, each action reads the coordinates as `isize` values
/// (as `apply` converts them) and changes exactly one of them by one.
pub proof fn lemma_moves_from_any_state(state: (usize, usize))
    ensures
        Action::Up.target(state) == ((state.0 as isize) - 1, (state.1 as isize) as int),
        Action::Down.target(state) == ((state.0 as isize) + 1, (state.1 as isize) as int),
        Action::Left.target(state) == ((state.0 as isize) as int, (state.1 as isize) - 1),
        Action::Right.target(state) == ((state.0 as isize) as int, (state.1 as isize) + 1),
{
}

} // verus!
