//! The grid world: a rectangle of cells that are open, walls, or terminal.
//!
//! The grid is generic over the type `R` of its rewards: it stores and hands
//! back reward values and never computes with them.
use vstd::prelude::*;

use crate::action::Action;

verus! {

/// Cell type in the grid world.
#[derive(Debug, Clone, Copy, PartialEq)]
pub enum Cell<R> {
    /// Normal cell with a step reward.
    Normal(R),
    /// Wall: cannot be entered.
    Wall,
    /// Terminal cell with the given reward. An episode ends here.
    Terminal(R),
}

/// Row-major order on grid positions: by row, then by column.
pub open spec fn row_major_lt(a: (usize, usize), b: (usize, usize)) -> bool {
    a.0 < b.0 || (a.0 == b.0 && a.1 < b.1)
}

/// Grid world environment for reinforcement learning.
#[derive(Debug, Clone)]
pub struct GridWorld<R> {
    rows: usize,
    cols: usize,
    cells: Vec<Vec<Cell<R>>>,
    default_reward: R,
    wall_reward: R,
}

impl<R> GridWorld<R> {
    /// The grid has at least one row and one column, and every row has
    /// `num_cols()` cells.
    pub closed spec fn wf(self) -> bool {
        &&& self.rows > 0
        &&& self.cols > 0
        &&& self.cells@.len() == self.rows
        &&& forall|r: int| 0 <= r < self.rows ==> (#[trigger] self.cells@[r])@.len() == self.cols
    }

    /// Number of rows.
    pub closed spec fn num_rows(self) -> nat {
        self.rows as nat
    }

    /// Number of columns.
    pub closed spec fn num_cols(self) -> nat {
        self.cols as nat
    }

    /// The cell at row `r`, column `c`.
    pub closed spec fn cell_at(self, r: int, c: int) -> Cell<R> {
        self.cells@[r]@[c]
    }

    /// The reward handed out when a move bounces off a wall or an edge.
    pub closed spec fn spec_default_reward(self) -> R {
        self.default_reward
    }

    /// The reward that `reward` reports for a wall.
    pub closed spec fn spec_wall_reward(self) -> R {
        self.wall_reward
    }

    /// `(r, c)` lies inside the grid.
    pub open spec fn in_bounds(self, r: int, c: int) -> bool {
        0 <= r < self.num_rows() && 0 <= c < self.num_cols()
    }

    pub open spec fn is_wall_at(self, r: int, c: int) -> bool {
        self.cell_at(r, c) is Wall
    }

    pub open spec fn is_terminal_at(self, r: int, c: int) -> bool {
        self.cell_at(r, c) is Terminal
    }

    /// `(r, c)` is inside the grid and not a wall: an agent may stand there.
    pub open spec fn valid_at(self, r: int, c: int) -> bool {
        self.in_bounds(r, c) && !self.is_wall_at(r, c)
    }

    /// `(r, c)` is inside the grid, neither a wall nor terminal.
    pub open spec fn open_at(self, r: int, c: int) -> bool {
        self.in_bounds(r, c) && !self.is_wall_at(r, c) && !self.is_terminal_at(r, c)
    }

    /// The reward for entering `(r, c)`.
    pub open spec fn reward_at(self, r: int, c: int) -> R {
        match self.cell_at(r, c) {
            Cell::Normal(rw) => rw,
            Cell::Wall => self.spec_wall_reward(),
            Cell::Terminal(rw) => rw,
        }
    }

    /// What `step` does: move to the target of `action` if an agent may stand
    /// there and collect its reward, else stay put with the default reward.
    pub open spec fn step_result(self, state: (usize, usize), action: Action) -> ((usize, usize), R) {
        let t = action.target(state);
        if self.valid_at(t.0, t.1) {
            ((t.0 as usize, t.1 as usize), self.reward_at(t.0, t.1))
        } else {
            (state, self.spec_default_reward())
        }
    }

    /// `other` is `self` with only the cell at `(r, c)` replaced by `cell`.
    pub open spec fn is_update(self, other: Self, r: int, c: int, cell: Cell<R>) -> bool {
        &&& other.num_rows() == self.num_rows()
        &&& other.num_cols() == self.num_cols()
        &&& other.spec_default_reward() == self.spec_default_reward()
        &&& other.spec_wall_reward() == self.spec_wall_reward()
        &&& other.cell_at(r, c) == cell
        &&& forall|r2: int, c2: int|
            self.in_bounds(r2, c2) && (r2 != r || c2 != c) ==> #[trigger] other.cell_at(r2, c2)
                == self.cell_at(r2, c2)
    }

}

impl<R: Copy> GridWorld<R> {
    /// Create a grid of `rows` by `cols` normal cells, each with the step
    /// reward `default_reward`. A move that bounces off a wall or an edge is
    /// also given `default_reward`; `wall_reward` is what `reward` reports
    /// for a wall.
    pub fn new(rows: usize, cols: usize, default_reward: R, wall_reward: R) -> (g: Self)
        requires
            rows > 0 && cols > 0,
        ensures
            g.wf(),
            g.num_rows() == rows,
            g.num_cols() == cols,
            g.spec_default_reward() == default_reward,
            g.spec_wall_reward() == wall_reward,
            forall|r: int, c: int| g.in_bounds(r, c) ==> #[trigger] g.cell_at(r, c) == Cell::Normal(default_reward),
    {
        let mut cells: Vec<Vec<Cell<R>>> = Vec::new();
        let mut i: usize = 0;
        while i < rows
            invariant
                i <= rows,
                cells@.len() == i,
                forall|r: int| 0 <= r < i ==> (#[trigger] cells@[r])@.len() == cols,
                forall|r: int, c: int| 0 <= r < i && 0 <= c < cols ==> #[trigger] cells@[r]@[c] == Cell::Normal(default_reward),
            decreases rows - i,
        {
            let mut row: Vec<Cell<R>> = Vec::new();
            let mut j: usize = 0;
            while j < cols
                invariant
                    j <= cols,
                    row@.len() == j,
                    forall|c: int| 0 <= c < j ==> #[trigger] row@[c] == Cell::Normal(default_reward),
                decreases cols - j,
            {
                row.push(Cell::Normal(default_reward));
                j = j + 1;
            }
            cells.push(row);
            i = i + 1;
        }
        GridWorld { rows, cols, cells, default_reward, wall_reward }
    }

    /// Number of rows.
    pub fn rows(&self) -> (n: usize)
        requires
            self.wf(),
        ensures
            n == self.num_rows(),
            n > 0,
    {
        self.rows
    }

    /// Number of columns.
    pub fn cols(&self) -> (n: usize)
        requires
            self.wf(),
        ensures
            n == self.num_cols(),
            n > 0,
    {
        self.cols
    }

    /// Set a cell to be a wall.
    pub fn set_wall(&mut self, r: usize, c: usize)
        requires
            old(self).wf(),
            old(self).in_bounds(r as int, c as int),
        ensures
            final(self).wf(),
            old(self).is_update(*final(self), r as int, c as int, Cell::Wall),
    {
        self.cells[r][c] = Cell::Wall;
    }

    /// Set a cell to be terminal with the given reward.
    pub fn set_terminal(&mut self, r: usize, c: usize, reward: R)
        requires
            old(self).wf(),
            old(self).in_bounds(r as int, c as int),
        ensures
            final(self).wf(),
            old(self).is_update(*final(self), r as int, c as int, Cell::Terminal(reward)),
    {
        self.cells[r][c] = Cell::Terminal(reward);
    }

    /// Set the reward for a normal cell (the cell becomes a normal cell).
    pub fn set_reward(&mut self, r: usize, c: usize, reward: R)
        requires
            old(self).wf(),
            old(self).in_bounds(r as int, c as int),
        ensures
            final(self).wf(),
            old(self).is_update(*final(self), r as int, c as int, Cell::Normal(reward)),
    {
        self.cells[r][c] = Cell::Normal(reward);
    }

    /// Get the cell at a position.
    pub fn cell(&self, r: usize, c: usize) -> (cell: &Cell<R>)
        requires
            self.wf(),
            self.in_bounds(r as int, c as int),
        ensures
            *cell == self.cell_at(r as int, c as int),
    {
        &self.cells[r][c]
    }

    /// Check if a state is terminal.
    pub fn is_terminal(&self, state: (usize, usize)) -> (b: bool)
        requires
            self.wf(),
            self.in_bounds(state.0 as int, state.1 as int),
        ensures
            b == self.is_terminal_at(state.0 as int, state.1 as int),
    {
        let (r, c) = state;
        match self.cells[r][c] {
            Cell::Terminal(_) => true,
            _ => false,
        }
    }

    /// Check if a state is a wall.
    pub fn is_wall(&self, state: (usize, usize)) -> (b: bool)
        requires
            self.wf(),
            self.in_bounds(state.0 as int, state.1 as int),
        ensures
            b == self.is_wall_at(state.0 as int, state.1 as int),
    {
        let (r, c) = state;
        match self.cells[r][c] {
            Cell::Wall => true,
            _ => false,
        }
    }

    /// Check if a state is within bounds and not a wall.
    pub fn is_valid(&self, state: (isize, isize)) -> (b: bool)
        requires
            self.wf(),
        ensures
            b == self.valid_at(state.0 as int, state.1 as int),
    {
        let (r, c) = state;
        if r < 0 || c < 0 || r as usize >= self.rows || c as usize >= self.cols {
            return false;
        }
        !self.is_wall((r as usize, c as usize))
    }

    /// Get the reward for entering a cell.
    pub fn reward(&self, state: (usize, usize)) -> (rw: R)
        requires
            self.wf(),
            self.in_bounds(state.0 as int, state.1 as int),
        ensures
            rw == self.reward_at(state.0 as int, state.1 as int),
    {
        let (r, c) = state;
        match self.cells[r][c] {
            Cell::Normal(rw) => rw,
            Cell::Wall => self.wall_reward,
            Cell::Terminal(rw) => rw,
        }
    }

    /// Take an action from a state. Returns (next_state, reward).
    /// If the action leads to a wall or out of bounds, the agent stays put.
    pub fn step(&self, state: (usize, usize), action: Action) -> (res: ((usize, usize), R))
        requires
            self.wf(),
            action.can_apply(state),
        ensures
            res == self.step_result(state, action),
    {
        let (nr, nc) = action.apply(state);
        if self.is_valid((nr, nc)) {
            let ns = (nr as usize, nc as usize);
            (ns, self.reward(ns))
        } else {
            (state, self.default_reward)
        }
    }

    /// Get all valid non-wall, non-terminal states, in row-major order.
    pub fn valid_states(&self) -> (states: Vec<(usize, usize)>)
        requires
            self.wf(),
        ensures
            forall|i: int| 0 <= i < states@.len() ==> self.open_at(#[trigger] states@[i].0 as int, states@[i].1 as int),
            forall|i: int, j: int| 0 <= i < j < states@.len() ==> row_major_lt(#[trigger] states@[i], #[trigger] states@[j]),
            forall|r: usize, c: usize| self.open_at(r as int, c as int) ==> #[trigger] states@.contains((r, c)),
            states@.no_duplicates(),
    {
        let mut states: Vec<(usize, usize)> = Vec::new();
        let mut r: usize = 0;
        while r < self.rows
            invariant
                self.wf(),
                r <= self.rows,
                forall|i: int| 0 <= i < states@.len() ==> self.open_at(#[trigger] states@[i].0 as int, states@[i].1 as int),
                forall|i: int| 0 <= i < states@.len() ==> (#[trigger] states@[i]).0 < r,
                forall|i: int, j: int| 0 <= i < j < states@.len() ==> row_major_lt(#[trigger] states@[i], #[trigger] states@[j]),
                forall|r2: usize, c2: usize| r2 < r && self.open_at(r2 as int, c2 as int) ==> #[trigger] states@.contains((r2, c2)),
            decreases self.rows - r,
        {
            let mut c: usize = 0;
            while c < self.cols
                invariant
                    self.wf(),
                    r < self.rows,
                    c <= self.cols,
                    forall|i: int| 0 <= i < states@.len() ==> self.open_at(#[trigger] states@[i].0 as int, states@[i].1 as int),
                    forall|i: int| 0 <= i < states@.len() ==> row_major_lt(#[trigger] states@[i], (r, c)),
                    forall|i: int, j: int| 0 <= i < j < states@.len() ==> row_major_lt(#[trigger] states@[i], #[trigger] states@[j]),
                    forall|r2: usize, c2: usize| row_major_lt((r2, c2), (r, c)) && self.open_at(r2 as int, c2 as int) ==> #[trigger] states@.contains((r2, c2)),
                decreases self.cols - c,
            {
                if !self.is_wall((r, c)) && !self.is_terminal((r, c)) {
                    let ghost before = states@;
                    states.push((r, c));
                    proof {
                        assert forall|r2: usize, c2: usize| row_major_lt((r2, c2), (r, (c + 1) as usize)) && self.open_at(r2 as int, c2 as int)
                            implies #[trigger] states@.contains((r2, c2)) by {
                            if r2 == r && c2 == c {
                                assert(states@[before.len() as int] == (r2, c2));
                            } else {
                                assert(before.contains((r2, c2)));
                                let k = choose|k: int| 0 <= k < before.len() && before[k] == (r2, c2);
                                assert(states@[k] == (r2, c2));
                            }
                        }
                    }
                }
                c = c + 1;
            }
            r = r + 1;
        }
        proof {
            assert forall|i: int, j: int| 0 <= i < states@.len() && 0 <= j < states@.len() && i != j
                implies states@[i] != states@[j] by {
                if i < j {
                    assert(row_major_lt(states@[i], states@[j]));
                } else {
                    assert(row_major_lt(states@[j], states@[i]));
                }
            }
        }
        states
    }
}


/// A step from a cell where an agent may stand ends in a cell where an agent
/// may stand: the agent never leaves the grid and never enters a wall.
pub proof fn lemma_step_stays_valid<R>(g: GridWorld<R>, state: (usize, usize), action: Action)
    requires
        g.valid_at(state.0 as int, state.1 as int),
    ensures
        ({
            let next = g.step_result(state, action).0;
            g.valid_at(next.0 as int, next.1 as int)
        }),
{
}

/// A step either stays put with the default reward, or moves exactly one
/// cell in the direction of the action.
pub proof fn lemma_step_moves_one_cell<R>(g: GridWorld<R>, state: (usize, usize), action: Action)
    ensures
        ({
            let (next, rw) = g.step_result(state, action);
            ||| next == state && rw == g.spec_default_reward()
            ||| (next.0 as int, next.1 as int) == action.target(state)
        }),
{
}

/// After `set_terminal(r, c, x)` the cell is terminal, its reward is `x`,
/// and a step into it from a neighbour collects `x`.
pub proof fn lemma_set_terminal_reward<R>(
    g1: GridWorld<R>,
    g2: GridWorld<R>,
    r: usize,
    c: usize,
    x: R,
    state: (usize, usize),
    action: Action,
)
    requires
        g1.in_bounds(r as int, c as int),
        g1.is_update(g2, r as int, c as int, Cell::Terminal(x)),
        action.target(state) == (r as int, c as int),
    ensures
        g2.is_terminal_at(r as int, c as int),
        !g2.is_wall_at(r as int, c as int),
        g2.reward_at(r as int, c as int) == x,
        g2.step_result(state, action) == ((r, c), x),
{
}

/// After `set_wall(r, c)` the cell is a wall, and every step aimed at it
/// bounces: the agent stays put and gets the default reward.
pub proof fn lemma_set_wall_blocks<R>(
    g1: GridWorld<R>,
    g2: GridWorld<R>,
    r: usize,
    c: usize,
    state: (usize, usize),
    action: Action,
)
    requires
        g1.in_bounds(r as int, c as int),
        g1.is_update(g2, r as int, c as int, Cell::Wall),
        action.target(state) == (r as int, c as int),
    ensures
        g2.is_wall_at(r as int, c as int),
        g2.step_result(state, action) == (state, g1.spec_default_reward()),
{
}

/// After `set_reward(r, c, x)` the cell is a normal cell with reward `x`:
/// it is listed among the valid states, and a step into it collects `x`.
pub proof fn lemma_set_reward_normal<R>(
    g1: GridWorld<R>,
    g2: GridWorld<R>,
    r: usize,
    c: usize,
    x: R,
    state: (usize, usize),
    action: Action,
)
    requires
        g1.in_bounds(r as int, c as int),
        g1.is_update(g2, r as int, c as int, Cell::Normal(x)),
        action.target(state) == (r as int, c as int),
    ensures
        g2.open_at(r as int, c as int),
        g2.reward_at(r as int, c as int) == x,
        g2.step_result(state, action) == ((r, c), x),
{
}


/// What each query means, in terms of the cell stored at a position: a
/// position is in bounds when it lies in the rectangle; it is a wall or
/// terminal exactly when its cell is a `Wall` or `Terminal` cell; an agent
/// may stand on it (`valid_at`) when it is in bounds and not a wall; it is
/// listed by `valid_states` (`open_at`) when it is in bounds and a `Normal`
/// cell; entering it pays the reward stored in its cell, or the wall reward
/// for a wall.
pub proof fn lemma_queries_follow_cells<R>(g: GridWorld<R>, r: int, c: int)
    ensures
        g.in_bounds(r, c) <==> (0 <= r < g.num_rows() && 0 <= c < g.num_cols()),
        g.is_wall_at(r, c) <==> g.cell_at(r, c) is Wall,
        g.is_terminal_at(r, c) <==> g.cell_at(r, c) is Terminal,
        g.valid_at(r, c) <==> (0 <= r < g.num_rows() && 0 <= c < g.num_cols() && !(g.cell_at(r, c) is Wall)),
        g.open_at(r, c) <==> (0 <= r < g.num_rows() && 0 <= c < g.num_cols() && g.cell_at(r, c) is Normal),
        g.open_at(r, c) ==> g.valid_at(r, c) && !g.is_terminal_at(r, c) && !g.is_wall_at(r, c),
        forall|x: R| g.cell_at(r, c) == Cell::Normal(x) ==> g.reward_at(r, c) == x,
        forall|x: R| g.cell_at(r, c) == Cell::Terminal(x) ==> g.reward_at(r, c) == x,
        g.cell_at(r, c) is Wall ==> g.reward_at(r, c) == g.spec_wall_reward(),
{
}

/// A step moves one cell in the direction of the action (Up: row - 1,
/// Down: row + 1, Left: column - 1, Right: column + 1) when that cell is
/// inside the grid and not a wall, and pays the reward stored in that cell;
/// otherwise the agent stays where it was and gets the default reward.
pub proof fn lemma_step_moves_or_bounces<R>(g: GridWorld<R>, state: (usize, usize), action: Action)
    requires
        state.0 < isize::MAX,
        state.1 < isize::MAX,
    ensures
        ({
            let t: (int, int) = match action {
                Action::Up => (state.0 - 1, state.1 as int),
                Action::Down => (state.0 + 1, state.1 as int),
                Action::Left => (state.0 as int, state.1 - 1),
                Action::Right => (state.0 as int, state.1 + 1),
            };
            let enters = 0 <= t.0 < g.num_rows() && 0 <= t.1 < g.num_cols() && !(g.cell_at(t.0, t.1) is Wall);
            &&& enters ==> g.step_result(state, action).0 == (t.0 as usize, t.1 as usize)
            &&& enters && g.cell_at(t.0, t.1) is Normal ==> g.step_result(state, action).1 == g.cell_at(t.0, t.1)->Normal_0
            &&& enters && g.cell_at(t.0, t.1) is Terminal ==> g.step_result(state, action).1 == g.cell_at(t.0, t.1)->Terminal_0
            &&& !enters ==> g.step_result(state, action) == (state, g.spec_default_reward())
        }),
{
    crate::action::lemma_unit_moves(state);
}

/// After a cell is made a wall it cannot be entered, is not terminal and is
/// not listed among the valid states; after it is made terminal it is
/// terminal, can be entered, and is not listed; after it is given a normal
/// reward it is not terminal, can be entered, and is listed.
pub proof fn lemma_set_kinds<R>(g1: GridWorld<R>, g2: GridWorld<R>, r: int, c: int, cell: Cell<R>)
    requires
        g1.in_bounds(r, c),
        g1.is_update(g2, r, c, cell),
    ensures
        cell is Wall ==> !g2.valid_at(r, c) && !g2.is_terminal_at(r, c) && !g2.open_at(r, c) && g2.is_wall_at(r, c),
        cell is Terminal ==> g2.valid_at(r, c) && g2.is_terminal_at(r, c) && !g2.open_at(r, c) && !g2.is_wall_at(r, c),
        cell is Normal ==> g2.valid_at(r, c) && !g2.is_terminal_at(r, c) && g2.open_at(r, c) && !g2.is_wall_at(r, c),
{
}


/// Row-major order is the strict order that compares rows first and columns
/// within a row: it is irreflexive and transitive, and of two different
/// positions exactly one comes first.
pub proof fn lemma_row_major_order(a: (usize, usize), b: (usize, usize), c: (usize, usize))
    ensures
        !row_major_lt(a, a),
        a.0 < b.0 ==> row_major_lt(a, b),
        a.0 == b.0 && a.1 < b.1 ==> row_major_lt(a, b),
        row_major_lt(a, b) ==> a.0 <= b.0,
        row_major_lt(a, b) && row_major_lt(b, c) ==> row_major_lt(a, c),
        a != b ==> (row_major_lt(a, b) <==> !row_major_lt(b, a)),
{
}

/// Setting a cell replaces that cell and no other: the size of the grid,
/// its default and wall rewards, and every other cell stay as they were.
pub proof fn lemma_update_changes_one_cell<R>(
    g1: GridWorld<R>,
    g2: GridWorld<R>,
    r: int,
    c: int,
    cell: Cell<R>,
    r2: int,
    c2: int,
)
    requires
        g1.is_update(g2, r, c, cell),
        0 <= r2 < g1.num_rows(),
        0 <= c2 < g1.num_cols(),
    ensures
        g2.num_rows() == g1.num_rows(),
        g2.num_cols() == g1.num_cols(),
        g2.spec_default_reward() == g1.spec_default_reward(),
        g2.spec_wall_reward() == g1.spec_wall_reward(),
        g2.cell_at(r, c) == cell,
        g2.cell_at(r2, c2) == if r2 == r && c2 == c { cell } else { g1.cell_at(r2, c2) },
{
}

} // verus!
