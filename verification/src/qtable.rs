//! The state-action value table of tabular reinforcement learning.
//!
//! The table is generic over the type `V` of its values: it stores and hands
//! them back. Choosing a greedy action needs only the order of the values,
//! which a caller gives as integer keys.
use vstd::prelude::*;

use crate::action::Action;

verus! {

/// State-action value table (Q-table) for tabular RL.
#[derive(Debug, Clone)]
pub struct QTable<V> {
    /// Q values indexed as q[row][col][action index].
    q: Vec<Vec<Vec<V>>>,
    rows: usize,
    cols: usize,
}

impl<V> QTable<V> {
    /// The table has `num_rows()` rows of `num_cols()` states, each with one
    /// value per action.
    pub closed spec fn wf(self) -> bool {
        &&& self.q@.len() == self.rows
        &&& forall|r: int| 0 <= r < self.rows ==> (#[trigger] self.q@[r])@.len() == self.cols
        &&& forall|r: int, c: int|
            0 <= r < self.rows && 0 <= c < self.cols ==> (#[trigger] self.q@[r]@[c])@.len() == 4
    }

    pub closed spec fn num_rows(self) -> nat {
        self.rows as nat
    }

    pub closed spec fn num_cols(self) -> nat {
        self.cols as nat
    }

    /// Q(s, a) for s = `(r, c)`.
    pub closed spec fn value_at(self, r: int, c: int, a: Action) -> V {
        self.q@[r]@[c]@[a.ord()]
    }

    /// `state` is a state of the table.
    pub open spec fn has_state(self, state: (usize, usize)) -> bool {
        state.0 < self.num_rows() && state.1 < self.num_cols()
    }

    /// `other` is `self` with only Q(`state`, `action`) replaced by `value`.
    pub open spec fn is_update(self, other: Self, state: (usize, usize), action: Action, value: V) -> bool {
        &&& other.num_rows() == self.num_rows()
        &&& other.num_cols() == self.num_cols()
        &&& other.value_at(state.0 as int, state.1 as int, action) == value
        &&& forall|r: int, c: int, a: Action|
            0 <= r < self.num_rows() && 0 <= c < self.num_cols() && (r != state.0 || c != state.1 || a != action)
                ==> #[trigger] other.value_at(r, c, a) == self.value_at(r, c, a)
    }
}

impl<V: Copy> QTable<V> {
    /// Create a new Q-table with every value set to `init`.
    pub fn new(rows: usize, cols: usize, init: V) -> (t: Self)
        ensures
            t.wf(),
            t.num_rows() == rows,
            t.num_cols() == cols,
            forall|r: int, c: int, a: Action| 0 <= r < rows && 0 <= c < cols ==> #[trigger] t.value_at(r, c, a) == init,
    {
        let mut q: Vec<Vec<Vec<V>>> = Vec::new();
        let mut i: usize = 0;
        while i < rows
            invariant
                i <= rows,
                q@.len() == i,
                forall|r: int| 0 <= r < i ==> (#[trigger] q@[r])@.len() == cols,
                forall|r: int, c: int| 0 <= r < i && 0 <= c < cols ==> (#[trigger] q@[r]@[c])@ == seq![init, init, init, init],
            decreases rows - i,
        {
            let mut row: Vec<Vec<V>> = Vec::new();
            let mut j: usize = 0;
            while j < cols
                invariant
                    j <= cols,
                    row@.len() == j,
                    forall|c: int| 0 <= c < j ==> (#[trigger] row@[c])@ == seq![init, init, init, init],
                decreases cols - j,
            {
                let mut vals: Vec<V> = Vec::new();
                let mut k: usize = 0;
                while k < Action::count()
                    invariant
                        k <= 4,
                        vals@.len() == k,
                        forall|a: int| 0 <= a < k ==> #[trigger] vals@[a] == init,
                    decreases 4 - k,
                {
                    vals.push(init);
                    k = k + 1;
                }
                assert(vals@ =~= seq![init, init, init, init]);
                row.push(vals);
                j = j + 1;
            }
            q.push(row);
            i = i + 1;
        }
        QTable { q, rows, cols }
    }

    /// Whether `state` is a state of the table, so that it may be read or
    /// written.
    pub fn contains_state(&self, state: (usize, usize)) -> (b: bool)
        requires
            self.wf(),
        ensures
            b == self.has_state(state),
    {
        state.0 < self.rows && state.1 < self.cols
    }

    /// Get Q(s, a).
    pub fn get(&self, state: (usize, usize), action: Action) -> (v: V)
        requires
            self.wf(),
            self.has_state(state),
        ensures
            v == self.value_at(state.0 as int, state.1 as int, action),
    {
        self.q[state.0][state.1][action.index()]
    }

    /// Set Q(s, a).
    pub fn set(&mut self, state: (usize, usize), action: Action, value: V)
        requires
            old(self).wf(),
            old(self).has_state(state),
        ensures
            final(self).wf(),
            old(self).is_update(*final(self), state, action, value),
    {
        self.q[state.0][state.1][action.index()] = value;
    }

    /// Get all Q values for a state, in the order of `Action::all()`.
    pub fn values(&self, state: (usize, usize)) -> (vals: &[V])
        requires
            self.wf(),
            self.has_state(state),
        ensures
            vals@.len() == 4,
            forall|a: Action| #[trigger] vals@[a.ord()] == self.value_at(state.0 as int, state.1 as int, a),
    {
        self.q[state.0][state.1].as_slice()
    }
}

/// The greedy action for a state whose Q values are ordered as `keys` (one
/// key per action, in the order of `Action::all()`): the action with the
/// greatest key, the last such action where several keys are greatest.
pub fn best_action_by_key(keys: &[u64]) -> (a: Action)
    requires
        keys@.len() == 4,
    ensures
        forall|i: int| 0 <= i < 4 ==> #[trigger] keys@[i] <= keys@[a.ord()],
        forall|i: int| a.ord() < i < 4 ==> #[trigger] keys@[i] < keys@[a.ord()],
{
    let mut best: usize = 0;
    let mut i: usize = 1;
    while i < keys.len()
        invariant
            keys@.len() == 4,
            1 <= i <= 4,
            best < i,
            forall|j: int| 0 <= j < i ==> #[trigger] keys@[j] <= keys@[best as int],
            forall|j: int| best < j < i ==> #[trigger] keys@[j] < keys@[best as int],
        decreases 4 - i,
    {
        if keys[i] >= keys[best] {
            best = i;
        }
        i = i + 1;
    }
    Action::from_index(best)
}


/// Reading Q(s', a') after writing `v` to Q(s, a) gives `v` when (s', a') is
/// (s, a), and the old value otherwise.
pub proof fn lemma_read_after_write<V>(
    t1: QTable<V>,
    t2: QTable<V>,
    state: (usize, usize),
    action: Action,
    v: V,
    state2: (usize, usize),
    action2: Action,
)
    requires
        t1.is_update(t2, state, action, v),
        t1.has_state(state2),
    ensures
        t2.has_state(state2),
        t2.value_at(state2.0 as int, state2.1 as int, action2) == if state2 == state && action2 == action {
            v
        } else {
            t1.value_at(state2.0 as int, state2.1 as int, action2)
        },
{
}

/// Of two writes to the same entry, the second wins: the table is as if
/// only the second had been made.
pub proof fn lemma_last_write_wins<V>(
    t1: QTable<V>,
    t2: QTable<V>,
    t3: QTable<V>,
    state: (usize, usize),
    action: Action,
    v1: V,
    v2: V,
)
    requires
        t1.is_update(t2, state, action, v1),
        t2.is_update(t3, state, action, v2),
    ensures
        t1.is_update(t3, state, action, v2),
{
}


/// A state belongs to the table exactly when its row and column are below
/// the table's numbers of rows and columns.
pub proof fn lemma_has_state<V>(t: QTable<V>, state: (usize, usize))
    ensures
        t.has_state(state) <==> (state.0 < t.num_rows() && state.1 < t.num_cols()),
{
}

} // verus!
