# reinforcement_grid

A grid world environment for tabular reinforcement learning (Q-learning and
SARSA), verified with Verus.

- `src/` is the verified library. It is generic over the numeric type of
  rewards, Q values and agent parameters: it stores and moves these values,
  and proves what every operation does to the grid, the table and the
  agents' random number generators.
  - `action.rs`: the four moves and where they lead.
  - `grid.rs`: walls, terminal cells, rewards, `step` and `valid_states`.
  - `qtable.rs`: the state-action table and the greedy choice by value order.
  - `agent.rs`: agent parameters and the xorshift generator they explore with.
- `app/` is the `f64` face of the library: the same types with floating-point
  rewards, values and parameters, and the floating-point arithmetic of
  learning (TD deltas, value maximum, ε-greedy and softmax policies).
- `tests/` runs the library on concrete grids, tables and agents.
