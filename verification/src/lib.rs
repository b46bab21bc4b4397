//! Grid world environment for tabular reinforcement learning.
//!
//! The library holds the environment (`GridWorld`), the state-action value
//! table (`QTable`) and the agents' parameters and random number generators
//! (`QLearning`, `Sarsa`). It is generic over the numeric type of rewards,
//! values and parameters: it stores and moves these values, and the caller
//! does the arithmetic on them.
pub mod action;
pub mod agent;
pub mod grid;
pub mod qtable;

pub use action::Action;
pub use agent::{QLearning, Sarsa};
pub use grid::{Cell, GridWorld};
pub use qtable::QTable;
