//! The temporal-difference agents' parameters and their random number
//! generator.
//!
//! Each agent draws its exploration randomness from a xorshift generator on a
//! `u64` state with a fixed seed, so that runs are reproducible. The agents
//! are generic over the type `F` of their parameters (learning rate,
//! discount, exploration rate); they hold them and hand them back.
use vstd::prelude::*;

verus! {

/// The seed of a Q-learning agent's generator.
pub const QLEARNING_SEED: u64 = 42;

/// The seed of a SARSA agent's generator.
pub const SARSA_SEED: u64 = 99;

/// The mask that keeps the low 63 bits of a generator state.
pub const LOW_63_BITS: u64 = 0x7FFF_FFFF_FFFF_FFFF;

/// One step of the xorshift generator (shifts 13, 7, 17).
pub open spec fn xorshift(x: u64) -> u64 {
    let x1 = x ^ (x << 13u64);
    let x2 = x1 ^ (x1 >> 7u64);
    x2 ^ (x2 << 17u64)
}

/// Advance a xorshift generator state by one step.
pub fn xorshift_step(x: u64) -> (y: u64)
    ensures
        y == xorshift(x),
{
    let mut x = x;
    x ^= x << 13u64;
    x ^= x >> 7u64;
    x ^= x << 17u64;
    x
}

/// A generator that starts from a state other than zero never reaches zero.
pub proof fn lemma_xorshift_nonzero(x: u64)
    requires
        x != 0,
    ensures
        xorshift(x) != 0,
{
    let x1 = x ^ (x << 13u64);
    let x2 = x1 ^ (x1 >> 7u64);
    assert(x != 0 ==> x ^ (x << 13u64) != 0) by (bit_vector);
    assert(x1 != 0 ==> x1 ^ (x1 >> 7u64) != 0) by (bit_vector);
    assert(x2 != 0 ==> x2 ^ (x2 << 17u64) != 0) by (bit_vector);
}

/// Q-learning (off-policy TD control) agent.
#[derive(Debug, Clone)]
pub struct QLearning<F> {
    learning_rate: F,
    discount: F,
    epsilon: F,
    rng_state: u64,
}

impl<F: Copy> QLearning<F> {
    pub closed spec fn spec_learning_rate(self) -> F {
        self.learning_rate
    }

    pub closed spec fn spec_discount(self) -> F {
        self.discount
    }

    pub closed spec fn spec_epsilon(self) -> F {
        self.epsilon
    }

    /// The state of the agent's random number generator.
    pub closed spec fn rng(self) -> u64 {
        self.rng_state
    }

    /// Create a new Q-learning agent with learning rate α, discount γ, and
    /// exploration ε. Its generator starts from `QLEARNING_SEED`.
    pub fn new(learning_rate: F, discount: F, epsilon: F) -> (agent: Self)
        ensures
            agent.spec_learning_rate() == learning_rate,
            agent.spec_discount() == discount,
            agent.spec_epsilon() == epsilon,
            agent.rng() == QLEARNING_SEED,
    {
        QLearning { learning_rate, discount, epsilon, rng_state: QLEARNING_SEED }
    }

    /// Advance the generator and return the low 63 bits of its new state.
    pub fn next_random_bits(&mut self) -> (bits: u64)
        ensures
            final(self).rng() == xorshift(old(self).rng()),
            bits == final(self).rng() & LOW_63_BITS,
            bits <= LOW_63_BITS,
            final(self).spec_learning_rate() == old(self).spec_learning_rate(),
            final(self).spec_discount() == old(self).spec_discount(),
            final(self).spec_epsilon() == old(self).spec_epsilon(),
    {
        let x = xorshift_step(self.rng_state);
        self.rng_state = x;
        let bits = x & LOW_63_BITS;
        assert(x & LOW_63_BITS <= LOW_63_BITS) by (bit_vector);
        bits
    }

    /// Get the learning rate.
    pub fn learning_rate(&self) -> (f: F)
        ensures
            f == self.spec_learning_rate(),
    {
        self.learning_rate
    }

    /// Get the discount factor.
    pub fn discount(&self) -> (f: F)
        ensures
            f == self.spec_discount(),
    {
        self.discount
    }

    /// Get the exploration rate.
    pub fn epsilon(&self) -> (f: F)
        ensures
            f == self.spec_epsilon(),
    {
        self.epsilon
    }
}

/// SARSA (on-policy TD control) agent.
#[derive(Debug, Clone)]
pub struct Sarsa<F> {
    learning_rate: F,
    discount: F,
    epsilon: F,
    rng_state: u64,
}

impl<F: Copy> Sarsa<F> {
    pub closed spec fn spec_learning_rate(self) -> F {
        self.learning_rate
    }

    pub closed spec fn spec_discount(self) -> F {
        self.discount
    }

    pub closed spec fn spec_epsilon(self) -> F {
        self.epsilon
    }

    /// The state of the agent's random number generator.
    pub closed spec fn rng(self) -> u64 {
        self.rng_state
    }

    /// Create a new SARSA agent. Its generator starts from `SARSA_SEED`.
    pub fn new(learning_rate: F, discount: F, epsilon: F) -> (agent: Self)
        ensures
            agent.spec_learning_rate() == learning_rate,
            agent.spec_discount() == discount,
            agent.spec_epsilon() == epsilon,
            agent.rng() == SARSA_SEED,
    {
        Sarsa { learning_rate, discount, epsilon, rng_state: SARSA_SEED }
    }

    /// Advance the generator and return the low 63 bits of its new state.
    pub fn next_random_bits(&mut self) -> (bits: u64)
        ensures
            final(self).rng() == xorshift(old(self).rng()),
            bits == final(self).rng() & LOW_63_BITS,
            bits <= LOW_63_BITS,
            final(self).spec_learning_rate() == old(self).spec_learning_rate(),
            final(self).spec_discount() == old(self).spec_discount(),
            final(self).spec_epsilon() == old(self).spec_epsilon(),
    {
        let x = xorshift_step(self.rng_state);
        self.rng_state = x;
        let bits = x & LOW_63_BITS;
        assert(x & LOW_63_BITS <= LOW_63_BITS) by (bit_vector);
        bits
    }

    /// Get the learning rate.
    pub fn learning_rate(&self) -> (f: F)
        ensures
            f == self.spec_learning_rate(),
    {
        self.learning_rate
    }

    /// Get the discount factor.
    pub fn discount(&self) -> (f: F)
        ensures
            f == self.spec_discount(),
    {
        self.discount
    }

    /// Get the exploration rate.
    pub fn epsilon(&self) -> (f: F)
        ensures
            f == self.spec_epsilon(),
    {
        self.epsilon
    }
}


/// A generator state other than zero is never left unchanged by a step: the
/// generator never gets stuck.
pub proof fn lemma_xorshift_no_fixed_point(x: u64)
    requires
        x != 0,
    ensures
        xorshift(x) != x,
{
    assert(x != 0 ==> ((x ^ (x << 13u64)) ^ ((x ^ (x << 13u64)) >> 7u64)) ^ (((x ^ (x << 13u64)) ^ ((x ^ (x << 13u64)) >> 7u64)) << 17u64) != x) by (bit_vector);
}

/// A step is linear over bitwise xor: stepping `x ^ y` gives the xor of the
/// steps of `x` and of `y`.
pub proof fn lemma_xorshift_linear(x: u64, y: u64)
    ensures
        xorshift(x ^ y) == xorshift(x) ^ xorshift(y),
{
    assert(((x ^ y) ^ ((x ^ y) << 13u64)) == (x ^ (x << 13u64)) ^ (y ^ (y << 13u64))) by (bit_vector);
    let a = x ^ (x << 13u64);
    let b = y ^ (y << 13u64);
    assert(((a ^ b) ^ ((a ^ b) >> 7u64)) == (a ^ (a >> 7u64)) ^ (b ^ (b >> 7u64))) by (bit_vector);
    let a2 = a ^ (a >> 7u64);
    let b2 = b ^ (b >> 7u64);
    assert(((a2 ^ b2) ^ ((a2 ^ b2) << 17u64)) == (a2 ^ (a2 << 17u64)) ^ (b2 ^ (b2 << 17u64))) by (bit_vector);
}

/// Different states step to different states: the step is a bijection of
/// `u64`, so no two generator states merge.
pub proof fn lemma_xorshift_injective(x: u64, y: u64)
    requires
        x != y,
    ensures
        xorshift(x) != xorshift(y),
{
    lemma_xorshift_linear(x, y);
    assert(x != y ==> x ^ y != 0) by (bit_vector);
    lemma_xorshift_nonzero(x ^ y);
    let u = xorshift(x);
    let v = xorshift(y);
    assert(u ^ v != 0 ==> u != v) by (bit_vector);
}

} // verus!
