//! The seeded linear congruential generator behind the droplet cloud's
//! positions.

use vstd::prelude::*;

verus! {

/// `2^64`.
pub open spec fn two_pow_64() -> nat {
    0x1_0000_0000_0000_0000
}

/// One step of the generator: `state * 1664525 + 1013904223` modulo `2^64`.
pub open spec fn lcg_step(state: u64) -> u64 {
    ((state as nat * 1664525 + 1013904223) % two_pow_64()) as u64
}

/// The generator's state after `k` steps from `seed`.
pub open spec fn lcg_iterate(seed: u64, k: nat) -> u64
    decreases k,
{
    if k == 0 {
        seed
    } else {
        lcg_step(lcg_iterate(seed, (k - 1) as nat))
    }
}

/// The next state of the generator.
pub fn lcg_next(state: u64) -> (next: u64)
    ensures
        next == lcg_step(state),
        next as int == (state as int * 1664525 + 1013904223) % 0x1_0000_0000_0000_0000,
{
    let product = state.wrapping_mul(1664525);
    proof {
        let p = state as nat * 1664525;
        let r = two_pow_64() as int;
        let x = product as int + 1013904223;
        vstd::arithmetic::div_mod::lemma_add_mod_noop(p as int, 1013904223, r);
        vstd::arithmetic::div_mod::lemma_small_mod(1013904223, two_pow_64());
        assert(product as int == p as int % r);
        if x >= r {
            vstd::arithmetic::div_mod::lemma_mod_sub_multiples_vanish(x, r);
            vstd::arithmetic::div_mod::lemma_small_mod((x - r) as nat, two_pow_64());
        } else {
            vstd::arithmetic::div_mod::lemma_small_mod(x as nat, two_pow_64());
        }
    }
    product.wrapping_add(1013904223)
}

/// One step multiplies by 1664525 and adds 1013904223 in wrapping 64-bit
/// arithmetic (modulo `2^64`), so states spread over the whole `u64` range:
/// from `2^63` the next state is `2^63 + 1013904223`.
pub proof fn lemma_lcg_step_is_wrapping(state: u64)
    ensures
        lcg_step(state) as int == (state as int * 1664525 + 1013904223) % 0x1_0000_0000_0000_0000,
        lcg_step(0x8000_0000_0000_0000) == 0x8000_0000_3c6e_f35f,
        lcg_step(0x8000_0000_0000_0000) >= 0x8000_0000_0000_0000,
{
    assert((0x8000_0000_0000_0000int * 1664525 + 1013904223) % 0x1_0000_0000_0000_0000
        == 0x8000_0000_3c6e_f35f);
}

/// The first `count` states after `seed`, in order: element `i` is the state
/// after `i + 1` steps.
pub fn lcg_states(seed: u64, count: usize) -> (states: Vec<u64>)
    ensures
        states.len() == count,
        forall|i: int| 0 <= i < count ==> #[trigger] states[i] == lcg_iterate(seed, (i + 1) as nat),
        count > 0 ==> states[0] == lcg_step(seed),
        forall|i: int| 0 <= i < count - 1 ==> #[trigger] states[i + 1] == lcg_step(states[i]),
{
    let mut states: Vec<u64> = Vec::new();
    let mut state = seed;
    while states.len() < count
        invariant
            states.len() <= count,
            state == lcg_iterate(seed, states.len() as nat),
            forall|i: int| 0 <= i < states.len() ==> #[trigger] states[i] == lcg_iterate(seed, (i + 1) as nat),
        decreases count - states.len(),
    {
        state = lcg_next(state);
        states.push(state);
    }
    proof {
        if count > 0 {
            assert(states[0] == lcg_iterate(seed, 1));
            assert(lcg_iterate(seed, 0) == seed);
        }
    }
    states
}

} // verus!
