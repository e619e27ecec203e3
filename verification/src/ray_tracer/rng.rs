//! The permuted congruential generator that drives every random choice of the
//! path tracer, and the seeds that the pixels start from.

use vstd::arithmetic::div_mod::{
    lemma_add_mod_noop_right, lemma_fundamental_div_mod, lemma_fundamental_div_mod_converse,
};
use vstd::prelude::*;

verus! {

/// The multiplier of the congruential step.
pub const PCG_MULTIPLIER: u32 = 747796405;

/// The increment of the congruential step.
pub const PCG_INCREMENT: u32 = 2891336453;

/// The multiplier of the output permutation.
pub const PCG_OUTPUT_MULTIPLIER: u32 = 277803737;

/// The inverses of the two multipliers, modulo the number of states.
pub const MULTIPLIER_INVERSE: u32 = 3425435293;
pub const OUTPUT_MULTIPLIER_INVERSE: u32 = 2897767785;

/// The number of states.
pub open spec fn modulus() -> int {
    0x1_0000_0000
}

/// The state that follows `s`.
pub open spec fn advanced(s: u32) -> u32 {
    ((s * PCG_MULTIPLIER + PCG_INCREMENT) % modulus()) as u32
}

/// The state `n` steps after `s`.
pub open spec fn state_after(s: u32, n: nat) -> u32
    decreases n,
{
    if n == 0 {
        s
    } else {
        advanced(state_after(s, (n - 1) as nat))
    }
}

/// The number that state `s` puts out.
pub open spec fn output(s: u32) -> u32 {
    let mixed: u32 = (s >> (((s >> 28) + 4) as u32)) ^ s;
    let word: u32 = ((mixed * PCG_OUTPUT_MULTIPLIER) % modulus()) as u32;
    (word >> 22) ^ word
}

/// The number drawn as the `k`th, counted from zero, of a stream whose state is `s`.
pub open spec fn drawn(s: u32, k: nat) -> u32 {
    output(state_after(s, k))
}

/// `x` with its bits rotated seven places to the left.
pub open spec fn rotated(x: u32) -> u32 {
    ((x * 128) % modulus() + x / 0x0200_0000) as u32
}

/// The seed of pixel `idx` under `salt`.
pub open spec fn seed(idx: u32, salt: u32) -> u32 {
    ((idx * PCG_MULTIPLIER + PCG_INCREMENT + rotated(salt)) % modulus()) as u32
}

/// A generator: its whole state is one word.
pub struct Rng(pub u32);

impl Rng {
    /// Draws the next number and moves the state on by one step.
    pub fn next_u32(&mut self) -> (r: u32)
        ensures
            r == output(old(self).0),
            final(self).0 == advanced(old(self).0),
    {
        let old_state: u32 = self.0;
        self.0 = old_state.wrapping_mul(PCG_MULTIPLIER).wrapping_add(PCG_INCREMENT);
        proof {
            step_is_modular(old_state, PCG_INCREMENT);
            assert(old_state >> 28 <= 15) by (bit_vector);
        }
        let shift: u32 = (old_state >> 28) + 4;
        let word: u32 = ((old_state >> shift) ^ old_state).wrapping_mul(PCG_OUTPUT_MULTIPLIER);
        (word >> 22) ^ word
    }

    /// Draws twice.
    pub fn next_pair(&mut self) -> (r: (u32, u32))
        ensures
            r == (drawn(old(self).0, 0), drawn(old(self).0, 1)),
            final(self).0 == state_after(old(self).0, 2),
    {
        proof {
            reveal_with_fuel(state_after, 3);
        }
        let a: u32 = self.next_u32();
        let b: u32 = self.next_u32();
        (a, b)
    }
}

/// The wrapping step is the step modulo the number of states.
proof fn step_is_modular(s: u32, c: u32)
    ensures
        s.wrapping_mul(PCG_MULTIPLIER).wrapping_add(c) == ((s * PCG_MULTIPLIER + c) % modulus()),
{
    let p: int = s * PCG_MULTIPLIER;
    assert(p % modulus() + (p / modulus()) * modulus() == p);
}

/// Rotates `x` seven places to the left.
fn rotate_left_7(x: u32) -> (r: u32)
    ensures
        r == rotated(x),
{
    proof {
        assert((x << 7) | (x >> 25) == (x * 128) % 0x1_0000_0000 + x / 0x0200_0000) by (bit_vector);
    }
    (x << 7) | (x >> 25)
}

/// The seed that pixel `idx` gets under `salt`.
pub fn seed_for_pixel(idx: u32, salt: u32) -> (r: u32)
    ensures
        r == seed(idx, salt),
{
    let turned: u32 = rotate_left_7(salt);
    proof {
        step_is_modular(idx, PCG_INCREMENT);
        let p: int = idx * PCG_MULTIPLIER + PCG_INCREMENT;
        assert(p % modulus() + (p / modulus()) * modulus() == p);
    }
    idx.wrapping_mul(PCG_MULTIPLIER).wrapping_add(PCG_INCREMENT).wrapping_add(turned)
}

/// Multiplication by a number that has an inverse, modulo the number of states,
/// can be undone.
proof fn multiplier_cancels(a: u32, b: u32, multiplier: int, c: int, inverse: int, wraps: int)
    requires
        multiplier * inverse == 1 + wraps * modulus(),
        (a * multiplier + c) % modulus() == (b * multiplier + c) % modulus(),
    ensures
        a == b,
{
    let m: int = modulus();
    let qa: int = (a * multiplier + c) / m;
    let qb: int = (b * multiplier + c) / m;
    let d: int = a - b;
    let q: int = qa - qb;
    assert(a * multiplier + c == qa * m + (a * multiplier + c) % m);
    assert(b * multiplier + c == qb * m + (b * multiplier + c) % m);
    assert(d * multiplier == q * m) by (nonlinear_arith)
        requires
            d == a - b,
            q == qa - qb,
            a * multiplier - b * multiplier == qa * m - qb * m,
    ;
    let z: int = q * inverse - d * wraps;
    assert(d == z * m) by (nonlinear_arith)
        requires
            d * multiplier == q * m,
            multiplier * inverse == 1 + wraps * m,
            z == q * inverse - d * wraps,
    ;
}

/// A stream that is stopped and taken up again goes on as if it had not been
/// stopped.
pub proof fn stream_continues(s: u32, a: nat, b: nat)
    ensures
        state_after(state_after(s, a), b) == state_after(s, a + b),
        drawn(state_after(s, a), b) == drawn(s, a + b),
    decreases b,
{
    if b > 0 {
        stream_continues(s, a, (b - 1) as nat);
    }
}

/// No two states have the same successor: the step loses nothing.
pub proof fn step_is_injective(a: u32, b: u32)
    requires
        advanced(a) == advanced(b),
    ensures
        a == b,
{
    multiplier_cancels(
        a,
        b,
        PCG_MULTIPLIER as int,
        PCG_INCREMENT as int,
        MULTIPLIER_INVERSE as int,
        596402259,
    );
}

/// No two states put out the same number: the output loses nothing either. (The
/// four topmost bits, which say how far the state is shifted, survive the
/// shift.)
pub proof fn draw_is_injective(a: u32, b: u32)
    requires
        output(a) == output(b),
    ensures
        a == b,
{
    let mixed_a: u32 = (a >> (((a >> 28) + 4) as u32)) ^ a;
    let mixed_b: u32 = (b >> (((b >> 28) + 4) as u32)) ^ b;
    let x: u32 = ((mixed_a * PCG_OUTPUT_MULTIPLIER) % modulus()) as u32;
    let y: u32 = ((mixed_b * PCG_OUTPUT_MULTIPLIER) % modulus()) as u32;
    assert((x >> 22) ^ x == (y >> 22) ^ y ==> x == y) by (bit_vector);
    multiplier_cancels(
        mixed_a,
        mixed_b,
        PCG_OUTPUT_MULTIPLIER as int,
        0,
        OUTPUT_MULTIPLIER_INVERSE as int,
        187431164,
    );
    assert((a >> (((a >> 28) + 4) as u32)) ^ a == (b >> (((b >> 28) + 4) as u32)) ^ b ==> a == b)
        by (bit_vector);
}

/// Under one salt no two pixels share a seed.
pub proof fn seeds_are_distinct(i: u32, j: u32, salt: u32)
    requires
        i != j,
    ensures
        seed(i, salt) != seed(j, salt),
{
    if seed(i, salt) == seed(j, salt) {
        multiplier_cancels(
            i,
            j,
            PCG_MULTIPLIER as int,
            PCG_INCREMENT + rotated(salt),
            MULTIPLIER_INVERSE as int,
            596402259,
        );
    }
}

/// Rotating loses nothing.
proof fn rotation_is_injective(a: u32, b: u32)
    requires
        rotated(a) == rotated(b),
    ensures
        a == b,
{
    assert((a * 128) % 0x1_0000_0000 + a / 0x0200_0000 <= u32::MAX) by (bit_vector);
    assert((b * 128) % 0x1_0000_0000 + b / 0x0200_0000 <= u32::MAX) by (bit_vector);
    assert((a * 128) % 0x1_0000_0000 + a / 0x0200_0000 == (b * 128) % 0x1_0000_0000 + b
        / 0x0200_0000 ==> a == b) by (bit_vector);
}

/// Two numbers below the modulus that lead from one place to the same place,
/// modulo it, are the same.
proof fn distance_is_unique(base: int, x: int, y: int)
    requires
        0 <= x < modulus(),
        0 <= y < modulus(),
        (base + x) % modulus() == (base + y) % modulus(),
    ensures
        x == y,
{
    let qx: int = (base + x) / modulus();
    let qy: int = (base + y) / modulus();
    assert(x - y == (qx - qy) * modulus());
}

/// Under two salts no pixel has the same seed.
pub proof fn salts_are_told_apart(idx: u32, a: u32, b: u32)
    requires
        a != b,
    ensures
        seed(idx, a) != seed(idx, b),
{
    if seed(idx, a) == seed(idx, b) {
        distance_is_unique(
            idx * PCG_MULTIPLIER + PCG_INCREMENT,
            rotated(a) as int,
            rotated(b) as int,
        );
        rotation_is_injective(a, b);
    }
}

/// The step is affine: from zero it leads to the increment, and states that are
/// one apart lead to states that are one multiplier apart.
pub proof fn step_is_affine(s: u32)
    ensures
        advanced(0) == 2891336453,
        s < u32::MAX ==> advanced((s + 1) as u32) == (advanced(s) + 747796405) % 0x1_0000_0000,
        advanced(s) == (747796405 * s + 2891336453) % 0x1_0000_0000,
{
    let p: int = s * 747796405 + 2891336453;
    let q: int = (s + 1) * 747796405 + 2891336453;
    assert(q == 747796405 + p);
    lemma_add_mod_noop_right(747796405, p, modulus());
}

/// Whence a number came: undone step by step, what a state puts out leads back to
/// the state.
pub proof fn state_is_found_from_its_output(s: u32)
    ensures
        ({
            let drawn = output(s);
            let word: u32 = drawn ^ (drawn >> 22);
            let mixed: u32 = ((word * 2897767785) % 0x1_0000_0000) as u32;
            s == mixed ^ (s >> ((s / 0x1000_0000 + 4) as u32))
        }),
{
    let mixed: u32 = (s >> (((s >> 28) + 4) as u32)) ^ s;
    let word: u32 = ((mixed * PCG_OUTPUT_MULTIPLIER) % modulus()) as u32;
    let out: u32 = (word >> 22) ^ word;
    assert(out ^ (out >> 22) == word) by (bit_vector)
        requires
            out == (word >> 22) ^ word,
    ;
    inverse_undoes(mixed as int);
    let k: u32 = s / 0x1000_0000;
    assert(s >> 28 == s / 0x1000_0000) by (bit_vector);
    let t: u32 = s >> (((s >> 28) + 4) as u32);
    assert((t ^ s) ^ t == s) by (bit_vector);
}

/// Multiplying with the output multiplier and then with its inverse, modulo the
/// number of states, changes nothing.
proof fn inverse_undoes(x: int)
    requires
        0 <= x < modulus(),
    ensures
        (((x * PCG_OUTPUT_MULTIPLIER) % modulus()) * 2897767785) % modulus() == x,
{
    let m: int = modulus();
    let p: int = x * 277803737;
    let q: int = p / m;
    let w: int = p % m;
    lemma_fundamental_div_mod(p, m);
    let z: int = x * 187431164 - q * 2897767785;
    assert(w * 2897767785 == z * 0x1_0000_0000 + x);
    lemma_fundamental_div_mod_converse(w * 2897767785, m, z, x);
}

/// Numbers are drawn in order: the first is what the state puts out, and those
/// after it are what the next state draws.
pub proof fn numbers_are_drawn_in_order(s: u32, k: nat)
    ensures
        drawn(s, 0) == output(s),
        drawn(s, k + 1) == drawn(advanced(s), k),
        state_after(s, 0) == s,
        state_after(s, k + 1) == state_after(advanced(s), k),
    decreases k,
{
    reveal_with_fuel(state_after, 3);
    if k > 0 {
        numbers_are_drawn_in_order(s, (k - 1) as nat);
    }
}

/// Rotating carries each bit seven places up, and the seven topmost bits round to
/// the bottom.
pub proof fn bits_go_round(x: u32, k: u32)
    requires
        k < 32,
    ensures
        (rotated(x) >> ((k + 7) % 32) as u32) & 1 == (x >> k) & 1,
{
    let r: u32 = (x << 7) | (x >> 25);
    assert(r == (x * 128) % 0x1_0000_0000 + x / 0x0200_0000) by (bit_vector)
        requires
            r == (x << 7) | (x >> 25),
    ;
    assert(rotated(x) == r);
    let j: u32 = ((k + 7) % 32) as u32;
    assert((r >> j) & 1 == (x >> k) & 1) by (bit_vector)
        requires
            k < 32,
            j == (k + 7) % 32,
            r == (x << 7) | (x >> 25),
    ;
}

/// Seeds of neighboring pixels are one multiplier apart, and that of the first
/// pixel is the increment plus the rotated salt.
pub proof fn seeds_are_evenly_spaced(idx: u32, salt: u32)
    ensures
        seed(0, salt) == (2891336453 + rotated(salt)) % 0x1_0000_0000,
        idx < u32::MAX ==> seed((idx + 1) as u32, salt) == (seed(idx, salt) + 747796405)
            % 0x1_0000_0000,
{
    let p: int = idx * 747796405 + 2891336453 + rotated(salt);
    let q: int = (idx + 1) * 747796405 + 2891336453 + rotated(salt);
    assert(q == 747796405 + p);
    lemma_add_mod_noop_right(747796405, p, modulus());
}

} // verus!
