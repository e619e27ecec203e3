//! The period of the generator: it visits every state, and draws every number,
//! exactly once before it starts over.

use vstd::arithmetic::div_mod::{lemma_fundamental_div_mod, lemma_mod_multiples_vanish};
use vstd::arithmetic::power2::{lemma2_to64, lemma_pow2_pos, lemma_pow2_unfold, pow2};
use vstd::prelude::*;
use vstd::relations::injective_on;
use vstd::set_lib::{lemma_int_range, lemma_map_size, lemma_subset_equality, set_int_range};
use crate::ray_tracer::rng::{
    advanced, draw_is_injective, drawn, modulus, state_after, stream_continues, PCG_INCREMENT,
    PCG_MULTIPLIER,
};

verus! {

/// The state `n` steps after `s`, without reducing it.
spec fn unreduced(s: int, n: nat) -> int
    decreases n,
{
    if n == 0 {
        s
    } else {
        unreduced(s, (n - 1) as nat) * PCG_MULTIPLIER + PCG_INCREMENT
    }
}

/// Reducing at the end is reducing at every step.
proof fn reduced_at_the_end(s: u32, n: nat)
    ensures
        state_after(s, n) == unreduced(s as int, n) % modulus(),
    decreases n,
{
    if n > 0 {
        reduced_at_the_end(s, (n - 1) as nat);
        let far = unreduced(s as int, (n - 1) as nat);
        let near = state_after(s, (n - 1) as nat) as int;
        let q = far / modulus();
        lemma_fundamental_div_mod(far, modulus());
        assert(far == near + q * modulus()) by (nonlinear_arith)
            requires
                far == modulus() * q + near,
        ;
        let x = near * PCG_MULTIPLIER + PCG_INCREMENT;
        let wraps = q * PCG_MULTIPLIER;
        assert(far * PCG_MULTIPLIER + PCG_INCREMENT == modulus() * wraps + x) by (nonlinear_arith)
            requires
                far == near + q * modulus(),
                x == near * PCG_MULTIPLIER + PCG_INCREMENT,
                wraps == q * PCG_MULTIPLIER,
        ;
        lemma_mod_multiples_vanish(wraps, x, modulus());
        assert(state_after(s, n) == advanced(state_after(s, (n - 1) as nat)));
    }
}

/// Steps add up.
proof fn unreduced_adds(s: int, a: nat, b: nat)
    ensures
        unreduced(unreduced(s, a), b) == unreduced(s, a + b),
    decreases b,
{
    if b > 0 {
        unreduced_adds(s, a, (b - 1) as nat);
    }
}

/// A quarter of what a leap of `pow2(k)` steps gains per unit of the state that
/// it starts from, in units of `pow2(k)`.
spec fn leap_slope(k: nat) -> int
    decreases k,
{
    if k == 0 {
        186949101
    } else {
        let x = leap_slope((k - 1) as nat);
        x + 2 * (pow2((k - 1) as nat) * (x * x))
    }
}

/// How far a leap of `pow2(k)` steps from zero goes, in units of `pow2(k)`: twice
/// this, and one.
spec fn leap_offset(k: nat) -> int
    decreases k,
{
    if k == 0 {
        1445668226
    } else {
        let y = leap_offset((k - 1) as nat);
        y + pow2((k - 1) as nat) * (leap_slope((k - 1) as nat) * (2 * y + 1))
    }
}

/// By how many times `pow2(k)` a leap of as many steps changes a state: always
/// by an odd number.
spec fn leap_length(s: int, k: nat) -> int {
    4 * (leap_slope(k) * s) + 2 * leap_offset(k) + 1
}

/// Two leaps of `p` make one of `2 * p`.
proof fn two_leaps(s: int, p: int, x: int, y: int)
    ensures
        ({
            let e = 4 * (x * s) + 2 * y + 1;
            let t = s + p * e;
            t + p * (4 * (x * t) + 2 * y + 1) == s + (2 * p) * (4 * ((x + 2 * (p * (x * x))) * s)
                + 2 * (y + p * (x * (2 * y + 1))) + 1)
        }),
{
    let e = 4 * (x * s) + 2 * y + 1;
    let t = s + p * e;
    let w = p * x;
    assert(x * t == x * s + w * e) by (nonlinear_arith)
        requires
            t == s + p * e,
            w == p * x,
    ;
    assert(4 * (x * t) + 2 * y + 1 == e + 4 * (w * e));
    assert(p * (e + 4 * (w * e)) == p * e + 4 * (p * (w * e))) by (nonlinear_arith);
    let f = e + 2 * (w * e);
    assert((2 * p) * f == 2 * (p * e) + 4 * (p * (w * e))) by (nonlinear_arith)
        requires
            f == e + 2 * (w * e),
    ;
    assert(w * e == 4 * (w * (x * s)) + 2 * (w * y) + w) by (nonlinear_arith)
        requires
            e == 4 * (x * s) + 2 * y + 1,
    ;
    assert((x + 2 * (p * (x * x))) * s == x * s + 2 * (w * (x * s))) by (nonlinear_arith)
        requires
            w == p * x,
    ;
    assert(p * (x * (2 * y + 1)) == 2 * (w * y) + w) by (nonlinear_arith)
        requires
            w == p * x,
    ;
}

/// A leap of `pow2(k)` steps.
proof fn leap(s: int, k: nat)
    ensures
        unreduced(s, pow2(k)) == s + pow2(k) * leap_length(s, k),
    decreases k,
{
    if k == 0 {
        lemma2_to64();
        assert(unreduced(s, 0) == s);
        assert(unreduced(s, 1) == unreduced(s, 0) * PCG_MULTIPLIER + PCG_INCREMENT);
        assert(leap_slope(0) * s == 186949101 * s);
        assert(1 * leap_length(s, 0) == leap_length(s, 0));
    } else {
        let j = (k - 1) as nat;
        let p = pow2(j);
        lemma_pow2_unfold(k);
        leap(s, j);
        let t = unreduced(s, p);
        leap(t, j);
        unreduced_adds(s, p, p);
        two_leaps(s, p as int, leap_slope(j), leap_offset(j));
    }
}

/// After `m` leaps the state has changed by `pow2(k)` times a number that is odd
/// just when `m` is.
proof fn leaps(s: int, k: nat, m: nat) -> (q: int)
    ensures
        unreduced(s, pow2(k) * m) == s + pow2(k) * q,
        q % 2 == m as int % 2,
    decreases m,
{
    let p = pow2(k);
    if m == 0 {
        assert(p * m == 0) by (nonlinear_arith)
            requires
                m == 0,
        ;
        assert(p * 0 == 0);
        0
    } else {
        let before = leaps(s, k, (m - 1) as nat);
        let t = unreduced(s, p * ((m - 1) as nat));
        leap(t, k);
        assert(p * ((m - 1) as nat) + p == p * m) by (nonlinear_arith)
            requires
                m >= 1,
        ;
        unreduced_adds(s, p * ((m - 1) as nat), p);
        let q = before + leap_length(t, k);
        assert(p * before + p * leap_length(t, k) == p * q) by (nonlinear_arith)
            requires
                q == before + leap_length(t, k),
        ;
        q
    }
}

/// A state that comes back modulo `pow2(k)` comes back after a multiple of
/// `pow2(k)` steps.
proof fn comes_back_after(s: int, n: nat, k: nat, d: int) -> (m: nat)
    requires
        unreduced(s, n) == s + pow2(k) * d,
    ensures
        n == pow2(k) * m,
    decreases k,
{
    if k == 0 {
        lemma2_to64();
        assert(pow2(0) * n == n) by (nonlinear_arith)
            requires
                pow2(0) == 1,
        ;
        n
    } else {
        let j = (k - 1) as nat;
        let p = pow2(j);
        lemma_pow2_unfold(k);
        lemma_pow2_pos(j);
        assert((2 * p) * d == p * (2 * d)) by (nonlinear_arith);
        let half = comes_back_after(s, n, j, 2 * d);
        let q = leaps(s, j, half);
        assert(q == 2 * d) by (nonlinear_arith)
            requires
                p * q == p * (2 * d),
                p > 0,
        ;
        assert(half % 2 == 0);
        let m = half / 2;
        assert(p * half == pow2(k) * m) by (nonlinear_arith)
            requires
                half == 2 * m,
                pow2(k) == 2 * p,
        ;
        m
    }
}

/// The generator is back where it started after a multiple of all its states,
/// and at no other time.
pub proof fn stream_returns(s: u32, n: nat)
    ensures
        state_after(s, n) == s <==> n as int % modulus() == 0,
{
    lemma2_to64();
    reduced_at_the_end(s, n);
    let far = unreduced(s as int, n);
    if state_after(s, n) == s {
        let d = far / modulus();
        assert(far == s + modulus() * d);
        let m = comes_back_after(s as int, n, 32, d);
        assert(n as int % modulus() == 0) by (nonlinear_arith)
            requires
                n == 0x1_0000_0000 * m,
                modulus() == 0x1_0000_0000,
        ;
    }
    if n as int % modulus() == 0 {
        let m = (n as int / modulus()) as nat;
        let q = leaps(s as int, 32, m);
        assert(far == s + modulus() * q);
        assert((s + modulus() * q) % modulus() == s as int);
    }
}

/// Within one period no state comes twice.
proof fn states_differ(s: u32, i: nat, j: nat)
    requires
        i < j < modulus(),
    ensures
        state_after(s, i) != state_after(s, j),
{
    stream_continues(s, i, (j - i) as nat);
    stream_returns(state_after(s, i), (j - i) as nat);
}

/// Within one period no number is drawn twice.
pub proof fn draws_differ(s: u32, i: nat, j: nat)
    requires
        i < modulus(),
        j < modulus(),
        i != j,
    ensures
        drawn(s, i) != drawn(s, j),
{
    if i < j {
        states_differ(s, i, j);
    } else {
        states_differ(s, j, i);
    }
    if drawn(s, i) == drawn(s, j) {
        draw_is_injective(state_after(s, i), state_after(s, j));
    }
}

/// In one period every number is drawn exactly once, wherever the stream starts.
pub proof fn every_number_is_drawn_once(s: u32, v: u32)
    ensures
        exists|k: nat| k < modulus() && #[trigger] drawn(s, k) == v,
        forall|i: nat, j: nat|
            i < modulus() && j < modulus() && #[trigger] drawn(s, i) == v && #[trigger] drawn(s, j)
                == v ==> i == j,
{
    let all = set_int_range(0, modulus());
    let f = |k: int| drawn(s, k as nat) as int;
    lemma_int_range(0, modulus());
    assert forall|x: int, y: int|
        all.contains(x) && all.contains(y) && #[trigger] f(x) == #[trigger] f(y) implies x == y by {
        if x != y {
            draws_differ(s, x as nat, y as nat);
        }
    }
    assert(injective_on(f, all));
    let image = all.map(f);
    lemma_map_size(all, image, f);
    assert(image.subset_of(all));
    lemma_subset_equality(image, all);
    assert(all.contains(v as int));
    assert(image.contains(v as int));
    let k = choose|k: int| all.contains(k) && f(k) == v as int;
    assert(drawn(s, k as nat) == v);
    assert forall|i: nat, j: nat|
        i < modulus() && j < modulus() && #[trigger] drawn(s, i) == v && #[trigger] drawn(s, j)
            == v implies i == j by {
        if i != j {
            draws_differ(s, i, j);
        }
    }
}

} // verus!
