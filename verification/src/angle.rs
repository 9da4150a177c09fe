//! Fixed-point angles.
//!
//! An angle is a `u64` count of nano-radians (billionths of a radian). A
//! full turn is `TAU_NANOS`; a stored phase angle is always kept in
//! `[0, TAU_NANOS)` by wrapping, which subtracts whole turns and never
//! resets the phase, so the direction of motion stays continuous.

use vstd::arithmetic::div_mod::{
    lemma_add_mod_noop_right, lemma_mod_add_multiples_vanish, lemma_small_mod,
};
use vstd::prelude::*;

verus! {

/// One full turn (two pi radians) in nano-radians, rounded down.
pub const TAU_NANOS: u64 = 6_283_185_307;

/// A quarter turn (half pi radians) in nano-radians, rounded down.
pub const HALF_PI_NANOS: u64 = 1_570_796_326;

/// An angle is in canonical form when it lies in `[0, TAU_NANOS)`.
pub open spec fn angle_wrapped(a: u64) -> bool {
    a < TAU_NANOS
}

/// Advance a canonical angle by a step and wrap the sum back into
/// `[0, TAU_NANOS)`. The step may span many turns; the result is the sum
/// reduced modulo one turn.
pub fn wrap_add(a: u64, delta: u128) -> (r: u64)
    requires
        angle_wrapped(a),
    ensures
        angle_wrapped(r),
        r == (a + delta) % (TAU_NANOS as int),
        delta == 0 ==> r == a,
{
    let tau: u128 = TAU_NANOS as u128;
    let step: u128 = delta % tau;
    let sum: u128 = a as u128 + step;
    proof {
        lemma_add_mod_noop_right(a as int, delta as int, TAU_NANOS as int);
        if sum < tau {
            lemma_small_mod(sum as nat, TAU_NANOS as nat);
        } else {
            assert((sum - tau) + 1 * (TAU_NANOS as int) == a + (delta as int) % (
            TAU_NANOS as int));
            lemma_mod_add_multiples_vanish(sum - tau, TAU_NANOS as int);
            lemma_small_mod((sum - tau) as nat, TAU_NANOS as nat);
        }
        if delta == 0 {
            lemma_small_mod(a as nat, TAU_NANOS as nat);
        }
    }
    if sum >= tau {
        (sum - tau) as u64
    } else {
        sum as u64
    }
}

} // verus!
