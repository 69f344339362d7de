//! Chip specific helpers.

use vstd::prelude::*;
use vstd::arithmetic::div_mod::{lemma_fundamental_div_mod, lemma_mod_multiples_basic};

verus! {

/// Enters the chip's bootloader. On nRF chips rumcake has no bootloader to enter, and this does
/// nothing.
pub fn jump_to_bootloader() {
}

/// The greatest common divisor, by Euclid's algorithm.
pub open spec fn gcd_of(a: nat, b: nat) -> nat
    decreases b,
{
    if b == 0 {
        a
    } else {
        gcd_of(b, a % b)
    }
}

/// The greatest common divisor of `a` and `b` (used to divide clock frequencies down to the
/// smallest whole pre-divider and multiplier).
pub fn gcd(a: u32, b: u32) -> (r: u32)
    ensures
        r == gcd_of(a as nat, b as nat),
    decreases b,
{
    if b == 0 {
        a
    } else {
        gcd(b, a % b)
    }
}

/// What `gcd` computes is the greatest common divisor: it divides both numbers, and every common
/// divisor of both numbers divides it. It is 0 only where both numbers are 0.
pub proof fn lemma_gcd_is_greatest_common_divisor(a: nat, b: nat)
    ensures
        gcd_of(a, b) == 0 <==> (a == 0 && b == 0),
        gcd_of(a, b) > 0 ==> a % gcd_of(a, b) == 0 && b % gcd_of(a, b) == 0,
        forall|d: nat| d > 0 && #[trigger] (a % d) == 0 && b % d == 0 ==> gcd_of(a, b) % d == 0,
    decreases b,
{
    if b == 0 {
        if a > 0 {
            assert(a % a == 0) by {
                lemma_mod_multiples_basic(1, a as int);
            }
        }
        assert(0int % (a as int) == 0 || a == 0) by {
            if a > 0 {
                lemma_mod_multiples_basic(0, a as int);
            }
        }
    } else {
        let r = a % b;
        lemma_gcd_is_greatest_common_divisor(b, r);
        let g = gcd_of(b, r);
        assert(g > 0) by {
            assert(!(b == 0 && r == 0));
        }
        assert(gcd_of(a, b) == g);
        assert(a % g == 0) by {
            lemma_fundamental_div_mod(a as int, b as int);
            lemma_fundamental_div_mod(b as int, g as int);
            lemma_fundamental_div_mod(r as int, g as int);
            let q = a as int / b as int;
            let kb = b as int / g as int;
            let kr = r as int / g as int;
            assert(a as int == (q * kb + kr) * g) by (nonlinear_arith)
                requires
                    a as int == b * q + r,
                    b as int == g * kb,
                    r as int == g * kr,
            ;
            lemma_mod_multiples_basic(q * kb + kr, g as int);
        }
        assert forall|d: nat| d > 0 && #[trigger] (a % d) == 0 && b % d == 0 implies g % d == 0 by {
            lemma_fundamental_div_mod(a as int, b as int);
            let di = d as int;
            lemma_fundamental_div_mod(a as int, di);
            lemma_fundamental_div_mod(b as int, di);
            let q = a as int / b as int;
            let ka = a as int / di;
            let kb = b as int / di;
            assert(r as int == (ka - q * kb) * di) by (nonlinear_arith)
                requires
                    a as int == b * q + r,
                    a as int == di * ka,
                    b as int == di * kb,
            ;
            lemma_mod_multiples_basic(ka - q * kb, di);
            assert(r % d == 0);
        }
    }
}

} // verus!
