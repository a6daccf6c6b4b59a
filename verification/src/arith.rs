use vstd::arithmetic::div_mod::{
    lemma_div_is_ordered, lemma_div_multiples_vanish, lemma_div_nonincreasing,
    lemma_div_pos_is_pos, lemma_fundamental_div_mod, lemma_fundamental_div_mod_converse,
};
use vstd::arithmetic::mul::lemma_mul_inequality;
use vstd::prelude::*;

verus! {

/// Floor division of a signed 128-bit value by a positive divisor.
///
/// In contracts, `/` on `int` is Euclidean division, which coincides with
/// floor division whenever the divisor is positive; the body computes the
/// same quotient using unsigned machine division on magnitudes.
pub fn div_floor(a: i128, d: i128) -> (q: i128)
    requires
        0 < d,
        i128::MIN < a,
    ensures
        q == a as int / d as int,
        a >= 0 ==> 0 <= q <= a,
        a < 0 ==> a <= q <= 0,
{
    if a >= 0 {
        let q0: u128 = (a as u128) / (d as u128);
        proof {
            lemma_div_pos_is_pos(a as int, d as int);
            lemma_div_nonincreasing(a as int, d as int);
        }
        q0 as i128
    } else {
        let m: u128 = (-a) as u128;
        let du: u128 = d as u128;
        let q0: u128 = m / du;
        let r0: u128 = m % du;
        proof {
            lemma_div_pos_is_pos(m as int, du as int);
            lemma_div_nonincreasing(m as int, du as int);
            lemma_fundamental_div_mod(m as int, du as int);
        }
        if r0 == 0 {
            proof {
                assert(a as int == (d as int) * (-(q0 as int))) by (nonlinear_arith)
                    requires
                        m as int == (d as int) * (q0 as int) + (r0 as int),
                        r0 as int == 0,
                        a as int == -(m as int);
                lemma_div_multiples_vanish(-(q0 as int), d as int);
            }
            -(q0 as i128)
        } else {
            proof {
                assert(a as int == (-(q0 as int) - 1) * (d as int) + ((d as int) - (r0 as int)))
                    by (nonlinear_arith)
                    requires
                        m as int == (d as int) * (q0 as int) + (r0 as int),
                        a as int == -(m as int);
                lemma_fundamental_div_mod_converse(
                    a as int,
                    d as int,
                    -(q0 as int) - 1,
                    (d as int) - (r0 as int),
                );
                // q0 + 1 <= m, so the result stays within [a, 0]
                lemma_mul_inequality(1, d as int, q0 as int);
            }
            (-(q0 as i128)) - 1
        }
    }
}

/// A quotient-remainder witness fixes the value of a division: handy for
/// evaluating a division of known operands inside a proof.
pub proof fn lemma_div_concrete(x: int, d: int, q: int, r: int)
    requires
        0 < d,
        0 <= r < d,
        x == q * d + r,
    ensures
        x / d == q,
{
    lemma_fundamental_div_mod_converse(x, d, q, r);
}

/// For a nonnegative bound `p`, the quotient of `-p` undershoots the negated
/// quotient of `p` by at most one.
pub proof fn lemma_div_neg(p: int, d: int)
    requires
        0 < d,
        0 <= p,
    ensures
        -(p / d) - 1 <= (-p) / d <= 0,
{
    lemma_fundamental_div_mod(p, d);
    let q = p / d;
    let r = p % d;
    if r == 0 {
        assert((-p) == d * (-q)) by (nonlinear_arith)
            requires p == d * q + r, r == 0;
        lemma_div_multiples_vanish(-q, d);
    } else {
        assert((-p) == (-q - 1) * d + (d - r)) by (nonlinear_arith)
            requires p == d * q + r;
        lemma_fundamental_div_mod_converse(-p, d, -q - 1, d - r);
        lemma_div_pos_is_pos(p, d);
    }
    if p > 0 {
        lemma_div_is_ordered(-p, 0, d);
        assert(0int / d == 0) by {
            lemma_div_multiples_vanish(0, d);
        }
    }
}

/// A symmetric bound on the operand gives a symmetric bound on the quotient,
/// up to the one-off from flooring on the negative side.
pub proof fn lemma_div_mag(x: int, d: int, p: int)
    requires
        0 < d,
        0 <= p,
        -p <= x <= p,
    ensures
        -(p / d) - 1 <= x / d <= p / d,
{
    lemma_div_is_ordered(x, p, d);
    lemma_div_is_ordered(-p, x, d);
    lemma_div_neg(p, d);
}

} // verus!
