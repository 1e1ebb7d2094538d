use vstd::prelude::*;
use vstd::arithmetic::div_mod::{
    lemma_fundamental_div_mod, lemma_fundamental_div_mod_converse_div,
    lemma_fundamental_div_mod_converse_mod, lemma_mod_pos_bound,
};

verus! {

/// Floor division and the matching non-negative remainder, as the
/// mathematical `a / m` and `a % m` (Euclidean for a positive divisor).
pub fn floor_div_mod(a: i128, m: i128) -> (r: (i128, i128))
    requires
        m > 0,
        a > i128::MIN,
    ensures
        r.0 == a / m,
        r.1 == a % m,
        0 <= r.1 < m,
{
    let q = a / m;
    let rem = a % m;
    if a >= 0 {
        proof {
            lemma_mod_pos_bound(a as int, m as int);
        }
        (q, rem)
    } else {
        let ghost b: int = -(a as int);
        proof {
            lemma_fundamental_div_mod(b, m as int);
            lemma_mod_pos_bound(b, m as int);
        }
        assert(q == -(b / (m as int)));
        assert(rem == -(b % (m as int)));
        if rem < 0 {
            proof {
                assert(a == (q - 1) * m + (rem + m)) by (nonlinear_arith)
                    requires
                        b == m * (b / (m as int)) + b % (m as int),
                        a == -b,
                        q == -(b / (m as int)),
                        rem == -(b % (m as int)),
                ;
                lemma_fundamental_div_mod_converse_div(a as int, m as int, q - 1, rem + m);
                lemma_fundamental_div_mod_converse_mod(a as int, m as int, q - 1, rem + m);
            }
            (q - 1, rem + m)
        } else {
            proof {
                assert(a == q * m + rem) by (nonlinear_arith)
                    requires
                        b == m * (b / (m as int)) + b % (m as int),
                        a == -b,
                        q == -(b / (m as int)),
                        rem == -(b % (m as int)),
                ;
                lemma_fundamental_div_mod_converse_div(a as int, m as int, q as int, rem as int);
                lemma_fundamental_div_mod_converse_mod(a as int, m as int, q as int, rem as int);
            }
            (q, rem)
        }
    }
}

} // verus!
