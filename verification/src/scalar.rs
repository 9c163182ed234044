//! Truncating scalar division, shared by the componentwise vector
//! division of every vector width.

use vstd::prelude::*;

verus! {

use vstd::arithmetic::div_mod::{lemma_div_is_ordered_by_denominator, lemma_div_nonincreasing};

/// The quotient of `a` by `b` rounded toward zero: what Rust's `/`
/// computes on signed integers. (The spec operator `/` is Euclidean
/// division instead, which rounds differently for negative operands.)
pub open spec fn div_trunc(a: int, b: int) -> int {
    if a < 0 && b < 0 {
        (-a) / (-b)
    } else if a < 0 {
        -((-a) / b)
    } else if b < 0 {
        -(a / (-b))
    } else {
        a / b
    }
}

/// Truncating `i64` division: behaves as Rust's `/` does on `i64`.
/// The excluded operand pairs are exactly those on which `/` panics.
pub(crate) fn div_i64(a: i64, b: i64) -> (q: i64)
    requires
        b != 0,
        !(a == i64::MIN && b == -1),
    ensures
        q == div_trunc(a as int, b as int),
{
    let wa: i128 = a as i128;
    let wb: i128 = b as i128;
    let ma: i128 = if wa < 0 { -wa } else { wa };
    let mb: i128 = if wb < 0 { -wb } else { wb };
    proof {
        lemma_div_nonincreasing(ma as int, mb as int);
        if mb >= 2 {
            lemma_div_is_ordered_by_denominator(ma as int, 2, mb as int);
        }
    }
    let mq: i128 = ma / mb;
    if (a < 0) != (b < 0) {
        (-mq) as i64
    } else {
        mq as i64
    }
}

} // verus!
