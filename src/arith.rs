//! Facts about truncating division and products used by resolution.
use vstd::prelude::*;
use vstd::arithmetic::div_mod::{
    lemma_div_by_multiple, lemma_div_is_ordered, lemma_fundamental_div_mod, lemma_mod_pos_bound,
};
use crate::vector::trunc_div;

verus! {

/// Truncation loses less than one divisor.
pub proof fn lemma_trunc_div_rem(num: int, den: int)
    requires
        den > 0,
    ensures
        -den < num - trunc_div(num, den) * den < den,
{
    if num >= 0 {
        lemma_fundamental_div_mod(num, den);
        lemma_mod_pos_bound(num, den);
        assert(den * (num / den) == (num / den) * den) by (nonlinear_arith);
    } else {
        lemma_fundamental_div_mod(-num, den);
        lemma_mod_pos_bound(-num, den);
        assert(den * ((-num) / den) == -(trunc_div(num, den) * den)) by (nonlinear_arith)
            requires
                trunc_div(num, den) == -((-num) / den),
        ;
    }
}

/// A quotient of a numerator within `k` divisors is within `k`.
pub proof fn lemma_trunc_div_bound(num: int, den: int, k: int)
    requires
        den > 0,
        k >= 0,
        -(k * den) <= num <= k * den,
    ensures
        -k <= trunc_div(num, den) <= k,
{
    lemma_div_by_multiple(k, den);
    if num >= 0 {
        lemma_div_is_ordered(num, k * den, den);
        lemma_div_is_ordered(0, num, den);
    } else {
        lemma_div_is_ordered(-num, k * den, den);
        lemma_div_is_ordered(0, -num, den);
    }
}

/// Dividing an exact multiple gives the multiplier back.
pub proof fn lemma_trunc_div_exact(q: int, den: int)
    requires
        den > 0,
    ensures
        trunc_div(q * den, den) == q,
{
    if q >= 0 {
        lemma_div_by_multiple(q, den);
        assert(q * den >= 0) by (nonlinear_arith)
            requires
                q >= 0,
                den > 0,
        ;
    } else {
        lemma_div_by_multiple(-q, den);
        assert(q * den < 0 && -(q * den) == (-q) * den) by (nonlinear_arith)
            requires
                q < 0,
                den > 0,
        ;
    }
}

/// `|r * p| <= v * s` when `|r| <= v` and `|p| <= s`.
pub proof fn lemma_mul_within(r: int, p: int, v: int, s: int)
    requires
        -v <= r <= v,
        -s <= p <= s,
    ensures
        -(v * s) <= r * p <= v * s,
{
    assert(-(v * s) <= r * p <= v * s) by (nonlinear_arith)
        requires
            -v <= r <= v,
            -s <= p <= s,
    ;
}

} // verus!
