use vstd::prelude::*;

use crate::expr::Expr;
use crate::simplify::{
    add_spec, decompose_add_spec, decompose_mul_spec, fits_i64, ln_spec, mul_spec, pow_spec,
    pown_spec,
};
use vstd::arithmetic::power::{lemma0_pow, lemma_pow0, lemma_pow1};
use vstd::math::abs;

verus! {

/// The constant folding of `add(a, b)` stays within `i64`.  This always
/// holds when either operand contributes the additive identity, and can
/// only fail on literal constants on the order of `i64::MAX`.
pub open spec fn add_folds(a: Expr, b: Expr) -> bool {
    fits_i64(decompose_add_spec(a).0 + decompose_add_spec(b).0)
}

/// The constant folding of `mul(a, b)` stays within `i64`.
pub open spec fn mul_folds(a: Expr, b: Expr) -> bool {
    fits_i64(decompose_mul_spec(a).0 * decompose_mul_spec(b).0)
}

/// The literal folding of `pow(a, b)` stays within `i64`; trivially true
/// unless both operands are literals.
pub open spec fn pow_folds(a: Expr, b: Expr) -> bool {
    match (a, b) {
        (Expr::Int(m), Expr::Int(n)) => fits_i64(pown_spec(m as int, n as int)),
        _ => true,
    }
}

/// The remainder left by additive decomposition of a simplified expression
/// is itself simplified and never a bare literal.
proof fn lemma_decompose_add_props(e: Expr)
    requires
        e.simplified(),
    ensures
        decompose_add_spec(e).1 matches Some(r) ==> r.simplified() && !(r is Int),
{
}

/// The remainder left by multiplicative decomposition of a simplified
/// expression is itself simplified and never a bare literal.
proof fn lemma_decompose_mul_props(e: Expr)
    requires
        e.simplified(),
    ensures
        decompose_mul_spec(e).1 matches Some(r) ==> r.simplified() && !(r is Int),
{
}

/// Identity folding: adding literal `0` on either side of a simplified
/// expression returns that expression unchanged.
pub proof fn lemma_add_identity(e: Expr)
    requires
        e.simplified(),
    ensures
        add_spec(Expr::Int(0), e) == e,
        add_spec(e, Expr::Int(0)) == e,
{
}

/// Zero absorption: multiplying literal `0` by any expression collapses to
/// literal `0` without regard to the other operand's structure.
pub proof fn lemma_mul_zero(e: Expr)
    ensures
        mul_spec(Expr::Int(0), e) == Expr::Int(0),
        mul_spec(e, Expr::Int(0)) == Expr::Int(0),
{
}

/// Power identities: exponent `0` collapses to literal `1`, exponent `1`
/// returns the base unchanged, and a base of literal `0` collapses to
/// literal `0` for every nonzero exponent.
pub proof fn lemma_pow_identities(e: Expr)
    ensures
        pow_spec(e, Expr::Int(0)) == Expr::Int(1),
        pow_spec(e, Expr::Int(1)) == e,
        e != Expr::Int(0) ==> pow_spec(Expr::Int(0), e) == Expr::Int(0),
{
    match e {
        Expr::Int(m) => {
            lemma_pow0(m as int);
            lemma_pow1(m as int);
            if m != 0 {
                lemma0_pow(abs(m as int));
            }
        },
        _ => {},
    }
}

/// Sums built by [`Expr::add`] keep the structural invariant as long as
/// the constant folding stays within `i64`.
pub proof fn lemma_add_simplified(a: Expr, b: Expr)
    requires
        a.simplified(),
        b.simplified(),
        add_folds(a, b),
    ensures
        add_spec(a, b).simplified(),
{
    lemma_decompose_add_props(a);
    lemma_decompose_add_props(b);
    let (m, fo) = decompose_add_spec(a);
    let (n, go) = decompose_add_spec(b);
    let mn = (m + n) as i64;
    assert(Expr::Int(mn).simplified());
    match (fo, go) {
        (None, None) => {},
        (Some(f), None) => {
            if mn != 0 {
                assert(Expr::Add(Box::new(Expr::Int(mn)), Box::new(f)).simplified());
            }
        },
        (None, Some(g)) => {
            if mn != 0 {
                assert(Expr::Add(Box::new(Expr::Int(mn)), Box::new(g)).simplified());
            }
        },
        (Some(f), Some(g)) => {
            let fg = Expr::Add(Box::new(f), Box::new(g));
            assert(fg.simplified());
            if mn != 0 {
                assert(Expr::Add(Box::new(Expr::Int(mn)), Box::new(fg)).simplified());
            }
        },
    }
}

/// Products built by [`Expr::mul`] keep the structural invariant as long
/// as the constant folding stays within `i64`.
pub proof fn lemma_mul_simplified(a: Expr, b: Expr)
    requires
        a.simplified(),
        b.simplified(),
        mul_folds(a, b),
    ensures
        mul_spec(a, b).simplified(),
{
    lemma_decompose_mul_props(a);
    lemma_decompose_mul_props(b);
    let (m, fo) = decompose_mul_spec(a);
    let (n, go) = decompose_mul_spec(b);
    let mn = (m * n) as i64;
    assert(Expr::Int(mn).simplified());
    match (fo, go) {
        (None, None) => {},
        (Some(f), None) => {
            if mn != 0 && mn != 1 {
                assert(Expr::Mul(Box::new(Expr::Int(mn)), Box::new(f)).simplified());
            }
        },
        (None, Some(g)) => {
            if mn != 0 && mn != 1 {
                assert(Expr::Mul(Box::new(Expr::Int(mn)), Box::new(g)).simplified());
            }
        },
        (Some(f), Some(g)) => {
            let fg = Expr::Mul(Box::new(f), Box::new(g));
            assert(fg.simplified());
            if mn != 0 && mn != 1 {
                assert(Expr::Mul(Box::new(Expr::Int(mn)), Box::new(fg)).simplified());
            }
        },
    }
}

/// Powers built by [`Expr::pow`] keep the structural invariant as long as
/// literal folding stays within `i64`.
pub proof fn lemma_pow_simplified(a: Expr, b: Expr)
    requires
        a.simplified(),
        b.simplified(),
        pow_folds(a, b),
    ensures
        pow_spec(a, b).simplified(),
{
}

/// Logarithms built by [`Expr::ln`] keep the structural invariant,
/// unconditionally.
pub proof fn lemma_ln_simplified(a: Expr)
    requires
        a.simplified(),
    ensures
        ln_spec(a).simplified(),
{
}

} // verus!
