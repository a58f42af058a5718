use vstd::prelude::*;

use crate::expr::Expr;
use vstd::arithmetic::power::{
    lemma0_pow, lemma1_pow, lemma_pow0, lemma_pow1, lemma_pow_adds, pow,
};
use vstd::math::abs;

verus! {

/// Whether a mathematical integer is representable as an `i64`.
pub open spec fn fits_i64(n: int) -> bool {
    i64::MIN <= n <= i64::MAX
}

/// Splits an operand of `add` into a leading constant and an optional
/// symbolic remainder: a bare literal is all constant, a sum whose left
/// child is a literal contributes that literal, and anything else
/// contributes the additive identity `0`.
pub open spec fn decompose_add_spec(e: Expr) -> (i64, Option<Expr>) {
    match e {
        Expr::Int(n) => (n, None),
        Expr::Add(f, g) => match *f {
            Expr::Int(n) => (n, Some(*g)),
            _ => (0, Some(e)),
        },
        _ => (0, Some(e)),
    }
}

/// The multiplicative counterpart of [`decompose_add_spec`], with
/// identity `1` in place of `0`.
pub open spec fn decompose_mul_spec(e: Expr) -> (i64, Option<Expr>) {
    match e {
        Expr::Int(n) => (n, None),
        Expr::Mul(f, g) => match *f {
            Expr::Int(n) => (n, Some(*g)),
            _ => (1, Some(e)),
        },
        _ => (1, Some(e)),
    }
}

/// Reattaches a folded leading constant to a symbolic remainder of a sum:
/// the identity `0` disappears, anything else becomes a leading literal.
pub open spec fn recombine_add_spec(mn: i64, fg: Expr) -> Expr {
    if mn == 0 {
        fg
    } else {
        Expr::Add(Box::new(Expr::Int(mn)), Box::new(fg))
    }
}

/// The multiplicative counterpart of [`recombine_add_spec`]: the identity
/// `1` disappears.
pub open spec fn recombine_mul_spec(mn: i64, fg: Expr) -> Expr {
    if mn == 1 {
        fg
    } else {
        Expr::Mul(Box::new(Expr::Int(mn)), Box::new(fg))
    }
}

/// What [`Expr::add`] returns: both operands are decomposed, the leading
/// constants are summed and the remainders joined left-associated.  When the
/// folded constant would leave `i64`, no folding happens and the plain sum
/// of the two operands is built instead.
pub open spec fn add_spec(a: Expr, b: Expr) -> Expr {
    let (m, fo) = decompose_add_spec(a);
    let (n, go) = decompose_add_spec(b);
    if !fits_i64(m + n) {
        Expr::Add(Box::new(a), Box::new(b))
    } else {
        let mn = (m + n) as i64;
        match (fo, go) {
            (None, None) => Expr::Int(mn),
            (Some(f), None) => recombine_add_spec(mn, f),
            (None, Some(g)) => recombine_add_spec(mn, g),
            (Some(f), Some(g)) => recombine_add_spec(
                mn,
                Expr::Add(Box::new(f), Box::new(g)),
            ),
        }
    }
}

/// What [`Expr::mul`] returns.  A folded constant of `0` absorbs the whole
/// product without looking at the remainders; as in [`add_spec`], a fold
/// that would leave `i64` is skipped and the plain product built instead.
pub open spec fn mul_spec(a: Expr, b: Expr) -> Expr {
    let (m, fo) = decompose_mul_spec(a);
    let (n, go) = decompose_mul_spec(b);
    if !fits_i64(m * n) {
        Expr::Mul(Box::new(a), Box::new(b))
    } else if m * n == 0 {
        Expr::Int(0)
    } else {
        let mn = (m * n) as i64;
        match (fo, go) {
            (None, None) => Expr::Int(mn),
            (Some(f), None) => recombine_mul_spec(mn, f),
            (None, Some(g)) => recombine_mul_spec(mn, g),
            (Some(f), Some(g)) => recombine_mul_spec(
                mn,
                Expr::Mul(Box::new(f), Box::new(g)),
            ),
        }
    }
}

/// Literal exponentiation folds a power of two literals to `base`
/// raised to the *magnitude* of the exponent; in particular an exponent of
/// `-1` (the reciprocal marker produced by differentiation) folds a literal
/// base to itself.  Reciprocals are otherwise purely symbolic.
pub open spec fn pown_spec(base: int, expt: int) -> int {
    pow(base, abs(expt))
}

/// What [`Expr::pow`] returns: two literals fold via [`pown_spec`] (unless
/// the result would leave `i64`, in which case the plain power is built),
/// exponent `0` gives `1`, exponent `1` gives the base unchanged, and a
/// base of literal `0` gives `0`.
pub open spec fn pow_spec(a: Expr, b: Expr) -> Expr {
    match (a, b) {
        (Expr::Int(m), Expr::Int(n)) => {
            if fits_i64(pown_spec(m as int, n as int)) {
                Expr::Int(pown_spec(m as int, n as int) as i64)
            } else {
                Expr::Pow(Box::new(a), Box::new(b))
            }
        },
        (_, Expr::Int(n)) => {
            if n == 0 {
                Expr::Int(1)
            } else if n == 1 {
                a
            } else {
                Expr::Pow(Box::new(a), Box::new(b))
            }
        },
        _ => {
            if a == Expr::Int(0) {
                Expr::Int(0)
            } else {
                Expr::Pow(Box::new(a), Box::new(b))
            }
        },
    }
}

/// What [`Expr::ln`] returns: the logarithm of literal `1` is `0`.
pub open spec fn ln_spec(a: Expr) -> Expr {
    if a == Expr::Int(1) {
        Expr::Int(0)
    } else {
        Expr::Ln(Box::new(a))
    }
}

fn decompose_add(e: &Expr) -> (r: (i64, Option<Expr>))
    ensures
        r == decompose_add_spec(*e),
{
    match e {
        Expr::Int(n) => (*n, None),
        Expr::Add(f, g) => match &**f {
            Expr::Int(n) => (*n, Some(g.clone_expr())),
            _ => (0i64, Some(e.clone_expr())),
        },
        _ => (0i64, Some(e.clone_expr())),
    }
}

fn decompose_mul(e: &Expr) -> (r: (i64, Option<Expr>))
    ensures
        r == decompose_mul_spec(*e),
{
    match e {
        Expr::Int(n) => (*n, None),
        Expr::Mul(f, g) => match &**f {
            Expr::Int(n) => (*n, Some(g.clone_expr())),
            _ => (1i64, Some(e.clone_expr())),
        },
        _ => (1i64, Some(e.clone_expr())),
    }
}

fn recombine_add(mn: i64, fg: Expr) -> (r: Expr)
    ensures
        r == recombine_add_spec(mn, fg),
{
    if mn == 0 {
        fg
    } else {
        Expr::Add(Box::new(Expr::Int(mn)), Box::new(fg))
    }
}

fn recombine_mul(mn: i64, fg: Expr) -> (r: Expr)
    ensures
        r == recombine_mul_spec(mn, fg),
{
    if mn == 1 {
        fg
    } else {
        Expr::Mul(Box::new(Expr::Int(mn)), Box::new(fg))
    }
}

/// The magnitude of a product is the product of the magnitudes.
proof fn lemma_abs_mul(x: int, y: int)
    ensures
        abs(x * y) == abs(x) * abs(y),
{
    if x >= 0 && y >= 0 {
        vstd::arithmetic::mul::lemma_mul_nonnegative(x, y);
    } else if x >= 0 {
        vstd::arithmetic::mul::lemma_mul_unary_negation(x, y);
        vstd::arithmetic::mul::lemma_mul_nonnegative(x, -y);
    } else if y >= 0 {
        vstd::arithmetic::mul::lemma_mul_unary_negation(x, y);
        vstd::arithmetic::mul::lemma_mul_nonnegative(-x, y);
    } else {
        vstd::arithmetic::mul::lemma_mul_cancels_negatives(x, y);
        vstd::arithmetic::mul::lemma_mul_nonnegative(-x, -y);
    }
}

/// `|pow(b, e)| == pow(|b|, e)`: the magnitude of a power is the power of
/// the magnitude.
proof fn lemma_pow_abs(b: int, e: nat)
    ensures
        abs(pow(b, e)) == pow(abs(b) as int, e),
    decreases e,
{
    reveal(pow);
    if e != 0 {
        lemma_pow_abs(b, (e - 1) as nat);
        lemma_abs_mul(b, pow(b, (e - 1) as nat));
    }
}

/// Once a power of `b` has left the range of `i64`, every higher power of
/// `b` stays out of it.
proof fn lemma_pow_overflow_grows(b: int, e1: nat, e2: nat)
    requires
        e1 <= e2,
        !fits_i64(pow(b, e1)),
    ensures
        !fits_i64(pow(b, e2)),
{
    lemma_pow_abs(b, e1);
    lemma_pow_abs(b, e2);
    lemma_pow0(b);
    let a = abs(b) as int;
    if a == 0 {
        if e1 > 0 {
            lemma0_pow(e1);
        }
    } else if a == 1 {
        lemma1_pow(e1);
    } else if e1 < e2 {
        lemma_pow_adds(a, e1, (e2 - e1) as nat);
        lemma_pow1(a);
        vstd::arithmetic::power::lemma_pow_increases(abs(b), 1, (e2 - e1) as nat);
        assert(pow(a, e1) * pow(a, (e2 - e1) as nat) >= pow(a, e1) * 2) by (nonlinear_arith)
            requires
                pow(a, e1) >= 0,
                pow(a, (e2 - e1) as nat) >= 2,
        ;
    }
}

/// Raises `base` to the exponent `e`, reporting `None` exactly when the
/// mathematical result does not fit in an `i64`.
fn pow_mag(base: i64, e: u64) -> (r: Option<i64>)
    ensures
        fits_i64(pow(base as int, e as nat)) ==> r == Some(pow(base as int, e as nat) as i64),
        !fits_i64(pow(base as int, e as nat)) ==> r is None,
    decreases e,
{
    if e == 0 {
        proof {
            lemma_pow0(base as int);
        }
        Some(1i64)
    } else if e == 1 {
        proof {
            lemma_pow1(base as int);
        }
        Some(base)
    } else {
        let h = e / 2;
        proof {
            lemma_pow_adds(base as int, h as nat, h as nat);
            lemma_pow_adds(base as int, (h + h) as nat, (e - h - h) as nat);
            lemma_pow0(base as int);
            lemma_pow1(base as int);
        }
        match pow_mag(base, h) {
            None => {
                proof {
                    lemma_pow_overflow_grows(base as int, h as nat, e as nat);
                }
                None
            },
            Some(p) => {
                match p.checked_mul(p) {
                    None => {
                        proof {
                            if e % 2 != 0 {
                                lemma_pow_overflow_grows(base as int, (h + h) as nat, e as nat);
                            }
                        }
                        None
                    },
                    Some(pp) => {
                        if e % 2 == 0 {
                            Some(pp)
                        } else {
                            match pp.checked_mul(base) {
                                None => None,
                                Some(v) => Some(v),
                            }
                        }
                    },
                }
            },
        }
    }
}

impl Expr {
    /// Smart constructor for sums: folds the leading constants of both
    /// operands and strips the additive identity, as [`add_spec`] states.
    pub fn add(self, other: Expr) -> (r: Expr)
        ensures
            r == add_spec(self, other),
    {
        let (m, fo) = decompose_add(&self);
        let (n, go) = decompose_add(&other);
        match m.checked_add(n) {
            None => Expr::Add(Box::new(self), Box::new(other)),
            Some(mn) => match (fo, go) {
                (None, None) => Expr::Int(mn),
                (Some(f), None) => recombine_add(mn, f),
                (None, Some(g)) => recombine_add(mn, g),
                (Some(f), Some(g)) => recombine_add(mn, Expr::Add(Box::new(f), Box::new(g))),
            },
        }
    }

    /// Smart constructor for products: folds the leading constants, strips
    /// the multiplicative identity and absorbs a zero factor without
    /// building the rest of the tree, as [`mul_spec`] states.
    pub fn mul(self, other: Expr) -> (r: Expr)
        ensures
            r == mul_spec(self, other),
    {
        let (m, fo) = decompose_mul(&self);
        let (n, go) = decompose_mul(&other);
        match m.checked_mul(n) {
            None => Expr::Mul(Box::new(self), Box::new(other)),
            Some(mn) => {
                if mn == 0 {
                    Expr::Int(0)
                } else {
                    match (fo, go) {
                        (None, None) => Expr::Int(mn),
                        (Some(f), None) => recombine_mul(mn, f),
                        (None, Some(g)) => recombine_mul(mn, g),
                        (Some(f), Some(g)) => recombine_mul(
                            mn,
                            Expr::Mul(Box::new(f), Box::new(g)),
                        ),
                    }
                }
            },
        }
    }

    /// Smart constructor for powers, as [`pow_spec`] states.
    pub fn pow(self, other: Expr) -> (r: Expr)
        ensures
            r == pow_spec(self, other),
    {
        match (self, other) {
            (Expr::Int(m), Expr::Int(n)) => {
                let mag: u64 = if n == i64::MIN {
                    9223372036854775808u64
                } else if n < 0 {
                    (-n) as u64
                } else {
                    n as u64
                };
                match pow_mag(m, mag) {
                    Some(v) => Expr::Int(v),
                    None => Expr::Pow(Box::new(Expr::Int(m)), Box::new(Expr::Int(n))),
                }
            },
            (_, Expr::Int(0)) => Expr::Int(1),
            (a, Expr::Int(1)) => a,
            (Expr::Int(0), _) => Expr::Int(0),
            (a, b) => Expr::Pow(Box::new(a), Box::new(b)),
        }
    }

    /// Smart constructor for natural logarithms, as [`ln_spec`] states.
    pub fn ln(self) -> (r: Expr)
        ensures
            r == ln_spec(self),
    {
        match self {
            Expr::Int(1) => Expr::Int(0),
            a => Expr::Ln(Box::new(a)),
        }
    }
}

} // verus!
