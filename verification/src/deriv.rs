use vstd::prelude::*;

use crate::expr::Expr;
use crate::simplify::{add_spec, ln_spec, mul_spec, pow_spec};

verus! {

/// The symbolic derivative of `e` with respect to the variable named `x`,
/// built exclusively through the smart constructors so every intermediate
/// result is already simplified as far as they allow:
/// constants drop to `0`, a variable differentiates to `1` or `0` by name,
/// sums use the sum rule, products the product rule, powers the generalized
/// rule `d(f^g) = f^g * (g*f'*f^-1 + ln(f)*g')`, and logarithms the chain
/// rule `d(ln f) = f' * f^-1`.
pub open spec fn d_spec(e: Expr, x: Seq<char>) -> Expr
    decreases e,
{
    match e {
        Expr::Var(y) => if y@ == x {
            Expr::Int(1)
        } else {
            Expr::Int(0)
        },
        Expr::Int(_) => Expr::Int(0),
        Expr::Add(f, g) => add_spec(d_spec(*f, x), d_spec(*g, x)),
        Expr::Mul(f, g) => add_spec(
            mul_spec(*f, d_spec(*g, x)),
            mul_spec(*g, d_spec(*f, x)),
        ),
        Expr::Pow(f, g) => mul_spec(
            e,
            add_spec(
                mul_spec(mul_spec(*g, d_spec(*f, x)), pow_spec(*f, Expr::Int(-1i64))),
                mul_spec(ln_spec(*f), d_spec(*g, x)),
            ),
        ),
        Expr::Ln(f) => mul_spec(d_spec(*f, x), pow_spec(*f, Expr::Int(-1i64))),
    }
}

/// Whether two string slices hold the same characters.
fn str_eq(a: &str, b: &str) -> (r: bool)
    ensures
        r == (a@ == b@),
{
    let sa = a.to_owned();
    let sb = b.to_owned();
    sa.eq(&sb)
}

impl Expr {
    /// Differentiates `self` with respect to the variable named `x`,
    /// as [`d_spec`] states.  Shared subtrees are re-derived independently
    /// on every occurrence; no derivative is cached.
    pub fn d(&self, x: &str) -> (r: Expr)
        ensures
            r == d_spec(*self, x@),
        decreases *self,
    {
        match self {
            Expr::Var(y) => {
                if str_eq(y.as_str(), x) {
                    Expr::Int(1)
                } else {
                    Expr::Int(0)
                }
            },
            Expr::Int(_) => Expr::Int(0),
            Expr::Add(f, g) => f.d(x).add(g.d(x)),
            Expr::Mul(f, g) => f.clone_expr().mul(g.d(x)).add(g.clone_expr().mul(f.d(x))),
            Expr::Pow(f, g) => self.clone_expr().mul(
                g.clone_expr().mul(f.d(x)).mul(f.clone_expr().pow(Expr::Int(-1))).add(
                    f.clone_expr().ln().mul(g.d(x)),
                ),
            ),
            Expr::Ln(f) => f.d(x).mul(f.clone_expr().pow(Expr::Int(-1))),
        }
    }
}

} // verus!
