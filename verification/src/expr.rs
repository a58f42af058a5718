use vstd::prelude::*;

verus! {

/// An arithmetic expression, represented as an immutable tree.
///
/// `Int` is an integer constant, `Var` a named symbolic leaf; `Add`, `Mul`
/// and `Pow` are binary operators and `Ln` is the natural logarithm.
/// Trees built through the smart constructors in [`crate::simplify`] satisfy
/// the structural invariant [`Expr::simplified`].
#[derive(Debug, PartialEq, Eq)]
pub enum Expr {
    Int(i64),
    Var(String),
    Add(Box<Expr>, Box<Expr>),
    Mul(Box<Expr>, Box<Expr>),
    Pow(Box<Expr>, Box<Expr>),
    Ln(Box<Expr>),
}

impl Expr {
    /// The size measure used by the renderer's cutoff: leaves count as one,
    /// binary nodes add their children's counts, and `Ln` passes its
    /// argument's count through unchanged.
    pub open spec fn node_count(self) -> nat
        decreases self,
    {
        match self {
            Expr::Int(_) => 1,
            Expr::Var(_) => 1,
            Expr::Add(f, g) => f.node_count() + g.node_count(),
            Expr::Mul(f, g) => f.node_count() + g.node_count(),
            Expr::Pow(f, g) => f.node_count() + g.node_count(),
            Expr::Ln(f) => f.node_count(),
        }
    }

    /// The structural invariant that the smart constructors maintain as long
    /// as constant folding stays within `i64` (see [`crate::laws`]):
    /// a sum never carries its identity `0` as a leading literal, a product
    /// never carries `0` or `1`, the right operand of a sum or product built
    /// here is never a bare literal (a leading literal is always folded to
    /// the left), a power never has exponent `0` or `1` nor base `0` nor two
    /// literal operands, and a logarithm never wraps `1`.
    pub open spec fn simplified(self) -> bool
        decreases self,
    {
        match self {
            Expr::Int(_) => true,
            Expr::Var(_) => true,
            Expr::Add(f, g) => {
                &&& f.simplified()
                &&& g.simplified()
                &&& !((*g) is Int)
                &&& ((*f) matches Expr::Int(m) ==> m != 0)
            },
            Expr::Mul(f, g) => {
                &&& f.simplified()
                &&& g.simplified()
                &&& !((*g) is Int)
                &&& ((*f) matches Expr::Int(m) ==> m != 0 && m != 1)
            },
            Expr::Pow(f, g) => {
                &&& f.simplified()
                &&& g.simplified()
                &&& !((*f) is Int && (*g) is Int)
                &&& *g != Expr::Int(0)
                &&& *g != Expr::Int(1)
                &&& *f != Expr::Int(0)
            },
            Expr::Ln(f) => f.simplified() && *f != Expr::Int(1),
        }
    }

    /// A deep copy: transformations share no structure with their inputs,
    /// so reusing a subtree means copying it.
    pub fn clone_expr(&self) -> (r: Expr)
        ensures
            r == *self,
        decreases *self,
    {
        match self {
            Expr::Int(n) => Expr::Int(*n),
            Expr::Var(name) => Expr::Var(name.clone()),
            Expr::Add(f, g) => Expr::Add(Box::new(f.clone_expr()), Box::new(g.clone_expr())),
            Expr::Mul(f, g) => Expr::Mul(Box::new(f.clone_expr()), Box::new(g.clone_expr())),
            Expr::Pow(f, g) => Expr::Pow(Box::new(f.clone_expr()), Box::new(g.clone_expr())),
            Expr::Ln(f) => Expr::Ln(Box::new(f.clone_expr())),
        }
    }

    /// The renderer's size measure, saturating at `usize::MAX` instead of
    /// overflowing on trees too large to matter for the cutoff.
    pub fn count(&self) -> (n: usize)
        ensures
            n == saturated(self.node_count()),
        decreases *self,
    {
        match self {
            Expr::Int(_) => 1,
            Expr::Var(_) => 1,
            Expr::Add(f, g) => saturating_add(f.count(), g.count()),
            Expr::Mul(f, g) => saturating_add(f.count(), g.count()),
            Expr::Pow(f, g) => saturating_add(f.count(), g.count()),
            Expr::Ln(f) => f.count(),
        }
    }
}

/// Clamps a mathematical count into the range of `usize`.
pub open spec fn saturated(n: nat) -> usize {
    if n <= usize::MAX {
        n as usize
    } else {
        usize::MAX
    }
}

fn saturating_add(a: usize, b: usize) -> (c: usize)
    ensures
        c == saturated((a + b) as nat),
{
    if a <= usize::MAX - b {
        a + b
    } else {
        usize::MAX
    }
}

} // verus!
