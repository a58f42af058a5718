use vstd::prelude::*;

use crate::expr::{saturated, Expr};
use vstd::string::StringExecFns;

verus! {

/// The decimal digit character for a value below ten.
pub open spec fn digit_char(d: nat) -> char {
    if d == 0 {
        '0'
    } else if d == 1 {
        '1'
    } else if d == 2 {
        '2'
    } else if d == 3 {
        '3'
    } else if d == 4 {
        '4'
    } else if d == 5 {
        '5'
    } else if d == 6 {
        '6'
    } else if d == 7 {
        '7'
    } else if d == 8 {
        '8'
    } else {
        '9'
    }
}

/// The decimal digits of a natural number, most significant first.
pub open spec fn dec_digits(n: nat) -> Seq<char>
    decreases n,
{
    if n < 10 {
        seq![digit_char(n)]
    } else {
        dec_digits(n / 10) + seq![digit_char(n % 10)]
    }
}

/// The decimal rendering of an integer, with a leading minus sign when
/// negative.
pub open spec fn int_digits(n: int) -> Seq<char> {
    if n < 0 {
        seq!['-'] + dec_digits((-n) as nat)
    } else {
        dec_digits(n as nat)
    }
}

/// Wraps `body` in parentheses exactly when the operator that produced it
/// binds more loosely than the surrounding context requires.
pub open spec fn bracketed(outer: int, inner: int, body: Seq<char>) -> Seq<char> {
    if inner < outer {
        seq!['('] + body + seq![')']
    } else {
        body
    }
}

/// The parenthesized infix text of `e` in a context of minimum precedence
/// `prec`: sums bind at level 1, products at 2, powers at 3 with the
/// exponent side rendered one level tighter, and `ln(..)` self-delimits.
pub open spec fn format_spec(e: Expr, prec: int) -> Seq<char>
    decreases e,
{
    match e {
        Expr::Var(name) => name@,
        Expr::Int(n) => int_digits(n as int),
        Expr::Add(g, h) => bracketed(
            prec,
            1,
            format_spec(*g, 1) + seq![' ', '+', ' '] + format_spec(*h, 1),
        ),
        Expr::Mul(g, h) => bracketed(
            prec,
            2,
            format_spec(*g, 2) + seq!['*'] + format_spec(*h, 2),
        ),
        Expr::Pow(g, h) => bracketed(
            prec,
            3,
            format_spec(*g, 2) + seq!['^'] + format_spec(*h, 3),
        ),
        Expr::Ln(g) => seq!['l', 'n', '('] + format_spec(*g, 1) + seq![')'],
    }
}

/// What [`Expr::render`] returns: the infix text of the tree, unless its
/// node count exceeds 100, in which case only the placeholder `<<N>>`
/// with the node count appears.
pub open spec fn render_spec(e: Expr) -> Seq<char> {
    let n = saturated(e.node_count());
    if n > 100 {
        seq!['<', '<'] + dec_digits(n as nat) + seq!['>', '>']
    } else {
        format_spec(e, 1)
    }
}

fn digit_str(d: u64) -> (s: &'static str)
    requires
        d < 10,
    ensures
        s@ == seq![digit_char(d as nat)],
{
    proof {
        reveal_strlit("0");
        reveal_strlit("1");
        reveal_strlit("2");
        reveal_strlit("3");
        reveal_strlit("4");
        reveal_strlit("5");
        reveal_strlit("6");
        reveal_strlit("7");
        reveal_strlit("8");
        reveal_strlit("9");
    }
    if d == 0 {
        "0"
    } else if d == 1 {
        "1"
    } else if d == 2 {
        "2"
    } else if d == 3 {
        "3"
    } else if d == 4 {
        "4"
    } else if d == 5 {
        "5"
    } else if d == 6 {
        "6"
    } else if d == 7 {
        "7"
    } else if d == 8 {
        "8"
    } else {
        "9"
    }
}

fn push_dec_digits(out: &mut String, n: u64)
    ensures
        final(out)@ == old(out)@ + dec_digits(n as nat),
    decreases n,
{
    if n < 10 {
        out.append(digit_str(n));
    } else {
        push_dec_digits(out, n / 10);
        out.append(digit_str(n % 10));
        proof {
            assert(out@ =~= old(out)@ + dec_digits(n as nat));
        }
    }
}

fn push_int(out: &mut String, n: i64)
    ensures
        final(out)@ == old(out)@ + int_digits(n as int),
{
    if n < 0 {
        proof {
            reveal_strlit("-");
        }
        out.append("-");
        let mag: u64 = if n == i64::MIN {
            9223372036854775808u64
        } else {
            (-n) as u64
        };
        push_dec_digits(out, mag);
        proof {
            assert(out@ =~= old(out)@ + int_digits(n as int));
        }
    } else {
        push_dec_digits(out, n as u64);
    }
}

impl Expr {
    fn format_into(&self, prec: usize, out: &mut String)
        ensures
            final(out)@ == old(out)@ + format_spec(*self, prec as int),
        decreases *self,
    {
        proof {
            reveal_strlit("(");
            reveal_strlit(")");
            reveal_strlit(" + ");
            reveal_strlit("*");
            reveal_strlit("^");
            reveal_strlit("ln(");
        }
        match self {
            Expr::Var(name) => {
                out.append(name.as_str());
            },
            Expr::Int(n) => {
                push_int(out, *n);
            },
            Expr::Add(g, h) => {
                if 1 < prec {
                    out.append("(");
                }
                g.format_into(1, out);
                out.append(" + ");
                h.format_into(1, out);
                if 1 < prec {
                    out.append(")");
                }
                proof {
                    assert(out@ =~= old(out)@ + format_spec(*self, prec as int));
                }
            },
            Expr::Mul(g, h) => {
                if 2 < prec {
                    out.append("(");
                }
                g.format_into(2, out);
                out.append("*");
                h.format_into(2, out);
                if 2 < prec {
                    out.append(")");
                }
                proof {
                    assert(out@ =~= old(out)@ + format_spec(*self, prec as int));
                }
            },
            Expr::Pow(g, h) => {
                if 3 < prec {
                    out.append("(");
                }
                g.format_into(2, out);
                out.append("^");
                h.format_into(3, out);
                if 3 < prec {
                    out.append(")");
                }
                proof {
                    assert(out@ =~= old(out)@ + format_spec(*self, prec as int));
                }
            },
            Expr::Ln(g) => {
                out.append("ln(");
                g.format_into(1, out);
                out.append(")");
                proof {
                    assert(out@ =~= old(out)@ + format_spec(*self, prec as int));
                }
            },
        }
    }

    /// Renders the tree as text, as [`render_spec`] states: full infix
    /// form up to 100 nodes, the `<<N>>` placeholder beyond that.
    pub fn render(&self) -> (s: String)
        ensures
            s@ == render_spec(*self),
    {
        let n = self.count();
        let mut s = String::new();
        if n > 100 {
            proof {
                reveal_strlit("<<");
                reveal_strlit(">>");
            }
            s.append("<<");
            push_dec_digits(&mut s, n as u64);
            s.append(">>");
            proof {
                assert(s@ =~= render_spec(*self));
            }
        } else {
            self.format_into(1, &mut s);
            proof {
                assert(s@ =~= render_spec(*self));
            }
        }
        s
    }
}

} // verus!
