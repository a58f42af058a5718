use symdiff::expr::Expr;

fn var(name: &str) -> Expr {
    Expr::Var(name.to_string())
}

fn lit(n: i64) -> Expr {
    Expr::Int(n)
}

fn raw_add(a: Expr, b: Expr) -> Expr {
    Expr::Add(Box::new(a), Box::new(b))
}

fn raw_mul(a: Expr, b: Expr) -> Expr {
    Expr::Mul(Box::new(a), Box::new(b))
}

fn raw_pow(a: Expr, b: Expr) -> Expr {
    Expr::Pow(Box::new(a), Box::new(b))
}

/// A right-leaning sum of `n` copies of the variable `x`: `n` leaves.
fn leaf_chain(n: usize) -> Expr {
    let mut e = var("x");
    for _ in 1..n {
        e = raw_add(var("x"), e);
    }
    e
}

#[test]
fn add_identity_left_and_right() {
    assert_eq!(lit(0).add(var("x")), var("x"));
    assert_eq!(var("x").add(lit(0)), var("x"));
    let e = raw_add(lit(2), var("x"));
    assert_eq!(lit(0).add(e.clone_expr()), e);
    assert_eq!(e.clone_expr().add(lit(0)), e);
}

#[test]
fn add_folds_leading_constants() {
    assert_eq!(lit(2).add(lit(3)), lit(5));
    assert_eq!(
        raw_add(lit(2), var("x")).add(raw_add(lit(3), var("y"))),
        raw_add(lit(5), raw_add(var("x"), var("y")))
    );
    assert_eq!(lit(3).add(var("x")), raw_add(lit(3), var("x")));
    assert_eq!(var("x").add(var("y")), raw_add(var("x"), var("y")));
}

#[test]
fn add_overflow_skips_folding() {
    assert_eq!(
        lit(i64::MAX).add(lit(1)),
        raw_add(lit(i64::MAX), lit(1))
    );
}

#[test]
fn mul_zero_absorbs() {
    assert_eq!(lit(0).mul(var("x")), lit(0));
    assert_eq!(var("x").mul(lit(0)), lit(0));
    assert_eq!(lit(0).mul(raw_pow(var("x"), var("y"))), lit(0));
}

#[test]
fn mul_identity_and_folding() {
    assert_eq!(lit(2).mul(lit(3)), lit(6));
    assert_eq!(lit(1).mul(var("x")), var("x"));
    assert_eq!(var("x").mul(lit(1)), var("x"));
    assert_eq!(
        raw_mul(lit(2), var("x")).mul(raw_mul(lit(3), var("y"))),
        raw_mul(lit(6), raw_mul(var("x"), var("y")))
    );
}

#[test]
fn mul_overflow_skips_folding() {
    assert_eq!(
        lit(i64::MAX).mul(lit(2)),
        raw_mul(lit(i64::MAX), lit(2))
    );
}

#[test]
fn pow_constant_folding() {
    assert_eq!(lit(2).pow(lit(10)), lit(1024));
    assert_eq!(lit(3).pow(lit(4)), lit(81));
    assert_eq!(lit(5).pow(lit(-1)), lit(5));
    assert_eq!(lit(2).pow(lit(62)), lit(4611686018427387904));
}

#[test]
fn pow_overflow_skips_folding() {
    assert_eq!(lit(2).pow(lit(64)), raw_pow(lit(2), lit(64)));
    assert_eq!(lit(10).pow(lit(-20)), raw_pow(lit(10), lit(-20)));
}

#[test]
fn pow_identities() {
    assert_eq!(var("x").pow(lit(0)), lit(1));
    assert_eq!(var("x").pow(lit(1)), var("x"));
    assert_eq!(lit(7).pow(lit(0)), lit(1));
    assert_eq!(lit(0).pow(lit(5)), lit(0));
    assert_eq!(lit(0).pow(var("y")), lit(0));
    assert_eq!(var("x").pow(var("y")), raw_pow(var("x"), var("y")));
}

#[test]
fn ln_identity() {
    assert_eq!(lit(1).ln(), lit(0));
    assert_eq!(var("x").ln(), Expr::Ln(Box::new(var("x"))));
}

#[test]
fn derivative_of_variable() {
    assert_eq!(var("x").d("x"), lit(1));
    assert_eq!(var("y").d("x"), lit(0));
    assert_eq!(lit(42).d("x"), lit(0));
}

#[test]
fn derivative_of_sum() {
    assert_eq!(raw_add(var("x"), var("y")).d("x"), lit(1));
    assert_eq!(raw_add(var("x"), var("x")).d("x"), lit(2));
}

#[test]
fn product_rule_scenario() {
    let p = raw_mul(var("x"), var("x"));
    let d = p.d("x");
    assert_eq!(d, raw_add(var("x"), var("x")));
    assert_eq!(d.render(), "x + x");
}

#[test]
fn power_rule_seed_scenario() {
    let seed = var("x").pow(var("x"));
    assert_eq!(seed, raw_pow(var("x"), var("x")));
    let d = seed.d("x");
    assert_eq!(d.render(), "x^x*(x*x^-1 + ln(x))");
}

#[test]
fn derivative_of_log() {
    let d = Expr::Ln(Box::new(var("x"))).d("x");
    assert_eq!(d, raw_pow(var("x"), lit(-1)));
    assert_eq!(d.render(), "x^-1");
}

#[test]
fn count_measures_leaves_and_skips_log() {
    assert_eq!(var("x").count(), 1);
    assert_eq!(lit(3).count(), 1);
    assert_eq!(raw_add(var("x"), var("y")).count(), 2);
    assert_eq!(Expr::Ln(Box::new(raw_add(var("x"), var("y")))).count(), 2);
    assert_eq!(raw_pow(var("x"), raw_mul(var("y"), var("z"))).count(), 3);
}

#[test]
fn truncation_at_one_hundred_and_one() {
    let big = leaf_chain(101);
    assert_eq!(big.count(), 101);
    assert_eq!(big.render(), "<<101>>");
}

#[test]
fn full_rendering_at_one_hundred() {
    let tree = leaf_chain(100);
    assert_eq!(tree.count(), 100);
    let mut expected = String::from("x");
    for _ in 1..100 {
        expected = format!("x + {}", expected);
    }
    assert_eq!(tree.render(), expected);
}

#[test]
fn rendering_precedence_and_literals() {
    assert_eq!(lit(-5).render(), "-5");
    assert_eq!(lit(i64::MIN).render(), "-9223372036854775808");
    assert_eq!(lit(0).render(), "0");
    assert_eq!(raw_mul(raw_add(var("x"), var("y")), var("z")).render(), "(x + y)*z");
    assert_eq!(raw_pow(raw_add(var("x"), var("y")), var("z")).render(), "(x + y)^z");
    assert_eq!(raw_pow(var("x"), raw_add(var("y"), var("z"))).render(), "x^(y + z)");
    assert_eq!(raw_mul(var("x"), raw_mul(var("y"), var("z"))).render(), "x*y*z");
    assert_eq!(raw_add(raw_add(var("x"), var("y")), var("z")).render(), "x + y + z");
}

#[test]
fn rendering_is_deterministic() {
    let seed = var("x").pow(var("x"));
    let d = seed.d("x");
    assert_eq!(d.render(), d.render());
    let big = leaf_chain(250);
    assert_eq!(big.render(), big.render());
}

#[test]
fn repeated_differentiation_completes() {
    let mut e = var("x").pow(var("x"));
    let expected_counts = [6usize, 22, 90, 412, 2088];
    for c in expected_counts {
        e = e.d("x");
        assert_eq!(e.count(), c);
    }
}
