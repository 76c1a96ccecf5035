use steam_tables::fp::{
    fp_add, fp_div, fp_from_decimal, fp_from_i64, fp_from_u64, fp_le, fp_ln, fp_lt, fp_mul,
    fp_powi, fp_sqrt, fp_sub, Fp,
};

fn val(x: &Fp) -> f64 {
    let (neg, man, exp) = x.parts();
    let v = man as f64 * (2f64).powi(exp as i32);
    if neg {
        -v
    } else {
        v
    }
}

#[test]
fn one_plus_one_is_two() {
    let two = fp_add(Fp::one(), Fp::one());
    assert_eq!(two, fp_from_u64(2));
}

#[test]
fn tenth_plus_nine_tenths_is_one() {
    let a = fp_from_decimal(false, 1, -1);
    let b = fp_from_decimal(false, 9, -1);
    assert_eq!(fp_add(a, b), Fp::one());
}

#[test]
fn subtraction_can_go_negative() {
    let r = fp_sub(fp_from_u64(3), fp_from_u64(5));
    assert_eq!(r, fp_from_i64(-2));
    assert!((val(&r) + 2.0).abs() < 1e-15);
}

#[test]
fn multiplication_is_exact_on_integers() {
    let r = fp_mul(fp_from_u64(3), fp_from_u64(2));
    assert_eq!(r, fp_from_u64(6));
    let s = fp_mul(fp_from_decimal(false, 15, -1), fp_from_u64(4));
    assert!((val(&s) - 6.0).abs() < 1e-15);
}

#[test]
fn division_reciprocates() {
    let r = fp_div(Fp::one(), fp_from_u64(8));
    assert!((val(&r) - 0.125).abs() < 1e-18);
    assert_eq!(fp_mul(r, fp_from_u64(8)), Fp::one());
}

#[test]
fn division_by_zero_saturates() {
    let r = fp_div(Fp::one(), Fp::zero());
    let (neg, man, _exp) = r.parts();
    assert!(!neg);
    assert_eq!(man, u64::MAX);
}

#[test]
fn powi_handles_negative_exponents() {
    let r = fp_powi(fp_from_u64(2), -3);
    assert_eq!(r, fp_div(Fp::one(), fp_from_u64(8)));
    assert!((val(&r) - 0.125).abs() < 1e-18);
    let s = fp_powi(fp_from_u64(10), 6);
    assert_eq!(s, fp_from_u64(1000000));
}

#[test]
fn sqrt_of_four_is_two() {
    assert_eq!(fp_sqrt(fp_from_u64(4)), fp_from_u64(2));
}

#[test]
fn sqrt_is_accurate() {
    let r = fp_sqrt(fp_from_u64(2));
    assert!((val(&r) - 2f64.sqrt()).abs() < 1e-15);
}

#[test]
fn sqrt_of_negative_is_zero() {
    assert_eq!(fp_sqrt(fp_from_i64(-4)), Fp::zero());
}

#[test]
fn ln_matches_reference() {
    let r = fp_ln(fp_from_u64(2));
    assert!((val(&r) - std::f64::consts::LN_2).abs() < 1e-15);
    let e = fp_from_decimal(false, 2718281828459045235, -18);
    assert!((val(&fp_ln(e)) - 1.0).abs() < 1e-15);
    let x = fp_from_decimal(false, 123456789, -4);
    assert!((val(&fp_ln(x)) - 12345.6789f64.ln()).abs() < 1e-12);
}

#[test]
fn comparisons_order_values() {
    let a = fp_from_i64(-3);
    let b = fp_from_decimal(false, 25, -1);
    assert!(fp_lt(a, b));
    assert!(!fp_lt(b, a));
    assert!(fp_le(b, b));
    assert!(fp_lt(Fp::zero(), b));
    assert!(fp_lt(a, Fp::zero()));
}

#[test]
fn from_decimal_round_trips_through_f64() {
    let x = fp_from_decimal(true, 6931471805599453094, -19);
    assert!((val(&x) + std::f64::consts::LN_2).abs() < 1e-16);
}
