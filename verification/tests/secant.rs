use steam_tables::fp::{fp_from_decimal, fp_from_u64, Fp};
use steam_tables::root_finders::{secant_method, ConstResidual, RootFinderErr};

#[test]
fn secant_should_rtn_err_if_negative_torr() {
    let f = ConstResidual { value: Fp::one() };
    let tol = fp_from_decimal(true, 1, -6);
    assert_eq!(
        RootFinderErr::ToleranceBelowZero,
        secant_method(&f, fp_from_u64(3), tol).unwrap_err()
    );
}

#[test]
fn secant_should_rtn_err_if_cannot_converge() {
    let f = ConstResidual { value: Fp::one() };
    let tol = fp_from_decimal(false, 1, -15);
    assert_eq!(
        RootFinderErr::MaxIterationsReached,
        secant_method(&f, fp_from_u64(3), tol).unwrap_err()
    );
}

#[test]
fn secant_accepts_an_immediate_root() {
    let f = ConstResidual { value: Fp::zero() };
    let tol = fp_from_decimal(false, 1, -15);
    let x = secant_method(&f, fp_from_u64(3), tol).unwrap();
    let (neg, _, _) = x.parts();
    assert!(!neg);
}
