//! A generic scalar root finder: the secant method with a numerically
//! stabilized update step and a fixed iteration cap.

use vstd::prelude::*;
use crate::fp::{
    Fp, fp_add, fp_sub, fp_mul, fp_div, fp_lt, fp_le, fp_from_decimal, spec_fp_add, spec_fp_sub,
    spec_fp_mul, spec_fp_div, spec_fp_lt, spec_fp_le, spec_from_decimal,
};

verus! {

#[derive(Clone, Copy, Debug, PartialEq, Eq, Structural)]
pub enum RootFinderErr {
    /// The caller passed a negative tolerance.
    ToleranceBelowZero,
    /// The iteration cap was reached, or the residual failed to evaluate.
    MaxIterationsReached,
}

/// A residual function handed to the root finder.  `res_spec` pins the
/// value `eval` returns, so a search over any residual has an exact
/// contract.  `None` stands for an evaluation that failed.
pub trait ResidualFn: Sized {
    spec fn inv(&self) -> bool;

    spec fn res_spec(&self, x: Fp) -> Option<Fp>;

    fn eval(&self, x: Fp) -> (r: Option<Fp>)
        requires
            self.inv(),
            x.wf(),
        ensures
            r == self.res_spec(x),
            r matches Some(y) ==> y.wf(),
    ;
}

/// A residual that returns the same value everywhere.  A nonzero constant
/// can never satisfy `|f(x)| <= tol` for a small tolerance, which makes
/// this the simplest way to drive the finder to its iteration cap.
#[derive(Clone, Copy, Debug, PartialEq, Eq, Structural)]
pub struct ConstResidual {
    pub value: Fp,
}

impl ResidualFn for ConstResidual {
    open spec fn inv(&self) -> bool {
        self.value.wf()
    }

    open spec fn res_spec(&self, x: Fp) -> Option<Fp> {
        Some(self.value)
    }

    fn eval(&self, x: Fp) -> (r: Option<Fp>) {
        Some(self.value)
    }
}

/// One step of the stabilized secant update: the algebraic form is chosen
/// by which trial value has the larger magnitude, to avoid cancellation.
pub open spec fn spec_secant_step(x0: Fp, y0: Fp, x1: Fp, y1: Fp) -> Fp {
    if spec_fp_lt(y0.spec_abs_fp(), y1.spec_abs_fp()) {
        let q = spec_fp_div(y0, y1);
        spec_fp_div(
            spec_fp_add(spec_fp_mul(q.spec_negate(), x1), x0),
            spec_fp_sub(Fp::spec_one(), q),
        )
    } else {
        let q = spec_fp_div(y1, y0);
        spec_fp_div(
            spec_fp_add(spec_fp_mul(q.spec_negate(), x0), x1),
            spec_fp_sub(Fp::spec_one(), q),
        )
    }
}

/// The iteration: step, test `|y2| <= tol`, give up when `rem` runs out or
/// the residual fails.
pub open spec fn spec_solver<R: ResidualFn>(
    f: &R,
    x0: Fp,
    y0: Fp,
    x1: Fp,
    y1: Fp,
    rem: nat,
    tol: Fp,
) -> Result<Fp, RootFinderErr>
    decreases rem,
{
    let x2 = spec_secant_step(x0, y0, x1, y1);
    match f.res_spec(x2) {
        Option::None => Result::Err(RootFinderErr::MaxIterationsReached),
        Option::Some(y2) => if spec_fp_le(y2.spec_abs_fp(), tol) {
            Result::Ok(x2)
        } else if rem == 0 {
            Result::Err(RootFinderErr::MaxIterationsReached)
        } else {
            spec_solver(f, x1, y1, x2, y2, (rem - 1) as nat, tol)
        },
    }
}

/// The whole search: reject a negative tolerance, seed a second point by a
/// small relative-plus-absolute shift of `x0`, then iterate at most 52
/// times.
pub open spec fn spec_secant<R: ResidualFn>(f: &R, x0: Fp, tol: Fp) -> Result<Fp, RootFinderErr> {
    if spec_fp_lt(tol, Fp::spec_zero()) {
        Result::Err(RootFinderErr::ToleranceBelowZero)
    } else {
        let eps = spec_from_decimal(false, 1, -4);
        let shift = spec_fp_mul(x0, spec_fp_add(Fp::spec_one(), eps));
        let x1 = if spec_fp_le(Fp::spec_zero(), shift) {
            spec_fp_add(shift, eps)
        } else {
            spec_fp_sub(shift, eps)
        };
        match (f.res_spec(x0), f.res_spec(x1)) {
            (Option::Some(y0), Option::Some(y1)) => spec_solver(f, x0, y0, x1, y1, 51, tol),
            _ => Result::Err(RootFinderErr::MaxIterationsReached),
        }
    }
}

/// Secant-method root search for `f(x) == 0`, started at `x0`, converged
/// when `|f(x)| <= tol`.  The result is pinned exactly by [`spec_secant`];
/// in particular a negative tolerance gives `ToleranceBelowZero`, and no
/// run exceeds 52 residual steps.
pub fn secant_method<R: ResidualFn>(f: &R, x0: Fp, tol: Fp) -> (r: Result<Fp, RootFinderErr>)
    requires
        f.inv(),
        x0.wf(),
        tol.wf(),
    ensures
        r == spec_secant(f, x0, tol),
        r matches Ok(x) ==> x.wf(),
{
    if fp_lt(tol, Fp::zero()) {
        return Err(RootFinderErr::ToleranceBelowZero);
    }
    let eps = fp_from_decimal(false, 1, -4);
    let shift = fp_mul(x0, fp_add(Fp::one(), eps));
    let x1 = if fp_le(Fp::zero(), shift) {
        fp_add(shift, eps)
    } else {
        fp_sub(shift, eps)
    };
    let oy0 = f.eval(x0);
    let oy1 = f.eval(x1);
    let (y0first, y1first): (Fp, Fp) = match (oy0, oy1) {
        (Some(a), Some(b)) => (a, b),
        _ => {
            return Err(RootFinderErr::MaxIterationsReached);
        },
    };
    let mut cx0 = x0;
    let mut cy0 = y0first;
    let mut cx1 = x1;
    let mut cy1 = y1first;
    let mut rem: u64 = 51;
    loop
        invariant
            f.inv(),
            cx0.wf(),
            cy0.wf(),
            cx1.wf(),
            cy1.wf(),
            tol.wf(),
            rem <= 51,
            spec_solver(f, cx0, cy0, cx1, cy1, rem as nat, tol) == spec_secant(f, x0, tol),
        decreases rem,
    {
        let x2 = if fp_lt(cy0.abs(), cy1.abs()) {
            let q = fp_div(cy0, cy1);
            fp_div(fp_add(fp_mul(q.negate(), cx1), cx0), fp_sub(Fp::one(), q))
        } else {
            let q = fp_div(cy1, cy0);
            fp_div(fp_add(fp_mul(q.negate(), cx0), cx1), fp_sub(Fp::one(), q))
        };
        match f.eval(x2) {
            None => {
                return Err(RootFinderErr::MaxIterationsReached);
            },
            Some(y2) => {
                if fp_le(y2.abs(), tol) {
                    return Ok(x2);
                }
                if rem == 0 {
                    return Err(RootFinderErr::MaxIterationsReached);
                }
                cx0 = cx1;
                cy0 = cy1;
                cx1 = x2;
                cy1 = y2;
                rem = rem - 1;
            },
        }
    }
}

} // verus!
