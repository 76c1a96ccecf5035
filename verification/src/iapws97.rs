//! The IAPWS-97 property engine: region classification, the per-region
//! free-energy correlations, the saturation-curve solvers, and the query
//! dispatcher.
//!
//! Every executable function is pinned by a spec-level mirror of the same
//! computation over [`Fp`], so evaluation is provably deterministic: two
//! calls on equal queries return bit-identical records.

use vstd::prelude::*;
use crate::fp::{
    Fp, fp_add, fp_sub, fp_mul, fp_div, fp_lt, fp_le, fp_powi, fp_sqrt, fp_ln, fp_from_u64,
    fp_from_i64, fp_from_decimal, spec_fp_add, spec_fp_sub, spec_fp_mul, spec_fp_div, spec_fp_lt,
    spec_fp_le, spec_fp_powi, spec_fp_sqrt, spec_fp_ln, spec_from_u64, spec_from_i64,
    spec_from_decimal,
};
use crate::iapws97_constants::{
    IjnRegionPoint, JnRegionPoint, NRegionPoint, region_1_and_4, region_2_ideal,
    region_2_residual, region_3, region_5_ideal, region_5_residual, boundary_34, region_4,
    region_3_n1, spec_region_1_and_4, spec_region_2_ideal, spec_region_2_residual, spec_region_3,
    spec_region_5_ideal, spec_region_5_residual, spec_boundary_34, spec_region_4,
    spec_region_3_n1,
};
use crate::steam::{
    PtPoint, SteamNonCriticalPhaseRegion, SatQuery, SteamQuery, SteamQueryErr, OutOfRange,
};
use crate::thermo::{
    PhaseRegion, NonCriticalPhaseRegion, CompositePhaseRegion, LiquidVapor, PtvEntry,
};
use crate::root_finders::{ResidualFn, RootFinderErr, secant_method, spec_secant};

verus! {

// ----------------------------------------------------------------------
// Physical constants
// ----------------------------------------------------------------------

/// 647.096 K, the critical temperature of water.
pub open spec fn spec_critical_temperature() -> Fp {
    spec_from_decimal(false, 647096, -3)
}

pub fn critical_temperature() -> (r: Fp)
    ensures
        r == spec_critical_temperature(),
        r.wf(),
{
    fp_from_decimal(false, 647096, -3)
}

/// 22.06 MPa, the critical pressure of water.
pub open spec fn spec_critical_pressure() -> Fp {
    spec_from_decimal(false, 2206, 4)
}

pub fn critical_pressure() -> (r: Fp)
    ensures
        r == spec_critical_pressure(),
        r.wf(),
{
    fp_from_decimal(false, 2206, 4)
}

/// 461.526 J/(kg K), the specific gas constant of water.
pub open spec fn spec_gas_constant() -> Fp {
    spec_from_decimal(false, 461526, -3)
}

pub fn gas_constant() -> (r: Fp)
    ensures
        r == spec_gas_constant(),
        r.wf(),
{
    fp_from_decimal(false, 461526, -3)
}

/// The value of a bare decimal coefficient.
pub open spec fn spec_n_val(c: NRegionPoint) -> Fp {
    spec_from_decimal(c.neg, c.digits, c.e10 as int)
}

fn n_val(c: NRegionPoint) -> (r: Fp)
    ensures
        r == spec_n_val(c),
        r.wf(),
{
    fp_from_decimal(c.neg, c.digits, c.e10)
}

// ----------------------------------------------------------------------
// Saturation solver: closed-form correlations
// ----------------------------------------------------------------------

/// The saturation pressure in Pa at temperature `t` (K), from the
/// auxiliary quadratic correlation, solved in closed form.  Defined only
/// up to the critical temperature.
pub open spec fn spec_get_sat_pressure(t: Fp) -> Result<Fp, OutOfRange> {
    if spec_fp_lt(spec_critical_temperature(), t) {
        Result::Err(OutOfRange::AboveCriticalTemperature)
    } else {
        let n = spec_region_4();
        let theta = spec_fp_add(t, spec_fp_div(spec_n_val(n[8]), spec_fp_sub(t, spec_n_val(n[9]))));
        let a = spec_fp_add(
            spec_fp_add(spec_fp_powi(theta, 2), spec_fp_mul(spec_n_val(n[0]), theta)),
            spec_n_val(n[1]),
        );
        let b = spec_fp_add(
            spec_fp_add(
                spec_fp_mul(spec_n_val(n[2]), spec_fp_powi(theta, 2)),
                spec_fp_mul(spec_n_val(n[3]), theta),
            ),
            spec_n_val(n[4]),
        );
        let c = spec_fp_add(
            spec_fp_add(
                spec_fp_mul(spec_n_val(n[5]), spec_fp_powi(theta, 2)),
                spec_fp_mul(spec_n_val(n[6]), theta),
            ),
            spec_n_val(n[7]),
        );
        let disc = spec_fp_sub(
            spec_fp_powi(b, 2),
            spec_fp_mul(spec_fp_mul(spec_from_u64(4), a), c),
        );
        let denom = spec_fp_add(b.spec_negate(), spec_fp_sqrt(disc));
        Result::Ok(
            spec_fp_mul(
                spec_fp_powi(spec_fp_div(spec_fp_mul(spec_from_u64(2), c), denom), 4),
                spec_from_u64(1000000),
            ),
        )
    }
}

/// Saturation pressure at `t`; fails above the critical temperature.
#[verifier::rlimit(100)]
pub fn get_sat_pressure(t: Fp) -> (r: Result<Fp, OutOfRange>)
    requires
        t.wf(),
    ensures
        r == spec_get_sat_pressure(t),
        r matches Ok(p) ==> p.wf(),
{
    let crit_t = critical_temperature();
    if fp_lt(crit_t, t) {
        return Err(OutOfRange::AboveCriticalTemperature);
    }
    let n = region_4();
    let theta = fp_add(t, fp_div(n_val(n[8]), fp_sub(t, n_val(n[9]))));
    let a = fp_add(fp_add(fp_powi(theta, 2), fp_mul(n_val(n[0]), theta)), n_val(n[1]));
    let b = fp_add(
        fp_add(fp_mul(n_val(n[2]), fp_powi(theta, 2)), fp_mul(n_val(n[3]), theta)),
        n_val(n[4]),
    );
    let c = fp_add(
        fp_add(fp_mul(n_val(n[5]), fp_powi(theta, 2)), fp_mul(n_val(n[6]), theta)),
        n_val(n[7]),
    );
    let disc = fp_sub(fp_powi(b, 2), fp_mul(fp_mul(fp_from_u64(4), a), c));
    let denom = fp_add(b.negate(), fp_sqrt(disc));
    Ok(fp_mul(fp_powi(fp_div(fp_mul(fp_from_u64(2), c), denom), 4), fp_from_u64(1000000)))
}

/// The saturation temperature in K at pressure `p` (Pa), the closed-form
/// inverse of the same correlation in `beta = (p / 1 MPa)^(1/4)`.  Defined
/// only up to the critical pressure.
pub open spec fn spec_get_sat_temperature(p: Fp) -> Result<Fp, OutOfRange> {
    if spec_fp_lt(spec_critical_pressure(), p) {
        Result::Err(OutOfRange::AboveCriticalPressure)
    } else {
        let n = spec_region_4();
        let beta = spec_fp_sqrt(spec_fp_sqrt(spec_fp_div(p, spec_from_u64(1000000))));
        let e = spec_fp_add(
            spec_fp_add(spec_fp_powi(beta, 2), spec_fp_mul(spec_n_val(n[2]), beta)),
            spec_n_val(n[5]),
        );
        let f = spec_fp_add(
            spec_fp_add(
                spec_fp_mul(spec_n_val(n[0]), spec_fp_powi(beta, 2)),
                spec_fp_mul(spec_n_val(n[3]), beta),
            ),
            spec_n_val(n[6]),
        );
        let g = spec_fp_add(
            spec_fp_add(
                spec_fp_mul(spec_n_val(n[1]), spec_fp_powi(beta, 2)),
                spec_fp_mul(spec_n_val(n[4]), beta),
            ),
            spec_n_val(n[7]),
        );
        let disc = spec_fp_sub(
            spec_fp_powi(f, 2),
            spec_fp_mul(spec_fp_mul(spec_from_u64(4), e), g),
        );
        let d = spec_fp_div(
            spec_fp_mul(spec_from_u64(2), g),
            spec_fp_sub(f.spec_negate(), spec_fp_sqrt(disc)),
        );
        let n9d = spec_fp_add(spec_n_val(n[9]), d);
        let disc2 = spec_fp_sub(
            spec_fp_powi(n9d, 2),
            spec_fp_mul(
                spec_from_u64(4),
                spec_fp_add(spec_n_val(n[8]), spec_fp_mul(spec_n_val(n[9]), d)),
            ),
        );
        Result::Ok(spec_fp_div(spec_fp_sub(n9d, spec_fp_sqrt(disc2)), spec_from_u64(2)))
    }
}

/// Saturation temperature at `p`; fails above the critical pressure.
#[verifier::rlimit(100)]
pub fn get_sat_temperature(p: Fp) -> (r: Result<Fp, OutOfRange>)
    requires
        p.wf(),
    ensures
        r == spec_get_sat_temperature(p),
        r matches Ok(t) ==> t.wf(),
{
    let crit_p = critical_pressure();
    if fp_lt(crit_p, p) {
        return Err(OutOfRange::AboveCriticalPressure);
    }
    let n = region_4();
    let beta = fp_sqrt(fp_sqrt(fp_div(p, fp_from_u64(1000000))));
    let e = fp_add(fp_add(fp_powi(beta, 2), fp_mul(n_val(n[2]), beta)), n_val(n[5]));
    let f = fp_add(
        fp_add(fp_mul(n_val(n[0]), fp_powi(beta, 2)), fp_mul(n_val(n[3]), beta)),
        n_val(n[6]),
    );
    let g = fp_add(
        fp_add(fp_mul(n_val(n[1]), fp_powi(beta, 2)), fp_mul(n_val(n[4]), beta)),
        n_val(n[7]),
    );
    let disc = fp_sub(fp_powi(f, 2), fp_mul(fp_mul(fp_from_u64(4), e), g));
    let d = fp_div(fp_mul(fp_from_u64(2), g), fp_sub(f.negate(), fp_sqrt(disc)));
    let n9d = fp_add(n_val(n[9]), d);
    let disc2 = fp_sub(
        fp_powi(n9d, 2),
        fp_mul(fp_from_u64(4), fp_add(n_val(n[8]), fp_mul(n_val(n[9]), d))),
    );
    Ok(fp_div(fp_sub(n9d, fp_sqrt(disc2)), fp_from_u64(2)))
}

/// The pressure of the boundary between regions 3 and 2 at temperature `t`,
/// a three-coefficient polynomial.  Defined only from the critical
/// temperature up.
pub open spec fn spec_get_boundary_34_pressure(t: Fp) -> Result<Fp, OutOfRange> {
    if spec_fp_lt(t, spec_critical_temperature()) {
        Result::Err(OutOfRange::BelowCriticalTemperature)
    } else {
        let n = spec_boundary_34();
        Result::Ok(
            spec_fp_mul(
                spec_fp_add(
                    spec_fp_add(spec_n_val(n[0]), spec_fp_mul(spec_n_val(n[1]), t)),
                    spec_fp_mul(spec_n_val(n[2]), spec_fp_powi(t, 2)),
                ),
                spec_from_u64(1000000),
            ),
        )
    }
}

/// Boundary pressure between regions 3 and 2; fails below the critical
/// temperature.
#[verifier::rlimit(100)]
pub fn get_boundary_34_pressure(t: Fp) -> (r: Result<Fp, OutOfRange>)
    requires
        t.wf(),
    ensures
        r == spec_get_boundary_34_pressure(t),
        r matches Ok(p) ==> p.wf(),
{
    let crit_t = critical_temperature();
    if fp_lt(t, crit_t) {
        return Err(OutOfRange::BelowCriticalTemperature);
    }
    let n = boundary_34();
    Ok(
        fp_mul(
            fp_add(fp_add(n_val(n[0]), fp_mul(n_val(n[1]), t)), fp_mul(n_val(n[2]), fp_powi(t, 2))),
            fp_from_u64(1000000),
        ),
    )
}

// ----------------------------------------------------------------------
// Range check and query projections
// ----------------------------------------------------------------------

/// The pressure named by a query, if any.
pub open spec fn spec_extract_pressure(query: SteamQuery) -> Option<Fp> {
    match query {
        SteamQuery::Pt(p) => Some(p.pressure),
        SteamQuery::Sat(SatQuery::SatPQuery { pressure, .. }) => Some(pressure),
        SteamQuery::Sat(SatQuery::SatTQuery { .. }) => None,
        SteamQuery::EntropyP { pressure, .. } => Some(pressure),
        SteamQuery::EnthalpyP { pressure, .. } => Some(pressure),
    }
}

pub fn extract_pressure(query: &SteamQuery) -> (r: Option<Fp>)
    ensures
        r == spec_extract_pressure(*query),
{
    match query {
        SteamQuery::Pt(p) => Some(p.pressure),
        SteamQuery::Sat(SatQuery::SatPQuery { pressure, .. }) => Some(*pressure),
        SteamQuery::Sat(SatQuery::SatTQuery { .. }) => None,
        SteamQuery::EntropyP { pressure, .. } => Some(*pressure),
        SteamQuery::EnthalpyP { pressure, .. } => Some(*pressure),
    }
}

/// The temperature named by a query, if any.
pub open spec fn spec_extract_temperature(query: SteamQuery) -> Option<Fp> {
    match query {
        SteamQuery::Pt(p) => Some(p.temperature),
        SteamQuery::Sat(SatQuery::SatTQuery { temperature, .. }) => Some(temperature),
        _ => None,
    }
}

pub fn extract_temperature(query: &SteamQuery) -> (r: Option<Fp>)
    ensures
        r == spec_extract_temperature(*query),
{
    match query {
        SteamQuery::Pt(p) => Some(p.temperature),
        SteamQuery::Sat(SatQuery::SatTQuery { temperature, .. }) => Some(*temperature),
        _ => None,
    }
}

/// The admissible window: temperature in [273.15 K, 2273.15 K], tightened
/// to 1073.15 K when the pressure exceeds 50 MPa; pressure in [0, 100 MPa].
/// The checks run in this order and the first hit names the error.
pub open spec fn spec_check_if_out_of_range(query: SteamQuery) -> Result<(), OutOfRange> {
    let op = spec_extract_pressure(query);
    let ot = spec_extract_temperature(query);
    let t_lo = spec_from_decimal(false, 27315, -2);
    let t_hi = spec_from_decimal(false, 227315, -2);
    let t_mid = spec_from_decimal(false, 107315, -2);
    let p_50 = spec_from_u64(50000000);
    let p_hi = spec_from_u64(100000000);
    if ot matches Some(t) && spec_fp_lt(t, t_lo) {
        Result::Err(OutOfRange::TemperatureLow)
    } else if ot matches Some(t) && spec_fp_lt(t_hi, t) {
        Result::Err(OutOfRange::TemperatureHigh)
    } else if op matches Some(p) && ot matches Some(t) && spec_fp_lt(p_50, p) && spec_fp_lt(
        t_mid,
        t,
    ) {
        Result::Err(OutOfRange::TemperatureHigh)
    } else if op matches Some(p) && spec_fp_lt(p, Fp::spec_zero()) {
        Result::Err(OutOfRange::PressureLow)
    } else if op matches Some(p) && spec_fp_lt(p_hi, p) {
        Result::Err(OutOfRange::PressureHigh)
    } else {
        Result::Ok(())
    }
}

/// Validate a query against the admissible window before any evaluation.
pub fn check_if_out_of_range(query: &SteamQuery) -> (r: Result<(), OutOfRange>)
    requires
        query.wf(),
    ensures
        r == spec_check_if_out_of_range(*query),
{
    let op = extract_pressure(query);
    let ot = extract_temperature(query);
    let t_lo = fp_from_decimal(false, 27315, -2);
    let t_hi = fp_from_decimal(false, 227315, -2);
    let t_mid = fp_from_decimal(false, 107315, -2);
    let p_50 = fp_from_u64(50000000);
    let p_hi = fp_from_u64(100000000);
    if let Some(t) = ot {
        if fp_lt(t, t_lo) {
            return Err(OutOfRange::TemperatureLow);
        }
        if fp_lt(t_hi, t) {
            return Err(OutOfRange::TemperatureHigh);
        }
        if let Some(p) = op {
            if fp_lt(p_50, p) && fp_lt(t_mid, t) {
                return Err(OutOfRange::TemperatureHigh);
            }
        }
    }
    if let Some(p) = op {
        if fp_lt(p, Fp::zero()) {
            return Err(OutOfRange::PressureLow);
        }
        if fp_lt(p_hi, p) {
            return Err(OutOfRange::PressureHigh);
        }
    }
    Ok(())
}

// ----------------------------------------------------------------------
// Region classification
// ----------------------------------------------------------------------

/// Which evaluation branch a state point belongs to; used only to select
/// the correlation that runs.
#[derive(Clone, Copy, Debug, PartialEq, Eq, Structural)]
enum Iapws97Region {
    Region1,
    Region2,
    Region3,
    Region4,
    Region5,
}

/// Spec-level region tag: 1 through 5.
spec fn region_tag(r: Iapws97Region) -> int {
    match r {
        Iapws97Region::Region1 => 1,
        Iapws97Region::Region2 => 2,
        Iapws97Region::Region3 => 3,
        Iapws97Region::Region4 => 4,
        Iapws97Region::Region5 => 5,
    }
}

/// 1073.15 K: above this fixed threshold a point is region 5.
pub open spec fn spec_region5_threshold() -> Fp {
    spec_from_decimal(false, 107315, -2)
}

/// 873.15 K: above this fixed threshold (and at or below the region-5
/// threshold) a point is region 2.
pub open spec fn spec_region2_threshold() -> Fp {
    spec_from_decimal(false, 87315, -2)
}

/// The classification ladder, evaluated strictly in this order: the two
/// fixed temperature thresholds first, then the saturation-pressure
/// comparison, then the region-2/3 boundary.
pub open spec fn spec_region_of(p: Fp, t: Fp) -> Result<int, OutOfRange> {
    let t5 = spec_region5_threshold();
    let t2 = spec_region2_threshold();
    let satp = spec_get_sat_pressure(t);
    let bound = spec_get_boundary_34_pressure(t);
    if spec_fp_lt(t5, t) {
        Result::Ok(5)
    } else if spec_fp_lt(t2, t) {
        Result::Ok(2)
    } else {
        match satp {
            Result::Ok(sp) => if p == sp {
                Result::Ok(4)
            } else if spec_fp_lt(p, sp) {
                Result::Ok(2)
            } else {
                Result::Ok(1)
            },
            Result::Err(e) => match bound {
                Result::Ok(bp) => if spec_fp_lt(p, bp) {
                    Result::Ok(2)
                } else {
                    Result::Ok(3)
                },
                Result::Err(_) => Result::Err(e),
            },
        }
    }
}

fn get_region_from_pt_point(pt_point: &PtPoint) -> (r: Result<Iapws97Region, OutOfRange>)
    requires
        pt_point.wf(),
    ensures
        r matches Ok(reg) ==> spec_region_of(pt_point.pressure, pt_point.temperature)
            == Result::<int, OutOfRange>::Ok(region_tag(reg)),
        r matches Err(e) ==> spec_region_of(pt_point.pressure, pt_point.temperature)
            == Result::<int, OutOfRange>::Err(e),
{
    let t = pt_point.temperature;
    let p = pt_point.pressure;
    let t5 = fp_from_decimal(false, 107315, -2);
    let t2 = fp_from_decimal(false, 87315, -2);
    let satp = get_sat_pressure(t);
    let bound = get_boundary_34_pressure(t);
    if fp_lt(t5, t) {
        Ok(Iapws97Region::Region5)
    } else if fp_lt(t2, t) {
        Ok(Iapws97Region::Region2)
    } else if let Ok(sp) = satp {
        if p == sp {
            Ok(Iapws97Region::Region4)
        } else if fp_lt(p, sp) {
            Ok(Iapws97Region::Region2)
        } else {
            Ok(Iapws97Region::Region1)
        }
    } else if let Ok(bp) = bound {
        Ok(if fp_lt(p, bp) {
            Iapws97Region::Region2
        } else {
            Iapws97Region::Region3
        })
    } else {
        Err(OutOfRange::AboveCriticalTemperature)
    }
}

/// The classifier names one of the five regions whenever it succeeds.
pub proof fn lemma_region_range(p: Fp, t: Fp)
    ensures
        spec_region_of(p, t) matches Ok(r) ==> 1 <= r <= 5,
{
}

/// Classification depends only on which side of each boundary the point
/// lies: two points that agree on all four comparisons of the ladder are
/// classified identically, so the region is stable under any perturbation
/// that stays on the same side of every boundary.
pub proof fn lemma_region_classification_stable(p1: Fp, t1: Fp, p2: Fp, t2: Fp)
    requires
        spec_fp_lt(spec_region5_threshold(), t1) == spec_fp_lt(spec_region5_threshold(), t2),
        spec_fp_lt(spec_region2_threshold(), t1) == spec_fp_lt(spec_region2_threshold(), t2),
        spec_get_sat_pressure(t1) is Ok == spec_get_sat_pressure(t2) is Ok,
        spec_get_sat_pressure(t1) matches Ok(s1) ==> spec_get_sat_pressure(t2) matches Ok(s2)
            && (p1 == s1) == (p2 == s2) && spec_fp_lt(p1, s1) == spec_fp_lt(p2, s2),
        spec_get_boundary_34_pressure(t1) is Ok == spec_get_boundary_34_pressure(t2) is Ok,
        spec_get_boundary_34_pressure(t1) matches Ok(b1) ==> spec_get_boundary_34_pressure(t2)
            matches Ok(b2) && spec_fp_lt(p1, b1) == spec_fp_lt(p2, b2),
    ensures
        spec_region_of(p1, t1) == spec_region_of(p2, t2),
{
}

// ----------------------------------------------------------------------
// Free-energy series evaluation
// ----------------------------------------------------------------------

/// A dimensionless free energy and its partial derivatives.  For the
/// Gibbs regions the fields are gamma and its pi/tau derivatives; the
/// Helmholtz region reads them as phi and its delta/tau derivatives.
#[derive(Clone, Copy, Debug, PartialEq, Eq, Structural)]
pub struct FreeEnergyDerivs {
    pub gamma: Fp,
    pub gamma_pi: Fp,
    pub gamma_pi_pi: Fp,
    pub gamma_tau: Fp,
    pub gamma_tau_tau: Fp,
    pub gamma_pi_tau: Fp,
}

impl FreeEnergyDerivs {
    pub open spec fn wf(self) -> bool {
        self.gamma.wf() && self.gamma_pi.wf() && self.gamma_pi_pi.wf() && self.gamma_tau.wf()
            && self.gamma_tau_tau.wf() && self.gamma_pi_tau.wf()
    }

    pub open spec fn spec_all_zero() -> FreeEnergyDerivs {
        FreeEnergyDerivs {
            gamma: Fp::spec_zero(),
            gamma_pi: Fp::spec_zero(),
            gamma_pi_pi: Fp::spec_zero(),
            gamma_tau: Fp::spec_zero(),
            gamma_tau_tau: Fp::spec_zero(),
            gamma_pi_tau: Fp::spec_zero(),
        }
    }
}

/// One term of the shared residual/Helmholtz double series, added to the
/// running sums: the term is `n * x^i * y^j` and its derivatives.
pub open spec fn spec_series_step(
    s: FreeEnergyDerivs,
    x: Fp,
    y: Fp,
    cf: IjnRegionPoint,
) -> FreeEnergyDerivs {
    let nf = spec_from_decimal(cf.neg, cf.digits, cf.e10 as int);
    let ii = spec_from_i64(cf.i);
    let jj = spec_from_i64(cf.j);
    let xi = spec_fp_powi(x, cf.i as int);
    let xi1 = spec_fp_powi(x, cf.i - 1);
    let xi2 = spec_fp_powi(x, cf.i - 2);
    let yj = spec_fp_powi(y, cf.j as int);
    let yj1 = spec_fp_powi(y, cf.j - 1);
    let yj2 = spec_fp_powi(y, cf.j - 2);
    FreeEnergyDerivs {
        gamma: spec_fp_add(s.gamma, spec_fp_mul(spec_fp_mul(nf, xi), yj)),
        gamma_pi: spec_fp_add(s.gamma_pi, spec_fp_mul(spec_fp_mul(spec_fp_mul(nf, ii), xi1), yj)),
        gamma_pi_pi: spec_fp_add(
            s.gamma_pi_pi,
            spec_fp_mul(
                spec_fp_mul(
                    spec_fp_mul(spec_fp_mul(nf, ii), spec_from_i64((cf.i - 1) as i64)),
                    xi2,
                ),
                yj,
            ),
        ),
        gamma_tau: spec_fp_add(
            s.gamma_tau,
            spec_fp_mul(spec_fp_mul(spec_fp_mul(nf, xi), jj), yj1),
        ),
        gamma_tau_tau: spec_fp_add(
            s.gamma_tau_tau,
            spec_fp_mul(
                spec_fp_mul(
                    spec_fp_mul(spec_fp_mul(nf, xi), jj),
                    spec_from_i64((cf.j - 1) as i64),
                ),
                yj2,
            ),
        ),
        gamma_pi_tau: spec_fp_add(
            s.gamma_pi_tau,
            spec_fp_mul(spec_fp_mul(spec_fp_mul(spec_fp_mul(nf, ii), xi1), jj), yj1),
        ),
    }
}

/// The running sums after the first `k` terms of a double series.
pub open spec fn spec_series_sums(
    init: FreeEnergyDerivs,
    x: Fp,
    y: Fp,
    tbl: Seq<IjnRegionPoint>,
    k: nat,
) -> FreeEnergyDerivs
    decreases k,
{
    if k == 0 {
        init
    } else {
        spec_series_step(spec_series_sums(init, x, y, tbl, (k - 1) as nat), x, y, tbl[k - 1])
    }
}

/// Accumulate a whole double series over `tbl` starting from `init`.
fn series_sums(init: FreeEnergyDerivs, x: Fp, y: Fp, tbl: &Vec<IjnRegionPoint>) -> (r:
    FreeEnergyDerivs)
    requires
        init.wf(),
        x.wf(),
        y.wf(),
        forall|k: int|
            0 <= k < tbl@.len() ==> crate::iapws97_constants::ijn_bounded(#[trigger] tbl@[k]),
    ensures
        r == spec_series_sums(init, x, y, tbl@, tbl@.len()),
        r.wf(),
{
    let mut d = init;
    let mut idx: usize = 0;
    while idx < tbl.len()
        invariant
            init.wf(),
            x.wf(),
            y.wf(),
            d.wf(),
            0 <= idx <= tbl@.len(),
            forall|k: int|
                0 <= k < tbl@.len() ==> crate::iapws97_constants::ijn_bounded(#[trigger] tbl@[k]),
            d == spec_series_sums(init, x, y, tbl@, idx as nat),
        decreases tbl@.len() - idx,
    {
        let cf = tbl[idx];
        let nf = fp_from_decimal(cf.neg, cf.digits, cf.e10);
        let ii = fp_from_i64(cf.i);
        let jj = fp_from_i64(cf.j);
        let xi = fp_powi(x, cf.i);
        let xi1 = fp_powi(x, cf.i - 1);
        let xi2 = fp_powi(x, cf.i - 2);
        let yj = fp_powi(y, cf.j);
        let yj1 = fp_powi(y, cf.j - 1);
        let yj2 = fp_powi(y, cf.j - 2);
        d = FreeEnergyDerivs {
            gamma: fp_add(d.gamma, fp_mul(fp_mul(nf, xi), yj)),
            gamma_pi: fp_add(d.gamma_pi, fp_mul(fp_mul(fp_mul(nf, ii), xi1), yj)),
            gamma_pi_pi: fp_add(
                d.gamma_pi_pi,
                fp_mul(fp_mul(fp_mul(fp_mul(nf, ii), fp_from_i64(cf.i - 1)), xi2), yj),
            ),
            gamma_tau: fp_add(d.gamma_tau, fp_mul(fp_mul(fp_mul(nf, xi), jj), yj1)),
            gamma_tau_tau: fp_add(
                d.gamma_tau_tau,
                fp_mul(fp_mul(fp_mul(fp_mul(nf, xi), jj), fp_from_i64(cf.j - 1)), yj2),
            ),
            gamma_pi_tau: fp_add(
                d.gamma_pi_tau,
                fp_mul(fp_mul(fp_mul(fp_mul(nf, ii), xi1), jj), yj1),
            ),
        };
        idx = idx + 1;
    }
    d
}

/// One term of the Gibbs series for regions 1 and 4, in `b = 7.1 - pi`
/// and `c = tau - 1.222`; the pi-derivatives pick up sign flips from the
/// inner derivative of `b`.
pub open spec fn spec_gibbs_step(
    s: FreeEnergyDerivs,
    b: Fp,
    c: Fp,
    cf: IjnRegionPoint,
) -> FreeEnergyDerivs {
    let nf = spec_from_decimal(cf.neg, cf.digits, cf.e10 as int);
    let ii = spec_from_i64(cf.i);
    let jj = spec_from_i64(cf.j);
    let bi = spec_fp_powi(b, cf.i as int);
    let bi1 = spec_fp_powi(b, cf.i - 1);
    let bi2 = spec_fp_powi(b, cf.i - 2);
    let cj = spec_fp_powi(c, cf.j as int);
    let cj1 = spec_fp_powi(c, cf.j - 1);
    let cj2 = spec_fp_powi(c, cf.j - 2);
    FreeEnergyDerivs {
        gamma: spec_fp_add(s.gamma, spec_fp_mul(spec_fp_mul(nf, bi), cj)),
        gamma_pi: spec_fp_add(
            s.gamma_pi,
            spec_fp_mul(spec_fp_mul(spec_fp_mul(nf.spec_negate(), ii), bi1), cj),
        ),
        gamma_pi_pi: spec_fp_add(
            s.gamma_pi_pi,
            spec_fp_mul(
                spec_fp_mul(
                    spec_fp_mul(spec_fp_mul(nf, ii), spec_from_i64((cf.i - 1) as i64)),
                    bi2,
                ),
                cj,
            ),
        ),
        gamma_tau: spec_fp_add(
            s.gamma_tau,
            spec_fp_mul(spec_fp_mul(spec_fp_mul(nf, jj), bi), cj1),
        ),
        gamma_tau_tau: spec_fp_add(
            s.gamma_tau_tau,
            spec_fp_mul(
                spec_fp_mul(
                    spec_fp_mul(spec_fp_mul(nf, jj), spec_from_i64((cf.j - 1) as i64)),
                    bi,
                ),
                cj2,
            ),
        ),
        gamma_pi_tau: spec_fp_add(
            s.gamma_pi_tau,
            spec_fp_mul(spec_fp_mul(spec_fp_mul(spec_fp_mul(nf.spec_negate(), ii), jj), bi1), cj1),
        ),
    }
}

pub open spec fn spec_gibbs_sums(b: Fp, c: Fp, k: nat) -> FreeEnergyDerivs
    decreases k,
{
    if k == 0 {
        FreeEnergyDerivs::spec_all_zero()
    } else {
        spec_gibbs_step(spec_gibbs_sums(b, c, (k - 1) as nat), b, c, spec_region_1_and_4()[k - 1])
    }
}

/// One term of the ideal-gas series: `n * tau^j` and its tau-derivatives.
pub open spec fn spec_ideal_step(s: FreeEnergyDerivs, tau: Fp, cf: JnRegionPoint) -> FreeEnergyDerivs {
    let nf = spec_from_decimal(cf.neg, cf.digits, cf.e10 as int);
    let jj = spec_from_i64(cf.j);
    FreeEnergyDerivs {
        gamma: spec_fp_add(s.gamma, spec_fp_mul(nf, spec_fp_powi(tau, cf.j as int))),
        gamma_pi: s.gamma_pi,
        gamma_pi_pi: s.gamma_pi_pi,
        gamma_tau: spec_fp_add(
            s.gamma_tau,
            spec_fp_mul(spec_fp_mul(nf, jj), spec_fp_powi(tau, cf.j - 1)),
        ),
        gamma_tau_tau: spec_fp_add(
            s.gamma_tau_tau,
            spec_fp_mul(
                spec_fp_mul(spec_fp_mul(nf, jj), spec_from_i64((cf.j - 1) as i64)),
                spec_fp_powi(tau, cf.j - 2),
            ),
        ),
        gamma_pi_tau: s.gamma_pi_tau,
    }
}

pub open spec fn spec_ideal_sums(
    init: FreeEnergyDerivs,
    tau: Fp,
    tbl: Seq<JnRegionPoint>,
    k: nat,
) -> FreeEnergyDerivs
    decreases k,
{
    if k == 0 {
        init
    } else {
        spec_ideal_step(spec_ideal_sums(init, tau, tbl, (k - 1) as nat), tau, tbl[k - 1])
    }
}

fn ideal_sums(init: FreeEnergyDerivs, tau: Fp, tbl: &Vec<JnRegionPoint>) -> (r: FreeEnergyDerivs)
    requires
        init.wf(),
        tau.wf(),
        forall|k: int|
            0 <= k < tbl@.len() ==> crate::iapws97_constants::jn_bounded(#[trigger] tbl@[k]),
    ensures
        r == spec_ideal_sums(init, tau, tbl@, tbl@.len()),
        r.wf(),
{
    let mut d = init;
    let mut idx: usize = 0;
    while idx < tbl.len()
        invariant
            init.wf(),
            tau.wf(),
            d.wf(),
            0 <= idx <= tbl@.len(),
            forall|k: int|
                0 <= k < tbl@.len() ==> crate::iapws97_constants::jn_bounded(#[trigger] tbl@[k]),
            d == spec_ideal_sums(init, tau, tbl@, idx as nat),
        decreases tbl@.len() - idx,
    {
        let cf = tbl[idx];
        let nf = fp_from_decimal(cf.neg, cf.digits, cf.e10);
        let jj = fp_from_i64(cf.j);
        d = FreeEnergyDerivs {
            gamma: fp_add(d.gamma, fp_mul(nf, fp_powi(tau, cf.j))),
            gamma_pi: d.gamma_pi,
            gamma_pi_pi: d.gamma_pi_pi,
            gamma_tau: fp_add(d.gamma_tau, fp_mul(fp_mul(nf, jj), fp_powi(tau, cf.j - 1))),
            gamma_tau_tau: fp_add(
                d.gamma_tau_tau,
                fp_mul(fp_mul(fp_mul(nf, jj), fp_from_i64(cf.j - 1)), fp_powi(tau, cf.j - 2)),
            ),
            gamma_pi_tau: d.gamma_pi_tau,
        };
        idx = idx + 1;
    }
    d
}

// ----------------------------------------------------------------------
// From derivatives to physical properties
// ----------------------------------------------------------------------

/// The shared formula bank that turns a Gibbs derivative set into the
/// physical property record, scaled by the gas constant and temperature.
pub open spec fn spec_create_entry(
    point: PtPoint,
    pi: Fp,
    tau: Fp,
    d: FreeEnergyDerivs,
    phase: PhaseRegion,
) -> PtvEntry {
    let t = point.temperature;
    let p = point.pressure;
    let gr = spec_gas_constant();
    let internal_energy = spec_fp_mul(
        spec_fp_mul(gr, t),
        spec_fp_sub(spec_fp_mul(tau, d.gamma_tau), spec_fp_mul(pi, d.gamma_pi)),
    );
    let enthalpy = spec_fp_mul(spec_fp_mul(spec_fp_mul(gr, t), tau), d.gamma_tau);
    let entropy = spec_fp_mul(gr, spec_fp_sub(spec_fp_mul(tau, d.gamma_tau), d.gamma));
    let cv = spec_fp_mul(
        gr,
        spec_fp_add(
            spec_fp_mul(spec_fp_powi(tau.spec_negate(), 2), d.gamma_tau_tau).spec_negate(),
            spec_fp_div(
                spec_fp_powi(spec_fp_sub(d.gamma_pi, spec_fp_mul(tau, d.gamma_pi_tau)), 2),
                d.gamma_pi_pi,
            ),
        ),
    );
    let cp = spec_fp_mul(
        spec_fp_mul(gr.spec_negate(), spec_fp_powi(tau.spec_negate(), 2)),
        d.gamma_tau_tau,
    );
    let w2 = spec_fp_mul(
        spec_fp_mul(gr, t),
        spec_fp_div(
            spec_fp_powi(d.gamma_pi, 2),
            spec_fp_sub(
                spec_fp_div(
                    spec_fp_powi(spec_fp_sub(d.gamma_pi, spec_fp_mul(tau, d.gamma_pi_tau)), 2),
                    spec_fp_mul(spec_fp_powi(tau, 2), d.gamma_tau_tau),
                ),
                d.gamma_pi_pi,
            ),
        ),
    );
    let volume = spec_fp_div(spec_fp_mul(pi, spec_fp_mul(d.gamma_pi, spec_fp_mul(gr, t))), p);
    PtvEntry {
        temperature: t,
        pressure: p,
        phase_region: phase,
        internal_energy,
        enthalpy,
        entropy,
        cv,
        cp,
        speed_of_sound: spec_fp_sqrt(w2),
        specific_volume: volume,
    }
}

fn create_entry_from_region_point(
    point: &PtPoint,
    pi: Fp,
    tau: Fp,
    d: FreeEnergyDerivs,
    phase: PhaseRegion,
) -> (r: PtvEntry)
    requires
        point.wf(),
        pi.wf(),
        tau.wf(),
        d.wf(),
    ensures
        r == spec_create_entry(*point, pi, tau, d, phase),
        r.wf(),
{
    let t = point.temperature;
    let p = point.pressure;
    let gr = gas_constant();
    let internal_energy = fp_mul(
        fp_mul(gr, t),
        fp_sub(fp_mul(tau, d.gamma_tau), fp_mul(pi, d.gamma_pi)),
    );
    let enthalpy = fp_mul(fp_mul(fp_mul(gr, t), tau), d.gamma_tau);
    let entropy = fp_mul(gr, fp_sub(fp_mul(tau, d.gamma_tau), d.gamma));
    let cv = fp_mul(
        gr,
        fp_add(
            fp_mul(fp_powi(tau.negate(), 2), d.gamma_tau_tau).negate(),
            fp_div(fp_powi(fp_sub(d.gamma_pi, fp_mul(tau, d.gamma_pi_tau)), 2), d.gamma_pi_pi),
        ),
    );
    let cp = fp_mul(fp_mul(gr.negate(), fp_powi(tau.negate(), 2)), d.gamma_tau_tau);
    let w2 = fp_mul(
        fp_mul(gr, t),
        fp_div(
            fp_powi(d.gamma_pi, 2),
            fp_sub(
                fp_div(
                    fp_powi(fp_sub(d.gamma_pi, fp_mul(tau, d.gamma_pi_tau)), 2),
                    fp_mul(fp_powi(tau, 2), d.gamma_tau_tau),
                ),
                d.gamma_pi_pi,
            ),
        ),
    );
    let volume = fp_div(fp_mul(pi, fp_mul(d.gamma_pi, fp_mul(gr, t))), p);
    PtvEntry {
        temperature: t,
        pressure: p,
        phase_region: phase,
        internal_energy,
        enthalpy,
        entropy,
        cv,
        cp,
        speed_of_sound: fp_sqrt(w2),
        specific_volume: volume,
    }
}

// ----------------------------------------------------------------------
// Per-region evaluation
// ----------------------------------------------------------------------

/// Regions 1 and 4: the liquid-like Gibbs correlation with reduced
/// pressure `pi = p / 16.53 MPa` and reduced temperature `tau = 1386 / t`.
pub open spec fn spec_gibbs_method(point: PtPoint) -> PtvEntry {
    let pi = spec_fp_div(point.pressure, spec_from_decimal(false, 1653, 4));
    let tau = spec_fp_div(spec_from_u64(1386), point.temperature);
    let b = spec_fp_sub(spec_from_decimal(false, 71, -1), pi);
    let c = spec_fp_sub(tau, spec_from_decimal(false, 1222, -3));
    let d = spec_gibbs_sums(b, c, spec_region_1_and_4().len());
    spec_create_entry(
        point,
        pi,
        tau,
        d,
        PhaseRegion::NonCritical(NonCriticalPhaseRegion::Liquid),
    )
}

fn gibbs_method(point: &PtPoint) -> (r: PtvEntry)
    requires
        point.wf(),
    ensures
        r == spec_gibbs_method(*point),
        r.wf(),
{
    let pi = fp_div(point.pressure, fp_from_decimal(false, 1653, 4));
    let tau = fp_div(fp_from_u64(1386), point.temperature);
    let b = fp_sub(fp_from_decimal(false, 71, -1), pi);
    let c = fp_sub(tau, fp_from_decimal(false, 1222, -3));
    let tbl = region_1_and_4();
    let mut d = FreeEnergyDerivs {
        gamma: Fp::zero(),
        gamma_pi: Fp::zero(),
        gamma_pi_pi: Fp::zero(),
        gamma_tau: Fp::zero(),
        gamma_tau_tau: Fp::zero(),
        gamma_pi_tau: Fp::zero(),
    };
    let mut idx: usize = 0;
    while idx < tbl.len()
        invariant
            b.wf(),
            c.wf(),
            d.wf(),
            0 <= idx <= tbl@.len(),
            tbl@ == spec_region_1_and_4(),
            forall|k: int|
                0 <= k < tbl@.len() ==> crate::iapws97_constants::ijn_bounded(#[trigger] tbl@[k]),
            d == spec_gibbs_sums(b, c, idx as nat),
        decreases tbl@.len() - idx,
    {
        let cf = tbl[idx];
        let nf = fp_from_decimal(cf.neg, cf.digits, cf.e10);
        let ii = fp_from_i64(cf.i);
        let jj = fp_from_i64(cf.j);
        let bi = fp_powi(b, cf.i);
        let bi1 = fp_powi(b, cf.i - 1);
        let bi2 = fp_powi(b, cf.i - 2);
        let cj = fp_powi(c, cf.j);
        let cj1 = fp_powi(c, cf.j - 1);
        let cj2 = fp_powi(c, cf.j - 2);
        d = FreeEnergyDerivs {
            gamma: fp_add(d.gamma, fp_mul(fp_mul(nf, bi), cj)),
            gamma_pi: fp_add(d.gamma_pi, fp_mul(fp_mul(fp_mul(nf.negate(), ii), bi1), cj)),
            gamma_pi_pi: fp_add(
                d.gamma_pi_pi,
                fp_mul(fp_mul(fp_mul(fp_mul(nf, ii), fp_from_i64(cf.i - 1)), bi2), cj),
            ),
            gamma_tau: fp_add(d.gamma_tau, fp_mul(fp_mul(fp_mul(nf, jj), bi), cj1)),
            gamma_tau_tau: fp_add(
                d.gamma_tau_tau,
                fp_mul(fp_mul(fp_mul(fp_mul(nf, jj), fp_from_i64(cf.j - 1)), bi), cj2),
            ),
            gamma_pi_tau: fp_add(
                d.gamma_pi_tau,
                fp_mul(fp_mul(fp_mul(fp_mul(nf.negate(), ii), jj), bi1), cj1),
            ),
        };
        idx = idx + 1;
    }
    create_entry_from_region_point(
        point,
        pi,
        tau,
        d,
        PhaseRegion::NonCritical(NonCriticalPhaseRegion::Liquid),
    )
}

/// Regions 2 and 5: ideal-gas part plus residual part, with
/// `pi = p / 1 MPa`; the phase is reclassified against the critical point.
pub open spec fn spec_vapor_method(
    tau: Fp,
    tau_shift: Fp,
    point: PtPoint,
    ideal: Seq<JnRegionPoint>,
    residual: Seq<IjnRegionPoint>,
) -> PtvEntry {
    let pi = spec_fp_div(point.pressure, spec_from_u64(1000000));
    let start = FreeEnergyDerivs {
        gamma: spec_fp_ln(pi),
        gamma_pi: spec_fp_div(Fp::spec_one(), pi),
        gamma_pi_pi: spec_fp_div(Fp::spec_one(), spec_fp_powi(pi, 2)).spec_negate(),
        gamma_tau: Fp::spec_zero(),
        gamma_tau_tau: Fp::spec_zero(),
        gamma_pi_tau: Fp::spec_zero(),
    };
    let phase = if spec_fp_lt(spec_critical_temperature(), point.temperature) {
        if spec_fp_lt(spec_critical_pressure(), point.pressure) {
            PhaseRegion::SupercriticalFluid
        } else {
            PhaseRegion::Gas
        }
    } else {
        PhaseRegion::NonCritical(NonCriticalPhaseRegion::Vapor)
    };
    let after_ideal = spec_ideal_sums(start, tau, ideal, ideal.len());
    let ts = spec_fp_sub(tau, tau_shift);
    let d = spec_series_sums(after_ideal, pi, ts, residual, residual.len());
    spec_create_entry(point, pi, tau, d, phase)
}

fn vapor_method(
    tau: Fp,
    tau_shift: Fp,
    point: &PtPoint,
    ideal: &Vec<JnRegionPoint>,
    residual: &Vec<IjnRegionPoint>,
) -> (r: PtvEntry)
    requires
        tau.wf(),
        tau_shift.wf(),
        point.wf(),
        forall|k: int|
            0 <= k < ideal@.len() ==> crate::iapws97_constants::jn_bounded(#[trigger] ideal@[k]),
        forall|k: int|
            0 <= k < residual@.len() ==> crate::iapws97_constants::ijn_bounded(
                #[trigger] residual@[k],
            ),
    ensures
        r == spec_vapor_method(tau, tau_shift, *point, ideal@, residual@),
        r.wf(),
{
    let pi = fp_div(point.pressure, fp_from_u64(1000000));
    let start = FreeEnergyDerivs {
        gamma: fp_ln(pi),
        gamma_pi: fp_div(Fp::one(), pi),
        gamma_pi_pi: fp_div(Fp::one(), fp_powi(pi, 2)).negate(),
        gamma_tau: Fp::zero(),
        gamma_tau_tau: Fp::zero(),
        gamma_pi_tau: Fp::zero(),
    };
    let crit_t = critical_temperature();
    let crit_p = critical_pressure();
    let phase = if fp_lt(crit_t, point.temperature) {
        if fp_lt(crit_p, point.pressure) {
            PhaseRegion::SupercriticalFluid
        } else {
            PhaseRegion::Gas
        }
    } else {
        PhaseRegion::NonCritical(NonCriticalPhaseRegion::Vapor)
    };
    let after_ideal = ideal_sums(start, tau, ideal);
    let ts = fp_sub(tau, tau_shift);
    let d = series_sums(after_ideal, pi, ts, residual);
    create_entry_from_region_point(point, pi, tau, d, phase)
}

/// Region 3: the Helmholtz correlation, parameterized by specific volume.
/// The returned pressure is the one implied by the trial volume.
pub open spec fn spec_region3_by_specific_volume(point: PtPoint, volume: Fp) -> PtvEntry {
    let density = spec_fp_div(Fp::spec_one(), volume);
    let n1 = spec_n_val(spec_region_3_n1());
    let delta = spec_fp_div(density, spec_from_u64(322));
    let t = point.temperature;
    let tau = spec_fp_div(spec_critical_temperature(), t);
    let start = FreeEnergyDerivs {
        gamma: spec_fp_mul(n1, spec_fp_ln(delta)),
        gamma_pi: spec_fp_div(n1, delta),
        gamma_pi_pi: spec_fp_div(n1, spec_fp_powi(delta, 2)).spec_negate(),
        gamma_tau: Fp::spec_zero(),
        gamma_tau_tau: Fp::spec_zero(),
        gamma_pi_tau: Fp::spec_zero(),
    };
    let d = spec_series_sums(start, delta, tau, spec_region_3(), spec_region_3().len());
    let gr = spec_gas_constant();
    let rt = spec_fp_mul(gr, t);
    let pressure = spec_fp_mul(spec_fp_mul(spec_fp_mul(d.gamma_pi, delta), density), rt);
    let internal_energy = spec_fp_mul(spec_fp_mul(tau, d.gamma_tau), rt);
    let enthalpy = spec_fp_mul(
        spec_fp_add(spec_fp_mul(tau, d.gamma_tau), spec_fp_mul(delta, d.gamma_pi)),
        rt,
    );
    let entropy = spec_fp_mul(spec_fp_sub(spec_fp_mul(tau, d.gamma_tau), d.gamma), gr);
    let cv = spec_fp_mul(
        spec_fp_mul(spec_fp_powi(tau, 2), d.gamma_tau_tau).spec_negate(),
        gr,
    );
    let num = spec_fp_powi(
        spec_fp_sub(
            spec_fp_mul(delta, d.gamma_pi),
            spec_fp_mul(spec_fp_mul(delta, tau), d.gamma_pi_tau),
        ),
        2,
    );
    let den = spec_fp_add(
        spec_fp_mul(spec_fp_mul(spec_from_u64(2), delta), d.gamma_pi),
        spec_fp_mul(spec_fp_powi(delta, 2), d.gamma_pi_pi),
    );
    let cp = spec_fp_mul(
        spec_fp_add(
            spec_fp_mul(spec_fp_powi(tau, 2), d.gamma_tau_tau).spec_negate(),
            spec_fp_div(num, den),
        ),
        gr,
    );
    let w2 = spec_fp_mul(
        spec_fp_sub(
            den,
            spec_fp_div(num, spec_fp_mul(spec_fp_powi(tau, 2), d.gamma_tau_tau)),
        ),
        rt,
    );
    PtvEntry {
        temperature: t,
        pressure,
        phase_region: PhaseRegion::SupercriticalFluid,
        internal_energy,
        enthalpy,
        entropy,
        cv,
        cp,
        speed_of_sound: spec_fp_sqrt(w2),
        specific_volume: volume,
    }
}

fn region3_by_specific_volume(point: &PtPoint, volume: Fp) -> (r: PtvEntry)
    requires
        point.wf(),
        volume.wf(),
    ensures
        r == spec_region3_by_specific_volume(*point, volume),
        r.wf(),
{
    let density = fp_div(Fp::one(), volume);
    let n1 = n_val(region_3_n1());
    let delta = fp_div(density, fp_from_u64(322));
    let t = point.temperature;
    let crit_t = critical_temperature();
    let tau = fp_div(crit_t, t);
    let start = FreeEnergyDerivs {
        gamma: fp_mul(n1, fp_ln(delta)),
        gamma_pi: fp_div(n1, delta),
        gamma_pi_pi: fp_div(n1, fp_powi(delta, 2)).negate(),
        gamma_tau: Fp::zero(),
        gamma_tau_tau: Fp::zero(),
        gamma_pi_tau: Fp::zero(),
    };
    let tbl = region_3();
    let d = series_sums(start, delta, tau, &tbl);
    let gr = gas_constant();
    let rt = fp_mul(gr, t);
    let pressure = fp_mul(fp_mul(fp_mul(d.gamma_pi, delta), density), rt);
    let internal_energy = fp_mul(fp_mul(tau, d.gamma_tau), rt);
    let enthalpy = fp_mul(fp_add(fp_mul(tau, d.gamma_tau), fp_mul(delta, d.gamma_pi)), rt);
    let entropy = fp_mul(fp_sub(fp_mul(tau, d.gamma_tau), d.gamma), gr);
    let cv = fp_mul(fp_mul(fp_powi(tau, 2), d.gamma_tau_tau).negate(), gr);
    let num = fp_powi(
        fp_sub(fp_mul(delta, d.gamma_pi), fp_mul(fp_mul(delta, tau), d.gamma_pi_tau)),
        2,
    );
    let den = fp_add(
        fp_mul(fp_mul(fp_from_u64(2), delta), d.gamma_pi),
        fp_mul(fp_powi(delta, 2), d.gamma_pi_pi),
    );
    let cp = fp_mul(
        fp_add(fp_mul(fp_powi(tau, 2), d.gamma_tau_tau).negate(), fp_div(num, den)),
        gr,
    );
    let w2 = fp_mul(fp_sub(den, fp_div(num, fp_mul(fp_powi(tau, 2), d.gamma_tau_tau))), rt);
    PtvEntry {
        temperature: t,
        pressure,
        phase_region: PhaseRegion::SupercriticalFluid,
        internal_energy,
        enthalpy,
        entropy,
        cv,
        cp,
        speed_of_sound: fp_sqrt(w2),
        specific_volume: volume,
    }
}

// ----------------------------------------------------------------------
// Region 3: implicit volume search
// ----------------------------------------------------------------------

/// The residual driven by the root finder for region 3: the pressure
/// implied by a trial specific volume, minus the queried pressure.
#[derive(Clone, Copy, Debug, PartialEq, Eq, Structural)]
pub struct Region3VolumeResidual {
    pub point: PtPoint,
}

impl ResidualFn for Region3VolumeResidual {
    open spec fn inv(&self) -> bool {
        self.point.wf()
    }

    open spec fn res_spec(&self, x: Fp) -> Option<Fp> {
        Some(
            spec_fp_sub(
                spec_region3_by_specific_volume(self.point, x).pressure,
                self.point.pressure,
            ),
        )
    }

    fn eval(&self, x: Fp) -> (r: Option<Fp>) {
        let entry = region3_by_specific_volume(&self.point, x);
        Some(fp_sub(entry.pressure, self.point.pressure))
    }
}

/// Region 3: search the specific volume, starting from 1/500 m^3/kg, until
/// the implied pressure matches the query to within 1e-4.
pub open spec fn spec_region3_method(point: PtPoint) -> Result<PtvEntry, SteamQueryErr> {
    let f = Region3VolumeResidual { point };
    let x0 = spec_fp_div(Fp::spec_one(), spec_from_u64(500));
    let tol = spec_from_decimal(false, 1, -4);
    match spec_secant(&f, x0, tol) {
        Result::Ok(v) => Result::Ok(spec_region3_by_specific_volume(point, v)),
        Result::Err(e) => Result::Err(SteamQueryErr::FailedToConverge(e)),
    }
}

fn region3_method(point: &PtPoint) -> (r: Result<PtvEntry, SteamQueryErr>)
    requires
        point.wf(),
    ensures
        r == spec_region3_method(*point),
        r matches Ok(e) ==> e.wf(),
{
    let f = Region3VolumeResidual { point: *point };
    let x0 = fp_div(Fp::one(), fp_from_u64(500));
    let tol = fp_from_decimal(false, 1, -4);
    match secant_method(&f, x0, tol) {
        Ok(v) => Ok(region3_by_specific_volume(point, v)),
        Err(e) => Err(SteamQueryErr::FailedToConverge(e)),
    }
}

// ----------------------------------------------------------------------
// Dispatch helpers
// ----------------------------------------------------------------------

/// Evaluate a classified state point: regions 1 and 4 run the Gibbs
/// correlation, regions 2 and 5 the vapor correlation with their own
/// reduced-temperature reference (540 K and 1000 K), region 3 the
/// volume search.
pub open spec fn spec_entry_from_pt_point(point: PtPoint, region: int) -> Result<
    PtvEntry,
    SteamQueryErr,
> {
    if region == 1 || region == 4 {
        Result::Ok(spec_gibbs_method(point))
    } else if region == 2 {
        Result::Ok(
            spec_vapor_method(
                spec_fp_div(spec_from_u64(540), point.temperature),
                spec_from_decimal(false, 5, -1),
                point,
                spec_region_2_ideal(),
                spec_region_2_residual(),
            ),
        )
    } else if region == 5 {
        Result::Ok(
            spec_vapor_method(
                spec_fp_div(spec_from_u64(1000), point.temperature),
                Fp::spec_zero(),
                point,
                spec_region_5_ideal(),
                spec_region_5_residual(),
            ),
        )
    } else {
        spec_region3_method(point)
    }
}

fn get_entry_from_pt_point(point: &PtPoint, region: Iapws97Region) -> (r: Result<
    PtvEntry,
    SteamQueryErr,
>)
    requires
        point.wf(),
    ensures
        r == spec_entry_from_pt_point(*point, region_tag(region)),
        r matches Ok(e) ==> e.wf(),
{
    match region {
        Iapws97Region::Region1 | Iapws97Region::Region4 => Ok(gibbs_method(point)),
        Iapws97Region::Region2 => {
            let ideal = region_2_ideal();
            let residual = region_2_residual();
            Ok(
                vapor_method(
                    fp_div(fp_from_u64(540), point.temperature),
                    fp_from_decimal(false, 5, -1),
                    point,
                    &ideal,
                    &residual,
                ),
            )
        },
        Iapws97Region::Region5 => {
            let ideal = region_5_ideal();
            let residual = region_5_residual();
            Ok(
                vapor_method(
                    fp_div(fp_from_u64(1000), point.temperature),
                    Fp::zero(),
                    point,
                    &ideal,
                    &residual,
                ),
            )
        },
        Iapws97Region::Region3 => region3_method(point),
    }
}

/// Resolve a saturation query to the paired state point and the region
/// forced by the requested branch: liquid evaluates as region 1, vapor as
/// region 2.
pub open spec fn spec_region_from_sat_query(sat_query: SatQuery) -> Result<
    (PtPoint, int),
    OutOfRange,
> {
    let region: int = match sat_query {
        SatQuery::SatTQuery { phase_region, .. } => match phase_region {
            SteamNonCriticalPhaseRegion::Liquid => 1,
            SteamNonCriticalPhaseRegion::Vapor => 2,
        },
        SatQuery::SatPQuery { phase_region, .. } => match phase_region {
            SteamNonCriticalPhaseRegion::Liquid => 1,
            SteamNonCriticalPhaseRegion::Vapor => 2,
        },
    };
    match sat_query {
        SatQuery::SatTQuery { temperature, .. } => match spec_get_sat_pressure(temperature) {
            Result::Ok(p) => Result::Ok((PtPoint { pressure: p, temperature }, region)),
            Result::Err(e) => Result::Err(e),
        },
        SatQuery::SatPQuery { pressure, .. } => match spec_get_sat_temperature(pressure) {
            Result::Ok(t) => Result::Ok((PtPoint { pressure, temperature: t }, region)),
            Result::Err(e) => Result::Err(e),
        },
    }
}

fn get_region_from_sat_query(sat_query: &SatQuery) -> (r: Result<(PtPoint, Iapws97Region), OutOfRange>)
    requires
        sat_query.wf(),
    ensures
        r matches Ok(pr) ==> spec_region_from_sat_query(*sat_query) == Result::<
            (PtPoint, int),
            OutOfRange,
        >::Ok((pr.0, region_tag(pr.1))) && pr.0.wf() && (pr.1 == Iapws97Region::Region1 || pr.1
            == Iapws97Region::Region2),
        r matches Err(e) ==> spec_region_from_sat_query(*sat_query) == Result::<
            (PtPoint, int),
            OutOfRange,
        >::Err(e),
{
    let region = match sat_query {
        SatQuery::SatTQuery { phase_region, .. } | SatQuery::SatPQuery { phase_region, .. } => {
            match phase_region {
                SteamNonCriticalPhaseRegion::Liquid => Iapws97Region::Region1,
                SteamNonCriticalPhaseRegion::Vapor => Iapws97Region::Region2,
            }
        },
    };
    match sat_query {
        SatQuery::SatTQuery { temperature, .. } => {
            match get_sat_pressure(*temperature) {
                Ok(p) => Ok((PtPoint { pressure: p, temperature: *temperature }, region)),
                Err(e) => Err(e),
            }
        },
        SatQuery::SatPQuery { pressure, .. } => {
            match get_sat_temperature(*pressure) {
                Ok(t) => Ok((PtPoint { pressure: *pressure, temperature: t }, region)),
                Err(e) => Err(e),
            }
        },
    }
}

/// A pressure/temperature evaluation after the range check has passed:
/// classify, then run the region's correlation.
pub open spec fn spec_eval_pt_checked(point: PtPoint) -> Result<PtvEntry, SteamQueryErr> {
    match spec_region_of(point.pressure, point.temperature) {
        Result::Ok(region) => spec_entry_from_pt_point(point, region),
        Result::Err(e) => Result::Err(SteamQueryErr::OutOfRange(e)),
    }
}

fn eval_pt_checked(point: &PtPoint) -> (r: Result<PtvEntry, SteamQueryErr>)
    requires
        point.wf(),
    ensures
        r == spec_eval_pt_checked(*point),
        r matches Ok(e) ==> e.wf(),
{
    match get_region_from_pt_point(point) {
        Ok(region) => get_entry_from_pt_point(point, region),
        Err(e) => Err(SteamQueryErr::OutOfRange(e)),
    }
}

/// A full pressure/temperature query: range check, then evaluate.  The
/// inverse solvers call this for each trial temperature.
pub open spec fn spec_eval_pt_query(point: PtPoint) -> Result<PtvEntry, SteamQueryErr> {
    match spec_check_if_out_of_range(SteamQuery::Pt(point)) {
        Result::Ok(_) => spec_eval_pt_checked(point),
        Result::Err(e) => Result::Err(SteamQueryErr::OutOfRange(e)),
    }
}

fn eval_pt_query(point: &PtPoint) -> (r: Result<PtvEntry, SteamQueryErr>)
    requires
        point.wf(),
    ensures
        r == spec_eval_pt_query(*point),
        r matches Ok(e) ==> e.wf(),
{
    match check_if_out_of_range(&SteamQuery::Pt(*point)) {
        Ok(_) => eval_pt_checked(point),
        Err(e) => Err(SteamQueryErr::OutOfRange(e)),
    }
}

/// A saturation evaluation after the range check has passed.
pub open spec fn spec_eval_sat_checked(sat: SatQuery) -> Result<PtvEntry, SteamQueryErr> {
    match spec_region_from_sat_query(sat) {
        Result::Ok(pr) => spec_entry_from_pt_point(pr.0, pr.1),
        Result::Err(e) => Result::Err(SteamQueryErr::OutOfRange(e)),
    }
}

fn eval_sat_checked(sat: &SatQuery) -> (r: Result<PtvEntry, SteamQueryErr>)
    requires
        sat.wf(),
    ensures
        r == spec_eval_sat_checked(*sat),
        r matches Ok(e) ==> e.wf(),
{
    match get_region_from_sat_query(sat) {
        Ok(pr) => get_entry_from_pt_point(&pr.0, pr.1),
        Err(e) => Err(SteamQueryErr::OutOfRange(e)),
    }
}

/// A full saturation query: range check, then evaluate.  The two-phase
/// interpolator calls this for each side of the dome.
pub open spec fn spec_eval_sat_query(sat: SatQuery) -> Result<PtvEntry, SteamQueryErr> {
    match spec_check_if_out_of_range(SteamQuery::Sat(sat)) {
        Result::Ok(_) => spec_eval_sat_checked(sat),
        Result::Err(e) => Result::Err(SteamQueryErr::OutOfRange(e)),
    }
}

fn eval_sat_query(sat: &SatQuery) -> (r: Result<PtvEntry, SteamQueryErr>)
    requires
        sat.wf(),
    ensures
        r == spec_eval_sat_query(*sat),
        r matches Ok(e) ==> e.wf(),
{
    match check_if_out_of_range(&SteamQuery::Sat(*sat)) {
        Ok(_) => eval_sat_checked(sat),
        Err(e) => Err(SteamQueryErr::OutOfRange(e)),
    }
}

// ----------------------------------------------------------------------
// Two-phase interpolation and the inverse solvers
// ----------------------------------------------------------------------

/// Which property an inverse query targets.
#[derive(Clone, Copy, Debug, PartialEq, Eq, Structural)]
pub enum TargetProperty {
    Entropy,
    Enthalpy,
}

pub open spec fn spec_prop_of(e: PtvEntry, which: TargetProperty) -> Fp {
    match which {
        TargetProperty::Entropy => e.entropy,
        TargetProperty::Enthalpy => e.enthalpy,
    }
}

fn prop_of(e: &PtvEntry, which: TargetProperty) -> (r: Fp)
    ensures
        r == spec_prop_of(*e, which),
{
    match which {
        TargetProperty::Entropy => e.entropy,
        TargetProperty::Enthalpy => e.enthalpy,
    }
}

/// Blend the saturated-liquid and saturated-vapor records by the liquid
/// fraction: every scalar linearly, except specific volume, which is
/// blended harmonically because density, its reciprocal, is the
/// mass-additive quantity.  Fails if the two fractions do not add up to
/// exactly one.
pub open spec fn spec_interpolate_entry(liq: PtvEntry, vap: PtvEntry, liq_frac: Fp) -> Result<
    PtvEntry,
    SteamQueryErr,
> {
    let vap_frac = spec_fp_sub(Fp::spec_one(), liq_frac);
    if spec_fp_add(liq_frac, vap_frac) == Fp::spec_one() {
        let lv = LiquidVapor::spec_new_unchecked(liq_frac, vap_frac);
        Result::Ok(
            PtvEntry {
                temperature: spec_fp_add(
                    spec_fp_mul(liq.temperature, liq_frac),
                    spec_fp_mul(vap.temperature, vap_frac),
                ),
                pressure: spec_fp_add(
                    spec_fp_mul(liq.pressure, liq_frac),
                    spec_fp_mul(vap.pressure, vap_frac),
                ),
                phase_region: PhaseRegion::Composite(CompositePhaseRegion::LiquidVapor(lv)),
                internal_energy: spec_fp_add(
                    spec_fp_mul(liq.internal_energy, liq_frac),
                    spec_fp_mul(vap.internal_energy, vap_frac),
                ),
                enthalpy: spec_fp_add(
                    spec_fp_mul(liq.enthalpy, liq_frac),
                    spec_fp_mul(vap.enthalpy, vap_frac),
                ),
                entropy: spec_fp_add(
                    spec_fp_mul(liq.entropy, liq_frac),
                    spec_fp_mul(vap.entropy, vap_frac),
                ),
                cv: spec_fp_add(spec_fp_mul(liq.cv, liq_frac), spec_fp_mul(vap.cv, vap_frac)),
                cp: spec_fp_add(spec_fp_mul(liq.cp, liq_frac), spec_fp_mul(vap.cp, vap_frac)),
                speed_of_sound: spec_fp_add(
                    spec_fp_mul(liq.speed_of_sound, liq_frac),
                    spec_fp_mul(vap.speed_of_sound, vap_frac),
                ),
                specific_volume: spec_fp_div(
                    Fp::spec_one(),
                    spec_fp_add(
                        spec_fp_mul(spec_fp_div(Fp::spec_one(), liq.specific_volume), liq_frac),
                        spec_fp_mul(spec_fp_div(Fp::spec_one(), vap.specific_volume), vap_frac),
                    ),
                ),
            },
        )
    } else {
        Result::Err(
            SteamQueryErr::CompositePhaseRegionErr(
                crate::thermo::CompositePhaseRegionErr::FractionsDoNotAddUpToOne,
            ),
        )
    }
}

fn interpolate_entry(liq: &PtvEntry, vap: &PtvEntry, liq_frac: Fp) -> (r: Result<
    PtvEntry,
    SteamQueryErr,
>)
    requires
        liq.wf(),
        vap.wf(),
        liq_frac.wf(),
    ensures
        r == spec_interpolate_entry(*liq, *vap, liq_frac),
        r matches Ok(e) ==> e.wf(),
{
    let vap_frac = fp_sub(Fp::one(), liq_frac);
    match LiquidVapor::new(liq_frac, vap_frac) {
        Err(e) => Err(SteamQueryErr::CompositePhaseRegionErr(e)),
        Ok(lv) => Ok(
            PtvEntry {
                temperature: fp_add(
                    fp_mul(liq.temperature, liq_frac),
                    fp_mul(vap.temperature, vap_frac),
                ),
                pressure: fp_add(fp_mul(liq.pressure, liq_frac), fp_mul(vap.pressure, vap_frac)),
                phase_region: PhaseRegion::Composite(CompositePhaseRegion::LiquidVapor(lv)),
                internal_energy: fp_add(
                    fp_mul(liq.internal_energy, liq_frac),
                    fp_mul(vap.internal_energy, vap_frac),
                ),
                enthalpy: fp_add(
                    fp_mul(liq.enthalpy, liq_frac),
                    fp_mul(vap.enthalpy, vap_frac),
                ),
                entropy: fp_add(fp_mul(liq.entropy, liq_frac), fp_mul(vap.entropy, vap_frac)),
                cv: fp_add(fp_mul(liq.cv, liq_frac), fp_mul(vap.cv, vap_frac)),
                cp: fp_add(fp_mul(liq.cp, liq_frac), fp_mul(vap.cp, vap_frac)),
                speed_of_sound: fp_add(
                    fp_mul(liq.speed_of_sound, liq_frac),
                    fp_mul(vap.speed_of_sound, vap_frac),
                ),
                specific_volume: fp_div(
                    Fp::one(),
                    fp_add(
                        fp_mul(fp_div(Fp::one(), liq.specific_volume), liq_frac),
                        fp_mul(fp_div(Fp::one(), vap.specific_volume), vap_frac),
                    ),
                ),
            },
        ),
    }
}

/// The residual for an inverse query: the targeted property of the state
/// at `(pressure, x)` minus the target, or a failed evaluation.
#[derive(Clone, Copy, Debug, PartialEq, Eq, Structural)]
pub struct PropertyResidual {
    pub pressure: Fp,
    pub target: Fp,
    pub which: TargetProperty,
}

impl ResidualFn for PropertyResidual {
    open spec fn inv(&self) -> bool {
        self.pressure.wf() && self.target.wf()
    }

    open spec fn res_spec(&self, x: Fp) -> Option<Fp> {
        match spec_eval_pt_query(PtPoint { pressure: self.pressure, temperature: x }) {
            Result::Ok(e) => Some(spec_fp_sub(spec_prop_of(e, self.which), self.target)),
            Result::Err(_) => None,
        }
    }

    fn eval(&self, x: Fp) -> (r: Option<Fp>) {
        match eval_pt_query(&PtPoint { pressure: self.pressure, temperature: x }) {
            Ok(e) => Some(fp_sub(prop_of(&e, self.which), self.target)),
            Err(_) => None,
        }
    }
}

/// An inverse query at fixed pressure.  When the target lies inside the
/// saturated bracket the two-phase interpolator answers; otherwise the
/// root finder searches the temperature, seeded at 310 K with tolerance
/// 1e-5.
/// The fallback path of an inverse query: the root finder searches the
/// temperature, seeded at 310 K with tolerance 1e-5.
pub open spec fn spec_inverse_search(pressure: Fp, target: Fp, which: TargetProperty) -> Result<
    PtvEntry,
    SteamQueryErr,
> {
    let f = PropertyResidual { pressure, target, which };
    match spec_secant(&f, spec_from_u64(310), spec_from_decimal(false, 1, -5)) {
        Result::Err(e) => Result::Err(SteamQueryErr::FailedToConverge(e)),
        Result::Ok(t) => spec_eval_pt_query(PtPoint { pressure, temperature: t }),
    }
}

pub open spec fn spec_iterate_pt_entry_solution(
    pressure: Fp,
    target: Fp,
    which: TargetProperty,
) -> Result<PtvEntry, SteamQueryErr> {
    let liq = spec_eval_sat_query(
        SatQuery::SatPQuery { pressure, phase_region: SteamNonCriticalPhaseRegion::Liquid },
    );
    let vap = spec_eval_sat_query(
        SatQuery::SatPQuery { pressure, phase_region: SteamNonCriticalPhaseRegion::Vapor },
    );
    match (liq, vap) {
        (Result::Ok(le), Result::Ok(ve)) => {
            if spec_fp_le(spec_prop_of(le, which), target) && spec_fp_le(
                target,
                spec_prop_of(ve, which),
            ) {
                let liq_frac = spec_fp_div(
                    spec_fp_sub(spec_prop_of(ve, which), target),
                    spec_fp_sub(spec_prop_of(ve, which), spec_prop_of(le, which)),
                );
                spec_interpolate_entry(le, ve, liq_frac)
            } else {
                spec_inverse_search(pressure, target, which)
            }
        },
        _ => spec_inverse_search(pressure, target, which),
    }
}

fn iterate_pt_entry_solution(pressure: Fp, target: Fp, which: TargetProperty) -> (r: Result<
    PtvEntry,
    SteamQueryErr,
>)
    requires
        pressure.wf(),
        target.wf(),
    ensures
        r == spec_iterate_pt_entry_solution(pressure, target, which),
        r matches Ok(e) ==> e.wf(),
{
    let liq = eval_sat_query(
        &SatQuery::SatPQuery { pressure, phase_region: SteamNonCriticalPhaseRegion::Liquid },
    );
    let vap = eval_sat_query(
        &SatQuery::SatPQuery { pressure, phase_region: SteamNonCriticalPhaseRegion::Vapor },
    );
    let mut bracketed = false;
    if let (Ok(le), Ok(ve)) = (&liq, &vap) {
        if fp_le(prop_of(le, which), target) && fp_le(target, prop_of(ve, which)) {
            bracketed = true;
        }
    }
    if bracketed {
        if let (Ok(le), Ok(ve)) = (liq, vap) {
            let liq_frac = fp_div(
                fp_sub(prop_of(&ve, which), target),
                fp_sub(prop_of(&ve, which), prop_of(&le, which)),
            );
            interpolate_entry(&le, &ve, liq_frac)
        } else {
            proof {
                assert(false);
            }
            Err(SteamQueryErr::FailedToConverge(RootFinderErr::MaxIterationsReached))
        }
    } else {
        let f = PropertyResidual { pressure, target, which };
        match secant_method(&f, fp_from_u64(310), fp_from_decimal(false, 1, -5)) {
            Err(e) => Err(SteamQueryErr::FailedToConverge(e)),
            Ok(t) => eval_pt_query(&PtPoint { pressure, temperature: t }),
        }
    }
}

// ----------------------------------------------------------------------
// The dispatcher
// ----------------------------------------------------------------------

/// What [`get_steam_table_entry`] returns, exactly: range check first, then
/// the path picked by the query's shape.
pub open spec fn spec_get_steam_table_entry(query: SteamQuery) -> Result<PtvEntry, SteamQueryErr> {
    match spec_check_if_out_of_range(query) {
        Result::Err(e) => Result::Err(SteamQueryErr::OutOfRange(e)),
        Result::Ok(_) => match query {
            SteamQuery::Pt(point) => spec_eval_pt_checked(point),
            SteamQuery::Sat(sat) => spec_eval_sat_checked(sat),
            SteamQuery::EntropyP { entropy, pressure } => spec_iterate_pt_entry_solution(
                pressure,
                entropy,
                TargetProperty::Entropy,
            ),
            SteamQuery::EnthalpyP { enthalpy, pressure } => spec_iterate_pt_entry_solution(
                pressure,
                enthalpy,
                TargetProperty::Enthalpy,
            ),
        },
    }
}

/// Evaluate one steam-table query.  The result is pinned bit for bit by
/// [`spec_get_steam_table_entry`], so evaluation is deterministic: equal
/// queries give identical records.  In particular, a query outside the
/// admissible window fails with exactly the `OutOfRange` kind that
/// [`spec_check_if_out_of_range`] names.
pub fn get_steam_table_entry(query: SteamQuery) -> (r: Result<PtvEntry, SteamQueryErr>)
    requires
        query.wf(),
    ensures
        r == spec_get_steam_table_entry(query),
        r matches Ok(e) ==> e.wf(),
        spec_check_if_out_of_range(query) matches Err(e) ==> r == Result::<
            PtvEntry,
            SteamQueryErr,
        >::Err(SteamQueryErr::OutOfRange(e)),
{
    match check_if_out_of_range(&query) {
        Err(e) => Err(SteamQueryErr::OutOfRange(e)),
        Ok(_) => match query {
            SteamQuery::Pt(point) => eval_pt_checked(&point),
            SteamQuery::Sat(sat) => eval_sat_checked(&sat),
            SteamQuery::EntropyP { entropy, pressure } => iterate_pt_entry_solution(
                pressure,
                entropy,
                TargetProperty::Entropy,
            ),
            SteamQuery::EnthalpyP { enthalpy, pressure } => iterate_pt_entry_solution(
                pressure,
                enthalpy,
                TargetProperty::Enthalpy,
            ),
        },
    }
}

/// The saturation-pressure correlation succeeds exactly on temperatures
/// at or below the critical temperature.
pub proof fn lemma_sat_pressure_defined(t: Fp)
    ensures
        spec_get_sat_pressure(t) is Ok <==> !spec_fp_lt(spec_critical_temperature(), t),
        spec_get_sat_pressure(t) is Err <==> spec_get_sat_pressure(t) == Result::<
            Fp,
            OutOfRange,
        >::Err(OutOfRange::AboveCriticalTemperature) && spec_fp_lt(
            spec_critical_temperature(),
            t,
        ),
{
}

/// The saturation-temperature correlation succeeds exactly on pressures
/// at or below the critical pressure.
pub proof fn lemma_sat_temperature_defined(p: Fp)
    ensures
        spec_get_sat_temperature(p) is Ok <==> !spec_fp_lt(spec_critical_pressure(), p),
        spec_get_sat_temperature(p) is Err <==> spec_get_sat_temperature(p) == Result::<
            Fp,
            OutOfRange,
        >::Err(OutOfRange::AboveCriticalPressure) && spec_fp_lt(spec_critical_pressure(), p),
{
}

/// The region-2/3 boundary correlation succeeds exactly on temperatures
/// at or above the critical temperature.
pub proof fn lemma_boundary_34_defined(t: Fp)
    ensures
        spec_get_boundary_34_pressure(t) is Ok <==> !spec_fp_lt(t, spec_critical_temperature()),
        spec_get_boundary_34_pressure(t) is Err <==> spec_get_boundary_34_pressure(t) == Result::<
            Fp,
            OutOfRange,
        >::Err(OutOfRange::BelowCriticalTemperature) && spec_fp_lt(
            t,
            spec_critical_temperature(),
        ),
{
}

/// A liquid-branch saturation query that succeeds always reports the
/// liquid phase: the branch forces the Gibbs region, which tags its
/// records as liquid.
pub proof fn lemma_sat_liquid_phase(sat: SatQuery, e: PtvEntry)
    requires
        (sat matches SatQuery::SatPQuery {
            phase_region: SteamNonCriticalPhaseRegion::Liquid,
            ..
        }) || (sat matches SatQuery::SatTQuery {
            phase_region: SteamNonCriticalPhaseRegion::Liquid,
            ..
        }),
        spec_eval_sat_query(sat) == Result::<PtvEntry, SteamQueryErr>::Ok(e),
    ensures
        e.phase_region == PhaseRegion::NonCritical(NonCriticalPhaseRegion::Liquid),
{
}

/// An interpolated two-phase record always carries a liquid/vapor
/// composite phase whose fractions are the blend weights, and those
/// weights add up to exactly one.
pub proof fn lemma_interpolated_phase(liq: PtvEntry, vap: PtvEntry, lf: Fp, e: PtvEntry)
    requires
        spec_interpolate_entry(liq, vap, lf) == Result::<PtvEntry, SteamQueryErr>::Ok(e),
    ensures
        e.phase_region == PhaseRegion::Composite(
            CompositePhaseRegion::LiquidVapor(
                LiquidVapor::spec_new_unchecked(lf, spec_fp_sub(Fp::spec_one(), lf)),
            ),
        ),
        spec_fp_add(lf, spec_fp_sub(Fp::spec_one(), lf)) == Fp::spec_one(),
{
}

/// A record from the direct path (a classified state point, not the
/// two-phase interpolator) never carries a composite phase: only the
/// interpolator constructs composites.
pub proof fn lemma_direct_path_phase_is_pure(point: PtPoint, e: PtvEntry)
    requires
        spec_eval_pt_checked(point) == Result::<PtvEntry, SteamQueryErr>::Ok(e),
    ensures
        !(e.phase_region matches PhaseRegion::Composite(_)),
{
}

/// Evaluation is idempotent: both contracts of [`get_steam_table_entry`]
/// pin the result to the same spec-level record, so two evaluations of one
/// query return bit-identical results.
pub proof fn lemma_evaluation_deterministic(
    query: SteamQuery,
    r1: Result<PtvEntry, SteamQueryErr>,
    r2: Result<PtvEntry, SteamQueryErr>,
)
    requires
        r1 == spec_get_steam_table_entry(query),
        r2 == spec_get_steam_table_entry(query),
    ensures
        r1 == r2,
{
}

} // verus!
