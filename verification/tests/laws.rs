use steam_tables::fp::{fp_add, fp_div, fp_from_decimal, fp_from_u64, fp_sub, Fp};
use steam_tables::iapws97::{
    get_boundary_34_pressure, get_sat_pressure, get_sat_temperature, get_steam_table_entry,
};
use steam_tables::steam::{
    OutOfRange, PtPoint, SatQuery, SteamNonCriticalPhaseRegion, SteamQuery,
};
use steam_tables::thermo::{
    CompositePhaseRegion, CompositePhaseRegionErr, LiquidVapor, NonCriticalPhaseRegion,
    PhaseRegion, SolidLiquid, SolidLiquidVapor, SolidVapor,
};

fn val(x: &Fp) -> f64 {
    let (neg, man, exp) = x.parts();
    let v = man as f64 * (2f64).powi(exp as i32);
    if neg {
        -v
    } else {
        v
    }
}

#[test]
fn saturation_pressure_temperature_round_trip() {
    for (digits, e10) in [(2u64, 5i64), (1, 6), (1, 7), (22, 6)] {
        let p = fp_from_decimal(false, digits, e10);
        let t = get_sat_temperature(p).unwrap();
        let p2 = get_sat_pressure(t).unwrap();
        let rel = (val(&p2) - val(&p)).abs() / val(&p);
        assert!(rel < 1e-4, "pressure round trip off by {}", rel);
    }
}

#[test]
fn saturation_temperature_pressure_round_trip() {
    for t_int in [280u64, 330, 400, 500, 600, 640] {
        let t = fp_from_u64(t_int);
        let p = get_sat_pressure(t).unwrap();
        let t2 = get_sat_temperature(p).unwrap();
        let rel = (val(&t2) - val(&t)).abs() / val(&t);
        assert!(rel < 1e-4, "temperature round trip off by {}", rel);
    }
}

#[test]
fn evaluation_is_idempotent() {
    let queries = [
        SteamQuery::Pt(PtPoint {
            pressure: fp_from_decimal(false, 4, 7),
            temperature: fp_from_decimal(false, 47315, -2),
        }),
        SteamQuery::Sat(SatQuery::SatPQuery {
            pressure: fp_from_decimal(false, 2, 5),
            phase_region: SteamNonCriticalPhaseRegion::Vapor,
        }),
        SteamQuery::EntropyP {
            entropy: fp_from_decimal(false, 66858, -1),
            pressure: fp_from_decimal(false, 1, 4),
        },
        SteamQuery::Pt(PtPoint {
            pressure: fp_from_decimal(false, 4, 7),
            temperature: fp_from_u64(273),
        }),
    ];
    for q in queries {
        let first = get_steam_table_entry(q);
        let second = get_steam_table_entry(q);
        assert_eq!(first, second, "two evaluations of {:?} differed", q);
    }
}

#[test]
fn composite_fractions_sum_to_one() {
    let q = SteamQuery::EntropyP {
        entropy: fp_from_decimal(false, 66858, -1),
        pressure: fp_from_decimal(false, 1, 4),
    };
    let e = get_steam_table_entry(q).unwrap();
    match &e.phase_region {
        PhaseRegion::Composite(CompositePhaseRegion::LiquidVapor(lv)) => {
            let sum = fp_add(lv.get_liquid_frac(), lv.get_vapor_frac());
            assert_eq!(sum, Fp::one());
            assert!((val(&sum) - 1.0).abs() <= 1e-9);
        }
        other => panic!("expected a liquid/vapor composite phase, got {:?}", other),
    }
}

#[test]
fn liquid_vapor_new_accepts_exact_fractions() {
    let l = fp_from_decimal(false, 3, -1);
    let v = fp_sub(Fp::one(), l);
    let lv = LiquidVapor::new(l, v).unwrap();
    assert_eq!(lv.get_liquid_frac(), l);
    assert_eq!(lv.get_vapor_frac(), v);
}

#[test]
fn liquid_vapor_new_rejects_bad_fractions() {
    let l = fp_from_decimal(false, 5, -1);
    let v = fp_from_decimal(false, 6, -1);
    assert_eq!(
        LiquidVapor::new(l, v).unwrap_err(),
        CompositePhaseRegionErr::FractionsDoNotAddUpToOne
    );
}

#[test]
fn other_composites_check_their_sums() {
    let half = fp_div(Fp::one(), fp_from_u64(2));
    let third = fp_div(Fp::one(), fp_from_u64(4));
    assert!(SolidLiquid::new(half, half).is_ok());
    assert!(SolidVapor::new(half, half).is_ok());
    assert!(SolidLiquidVapor::new(half, third, third).is_ok());
    assert_eq!(
        SolidLiquid::new(half, third).unwrap_err(),
        CompositePhaseRegionErr::FractionsDoNotAddUpToOne
    );
    assert_eq!(
        SolidVapor::new(half, third).unwrap_err(),
        CompositePhaseRegionErr::FractionsDoNotAddUpToOne
    );
    assert_eq!(
        SolidLiquidVapor::new(half, half, half).unwrap_err(),
        CompositePhaseRegionErr::FractionsDoNotAddUpToOne
    );
}

#[test]
fn classification_is_stable_away_from_boundaries() {
    // Points well inside the liquid region keep the same phase under
    // small perturbations of either coordinate.
    let entries = [
        (fp_from_decimal(false, 4, 7), fp_from_decimal(false, 47315, -2)),
        (fp_from_decimal(false, 40001, 3), fp_from_decimal(false, 47315, -2)),
        (fp_from_decimal(false, 4, 7), fp_from_decimal(false, 47325, -2)),
    ];
    for (p, t) in entries {
        let e = get_steam_table_entry(SteamQuery::Pt(PtPoint { pressure: p, temperature: t }))
            .unwrap();
        assert_eq!(
            e.phase_region,
            PhaseRegion::NonCritical(NonCriticalPhaseRegion::Liquid)
        );
    }
}

#[test]
fn sat_pressure_fails_above_critical_temperature() {
    let r = get_sat_pressure(fp_from_u64(700));
    assert_eq!(r.unwrap_err(), OutOfRange::AboveCriticalTemperature);
}

#[test]
fn sat_temperature_fails_above_critical_pressure() {
    let r = get_sat_temperature(fp_from_decimal(false, 23, 6));
    assert_eq!(r.unwrap_err(), OutOfRange::AboveCriticalPressure);
}

#[test]
fn boundary_pressure_fails_below_critical_temperature() {
    let r = get_boundary_34_pressure(fp_from_u64(600));
    assert_eq!(r.unwrap_err(), OutOfRange::BelowCriticalTemperature);
}

#[test]
fn boundary_pressure_above_critical_temperature() {
    let p = get_boundary_34_pressure(fp_from_u64(650)).unwrap();
    // 0.10192970039326e-2 * 650^2 - 1.1671859879975 * 650 + 348.05185628969,
    // scaled to Pa
    let expected = (348.05185628969 - 1.1671859879975 * 650.0
        + 0.0010192970039326 * 650.0 * 650.0) * 1e6;
    assert!((val(&p) - expected).abs() / expected < 1e-12);
}

#[test]
fn saturation_pressure_at_hundred_celsius() {
    // The boiling point at one atmosphere: about 101.4 kPa at 373.15 K.
    let p = get_sat_pressure(fp_from_decimal(false, 37315, -2)).unwrap();
    assert!((val(&p) - 101417.978).abs() < 1.0);
}
