use steam_tables::fp::{fp_from_decimal, fp_from_u64, Fp};
use steam_tables::iapws97::get_steam_table_entry;
use steam_tables::steam::{OutOfRange, PtPoint, SatQuery, SteamQuery, SteamQueryErr};
use steam_tables::thermo::{CompositePhaseRegion, NonCriticalPhaseRegion, PhaseRegion, PtvEntry};

fn val(x: &Fp) -> f64 {
    let (neg, man, exp) = x.parts();
    let v = man as f64 * (2f64).powi(exp as i32);
    if neg {
        -v
    } else {
        v
    }
}

fn fpd(neg: bool, digits: u64, e10: i64) -> Fp {
    fp_from_decimal(neg, digits, e10)
}

fn assert_close(name: &str, actual: f64, expected: f64, tol: f64) {
    assert!(
        (actual - expected).abs() <= tol,
        "{} was {} but {} was expected (tolerance {})",
        name,
        actual,
        expected,
        tol
    );
}

#[allow(clippy::too_many_arguments)]
fn check_entry(e: &PtvEntry, t: f64, p: f64, ie: f64, h: f64, s: f64, cv: f64, cp: f64, w: f64, v: f64) {
    assert_close("temperature", val(&e.temperature), t, 1.0);
    assert_close("pressure", val(&e.pressure), p, 10.0);
    assert_close("internal_energy", val(&e.internal_energy), ie, 1.0);
    assert_close("enthalpy", val(&e.enthalpy), h, 150.0);
    assert_close("entropy", val(&e.entropy), s, 150.0);
    assert_close("cv", val(&e.cv), cv, 1e-2);
    assert_close("cp", val(&e.cp), cp, 1e-2);
    assert_close("speed_of_sound", val(&e.speed_of_sound), w, 1e-2);
    assert_close("specific_volume", val(&e.specific_volume), v, 1e-2);
}

fn check_liquid_vapor(e: &PtvEntry, liquid: f64, vapor: f64) {
    match &e.phase_region {
        PhaseRegion::Composite(CompositePhaseRegion::LiquidVapor(lv)) => {
            assert_close("liquid_frac", val(&lv.get_liquid_frac()), liquid, 1e-3);
            assert_close("vapor_frac", val(&lv.get_vapor_frac()), vapor, 1e-3);
        }
        other => panic!("expected a liquid/vapor composite phase, got {:?}", other),
    }
}

#[test]
fn it_works() {
    let result = 2 + 2;
    assert_eq!(result, 4);
}

#[test]
fn steam_table_01() {
    let query = SteamQuery::Pt(PtPoint { pressure: fpd(false, 78309563916917, -6), temperature: fp_from_u64(750) });
    let e = get_steam_table_entry(query).unwrap();
    assert_eq!(e.phase_region, PhaseRegion::SupercriticalFluid);
    check_entry(&e, 750.0, 78.309563916917e6, 2102069.317626429, 2258688.445460262, 4469.719056217, 2717.01677121, 6341.653594791, 760.696040876798, 1.0 / 500.0);
}

#[test]
fn steam_table_02() {
    let query = SteamQuery::Pt(PtPoint { pressure: fpd(false, 4, 7), temperature: fpd(false, 47315, -2) });
    let e = get_steam_table_entry(query).unwrap();
    assert_eq!(e.phase_region, PhaseRegion::NonCritical(NonCriticalPhaseRegion::Liquid));
    check_entry(&e, 473.15, 40e6, 825228.016170348, 870124.259682489, 2275.752861241, 3292.858637199, 4315.767590903, 1457.418351596083, 0.001122406088);
}

#[test]
fn steam_table_03() {
    let query = SteamQuery::Pt(PtPoint { pressure: fpd(false, 3, 7), temperature: fp_from_u64(2000) });
    let e = get_steam_table_entry(query).unwrap();
    assert_eq!(e.phase_region, PhaseRegion::SupercriticalFluid);
    check_entry(&e, 2000.0, 30e6, 5637070.382521894, 6571226.038618478, 8536.405231138, 2395.894362358, 2885.698818781, 1067.369478777425, 0.03113852187);
}

#[test]
fn steam_table_04() {
    let query = SteamQuery::Pt(PtPoint { pressure: fpd(false, 14, 6), temperature: fpd(false, 82315, -2) });
    let e = get_steam_table_entry(query).unwrap();
    assert_eq!(e.phase_region, PhaseRegion::Gas);
    check_entry(&e, 823.15, 14e6, 3114302.136294585, 3460987.255128561, 6564.768889364, 1892.708832325, 2666.558503968, 666.050616844223, 0.024763222774);
}

#[test]
fn steam_table_05() {
    let query = SteamQuery::Sat(SatQuery::SatPQuery { pressure: fpd(false, 2, 5), phase_region: steam_tables::steam::SteamNonCriticalPhaseRegion::Liquid });
    let e = get_steam_table_entry(query).unwrap();
    assert_eq!(e.phase_region, PhaseRegion::NonCritical(NonCriticalPhaseRegion::Liquid));
    check_entry(&e, 393.361545936488, 0.2e6, 504471.741847973, 504683.84552926, 1530.0982011075, 3666.99397284121, 4246.73524917536, 1520.69128792808, 0.00106051840643552);
}

#[test]
fn steam_table_06() {
    let query = SteamQuery::Sat(SatQuery::SatPQuery { pressure: fpd(false, 2, 5), phase_region: steam_tables::steam::SteamNonCriticalPhaseRegion::Vapor });
    let e = get_steam_table_entry(query).unwrap();
    assert_eq!(e.phase_region, PhaseRegion::NonCritical(NonCriticalPhaseRegion::Vapor));
    check_entry(&e, 393.361545936488, 0.2e6, 2529094.32835793, 2706241.34137425, 7126.8563914686, 1615.96336473298, 2175.22318865273, 481.883535821489, 0.885735065081644);
}

#[test]
fn steam_table_07() {
    let query = SteamQuery::Sat(SatQuery::SatTQuery { temperature: fpd(false, 393361545936488, -12), phase_region: steam_tables::steam::SteamNonCriticalPhaseRegion::Liquid });
    let e = get_steam_table_entry(query).unwrap();
    assert_eq!(e.phase_region, PhaseRegion::NonCritical(NonCriticalPhaseRegion::Liquid));
    check_entry(&e, 393.361545936488, 0.2e6, 504471.741847973, 504683.84552926, 1530.0982011075, 3666.99397284121, 4246.73524917536, 1520.69128792808, 0.00106051840643552);
}

#[test]
fn steam_table_08() {
    let query = SteamQuery::Sat(SatQuery::SatTQuery { temperature: fpd(false, 393361545936488, -12), phase_region: steam_tables::steam::SteamNonCriticalPhaseRegion::Vapor });
    let e = get_steam_table_entry(query).unwrap();
    assert_eq!(e.phase_region, PhaseRegion::NonCritical(NonCriticalPhaseRegion::Vapor));
    check_entry(&e, 393.361545936488, 0.2e6, 2529094.32835793, 2706241.34137425, 7126.8563914686, 1615.96336473298, 2175.22318865273, 481.883535821489, 0.885735065081644);
}

#[test]
fn steam_table_09() {
    let query = SteamQuery::EntropyP { entropy: fpd(false, 4469719056217, -9), pressure: fpd(false, 78309563916917, -6) };
    let e = get_steam_table_entry(query).unwrap();
    assert_eq!(e.phase_region, PhaseRegion::SupercriticalFluid);
    check_entry(&e, 750.0, 78.309563916917e6, 2102069.317626429, 2258688.445460262, 4469.719056217, 2717.01677121, 6341.653594791, 760.696040876798, 1.0 / 500.0);
}

#[test]
fn steam_table_10() {
    let query = SteamQuery::EntropyP { entropy: fpd(false, 2275752861241, -9), pressure: fpd(false, 4, 7) };
    let e = get_steam_table_entry(query).unwrap();
    assert_eq!(e.phase_region, PhaseRegion::NonCritical(NonCriticalPhaseRegion::Liquid));
    check_entry(&e, 473.15, 40e6, 825228.016170348, 870124.259682489, 2275.752861241, 3292.858637199, 4315.767590903, 1457.418351596083, 0.001122406088);
}

#[test]
fn steam_table_11() {
    let query = SteamQuery::EntropyP { entropy: fpd(false, 8536405231138, -9), pressure: fpd(false, 3, 7) };
    let e = get_steam_table_entry(query).unwrap();
    assert_eq!(e.phase_region, PhaseRegion::SupercriticalFluid);
    check_entry(&e, 2000.0, 30e6, 5637070.382521894, 6571226.038618478, 8536.405231138, 2395.894362358, 2885.698818781, 1067.369478777425, 0.03113852187);
}

#[test]
fn steam_table_12() {
    let query = SteamQuery::EntropyP { entropy: fpd(false, 6564768889364, -9), pressure: fpd(false, 14, 6) };
    let e = get_steam_table_entry(query).unwrap();
    assert_eq!(e.phase_region, PhaseRegion::Gas);
    check_entry(&e, 823.15, 14e6, 3114302.136294585, 3460987.255128561, 6564.768889364, 1892.708832325, 2666.558503968, 666.050616844223, 0.024763222774);
}

#[test]
fn steam_table_13() {
    let query = SteamQuery::EntropyP { entropy: fpd(false, 66858, -1), pressure: fpd(false, 1, 4) };
    let e = get_steam_table_entry(query).unwrap();
    check_liquid_vapor(&e, 1.0 - 0.8049124470781327, 0.8049124470781327);
    check_entry(&e, 318.957548207023, 10e3, 1999135.82661328, 2117222.94886314, 6685.8, 1966.28009225455, 2377.86300751001, 655.005141924186, 1.0 / 193.16103883);
}

#[test]
fn steam_table_14() {
    let query = SteamQuery::EnthalpyP { enthalpy: fpd(false, 2258688445460262, -9), pressure: fpd(false, 78309563916917, -6) };
    let e = get_steam_table_entry(query).unwrap();
    assert_eq!(e.phase_region, PhaseRegion::SupercriticalFluid);
    check_entry(&e, 750.0, 78.309563916917e6, 2102069.317626429, 2258688.445460262, 4469.719056217, 2717.01677121, 6341.653594791, 760.696040876798, 1.0 / 500.0);
}

#[test]
fn steam_table_15() {
    let query = SteamQuery::EnthalpyP { enthalpy: fpd(false, 870124259682489, -9), pressure: fpd(false, 4, 7) };
    let e = get_steam_table_entry(query).unwrap();
    assert_eq!(e.phase_region, PhaseRegion::NonCritical(NonCriticalPhaseRegion::Liquid));
    check_entry(&e, 473.15, 40e6, 825228.016170348, 870124.259682489, 2275.752861241, 3292.858637199, 4315.767590903, 1457.418351596083, 0.001122406088);
}

#[test]
fn steam_table_16() {
    let query = SteamQuery::EnthalpyP { enthalpy: fpd(false, 6571226038618478, -9), pressure: fpd(false, 3, 7) };
    let e = get_steam_table_entry(query).unwrap();
    assert_eq!(e.phase_region, PhaseRegion::SupercriticalFluid);
    check_entry(&e, 2000.0, 30e6, 5637070.382521894, 6571226.038618478, 8536.405231138, 2395.894362358, 2885.698818781, 1067.369478777425, 0.03113852187);
}

#[test]
fn steam_table_17() {
    let query = SteamQuery::EnthalpyP { enthalpy: fpd(false, 3460987255128561, -9), pressure: fpd(false, 14, 6) };
    let e = get_steam_table_entry(query).unwrap();
    assert_eq!(e.phase_region, PhaseRegion::Gas);
    check_entry(&e, 823.15, 14e6, 3114302.136294585, 3460987.255128561, 6564.768889364, 1892.708832325, 2666.558503968, 666.050616844223, 0.024763222774);
}

#[test]
fn steam_table_18() {
    let query = SteamQuery::EnthalpyP { enthalpy: fpd(false, 211722294886314, -8), pressure: fpd(false, 1, 4) };
    let e = get_steam_table_entry(query).unwrap();
    check_liquid_vapor(&e, 1.0 - 0.8049124470781327, 0.8049124470781327);
    check_entry(&e, 318.957548207023, 10e3, 1999135.82661328, 2117222.94886314, 6685.8, 1966.28009225455, 2377.86300751001, 655.005141924186, 1.0 / 193.16103883);
}

#[test]
fn steam_table_19() {
    let query = SteamQuery::Pt(PtPoint { pressure: fpd(false, 4, 7), temperature: fp_from_u64(273) });
    let e = get_steam_table_entry(query);
    assert_eq!(e, Err(SteamQueryErr::OutOfRange(OutOfRange::TemperatureLow)));
}

#[test]
fn steam_table_20() {
    let query = SteamQuery::Pt(PtPoint { pressure: fpd(false, 6, 7), temperature: fp_from_u64(273) });
    let e = get_steam_table_entry(query);
    assert_eq!(e, Err(SteamQueryErr::OutOfRange(OutOfRange::TemperatureLow)));
}

#[test]
fn steam_table_21() {
    let query = SteamQuery::Pt(PtPoint { pressure: fpd(false, 4, 7), temperature: fpd(false, 227415, -2) });
    let e = get_steam_table_entry(query);
    assert_eq!(e, Err(SteamQueryErr::OutOfRange(OutOfRange::TemperatureHigh)));
}

#[test]
fn steam_table_22() {
    let query = SteamQuery::Pt(PtPoint { pressure: fpd(false, 6, 7), temperature: fpd(false, 107415, -2) });
    let e = get_steam_table_entry(query);
    assert_eq!(e, Err(SteamQueryErr::OutOfRange(OutOfRange::TemperatureHigh)));
}

#[test]
fn steam_table_23() {
    let query = SteamQuery::Pt(PtPoint { pressure: fpd(true, 1, 0), temperature: fpd(false, 107215, -2) });
    let e = get_steam_table_entry(query);
    assert_eq!(e, Err(SteamQueryErr::OutOfRange(OutOfRange::PressureLow)));
}

#[test]
fn steam_table_24() {
    let query = SteamQuery::Pt(PtPoint { pressure: fpd(true, 1, 0), temperature: fpd(false, 107415, -2) });
    let e = get_steam_table_entry(query);
    assert_eq!(e, Err(SteamQueryErr::OutOfRange(OutOfRange::PressureLow)));
}

#[test]
fn steam_table_25() {
    let query = SteamQuery::Pt(PtPoint { pressure: fpd(false, 51, 6), temperature: fpd(false, 107415, -2) });
    let e = get_steam_table_entry(query);
    assert_eq!(e, Err(SteamQueryErr::OutOfRange(OutOfRange::TemperatureHigh)));
}

#[test]
fn steam_table_26() {
    let query = SteamQuery::Pt(PtPoint { pressure: fpd(false, 101, 6), temperature: fpd(false, 107215, -2) });
    let e = get_steam_table_entry(query);
    assert_eq!(e, Err(SteamQueryErr::OutOfRange(OutOfRange::PressureHigh)));
}
