//! Query shapes and error types for the steam-table engine.
//!
//! All scalar fields are SI values carried as [`Fp`]: pressure in Pa,
//! temperature in K, enthalpy in J/kg, entropy in J/(kg K).

use vstd::prelude::*;
use crate::fp::Fp;

verus! {

/// A pressure/temperature state point, in Pa and K.
#[derive(Clone, Copy, Debug, PartialEq, Eq, Structural)]
pub struct PtPoint {
    pub pressure: Fp,
    pub temperature: Fp,
}

impl PtPoint {
    pub open spec fn wf(self) -> bool {
        self.pressure.wf() && self.temperature.wf()
    }
}

/// Which side of the two-phase dome a saturation query asks for.
#[derive(Clone, Copy, Debug, PartialEq, Eq, Structural)]
pub enum SteamNonCriticalPhaseRegion {
    /// Pressure is below the vaporization curve, temperature below critical.
    Vapor,
    /// Pressure is above the vaporization curve, temperature between the
    /// fusion curve and the critical temperature.
    Liquid,
}

/// A point on the saturation curve, named by temperature or by pressure.
#[derive(Clone, Copy, Debug, PartialEq, Eq, Structural)]
pub enum SatQuery {
    SatTQuery { temperature: Fp, phase_region: SteamNonCriticalPhaseRegion },
    SatPQuery { pressure: Fp, phase_region: SteamNonCriticalPhaseRegion },
}

impl SatQuery {
    pub open spec fn wf(self) -> bool {
        match self {
            SatQuery::SatTQuery { temperature, .. } => temperature.wf(),
            SatQuery::SatPQuery { pressure, .. } => pressure.wf(),
        }
    }
}

/// One request to the engine.
#[derive(Clone, Copy, Debug, PartialEq, Eq, Structural)]
pub enum SteamQuery {
    Pt(PtPoint),
    Sat(SatQuery),
    EntropyP { entropy: Fp, pressure: Fp },
    EnthalpyP { enthalpy: Fp, pressure: Fp },
}

impl SteamQuery {
    pub open spec fn wf(self) -> bool {
        match self {
            SteamQuery::Pt(p) => p.wf(),
            SteamQuery::Sat(s) => s.wf(),
            SteamQuery::EntropyP { entropy, pressure } => entropy.wf() && pressure.wf(),
            SteamQuery::EnthalpyP { enthalpy, pressure } => enthalpy.wf() && pressure.wf(),
        }
    }
}

/// Why an input was rejected before or during evaluation.
#[derive(Clone, Copy, Debug, PartialEq, Eq, Structural)]
pub enum OutOfRange {
    TemperatureLow,
    TemperatureHigh,
    PressureLow,
    PressureHigh,
    AboveCriticalTemperature,
    BelowCriticalTemperature,
    AboveCriticalPressure,
}

/// The failure type of the engine.
#[derive(Clone, Copy, Debug, PartialEq, Eq, Structural)]
pub enum SteamQueryErr {
    OutOfRange(OutOfRange),
    CompositePhaseRegionErr(crate::thermo::CompositePhaseRegionErr),
    FailedToConverge(crate::root_finders::RootFinderErr),
}

} // verus!
