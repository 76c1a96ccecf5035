//! Thermodynamic properties of water and steam from the IAPWS-97 industrial
//! formulation.
//!
//! The library evaluates a full property record (internal energy, enthalpy,
//! entropy, heat capacities, speed of sound, specific volume, phase) for a
//! query given by pressure and temperature, by a point on the saturation
//! curve, or by pressure paired with entropy or enthalpy.  All arithmetic is
//! carried out on [`fp::Fp`], a software binary floating-point number built
//! from integers, so that every function of the engine has an exact
//! contract: the result is pinned, bit for bit, by a spec-level mirror of
//! the computation.

use vstd::prelude::*;

pub mod fp;
pub mod iapws97;
pub mod iapws97_constants;
pub mod root_finders;
pub mod steam;
pub mod thermo;

verus! {

/// A no-op entry point retained for callers that expect it.
pub fn function() {
}

} // verus!
