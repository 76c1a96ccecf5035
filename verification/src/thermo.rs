//! Phase classification types and the property record.
//!
//! A composite phase carries mass fractions that are checked, at
//! construction, to add up to exactly one in [`Fp`] arithmetic; the type
//! invariant then guarantees the sum for every value in existence.

use vstd::prelude::*;
use crate::fp::{Fp, spec_fp_add, fp_add};

verus! {

#[derive(Clone, Copy, Debug, PartialEq, Eq, Structural)]
pub enum NonCriticalPhaseRegion {
    /// Pressure is below both the sublimation and vaporization curves and
    /// the temperature is below the critical temperature.
    Vapor,
    /// Pressure is above the vaporization curve and the temperature lies
    /// between the fusion curve and the critical temperature.
    Liquid,
    /// Pressure is above the sublimation curve and the temperature is below
    /// the fusion curve.
    Solid,
}

#[derive(Clone, Copy, Debug, PartialEq, Eq, Structural)]
pub enum CompositePhaseRegionErr {
    FractionsDoNotAddUpToOne,
    FractionsMustBePositive,
}

#[derive(Clone, Copy, Debug, PartialEq, Eq, Structural)]
pub struct SolidLiquid {
    solid_frac: Fp,
    liquid_frac: Fp,
}

impl SolidLiquid {
    #[verifier::type_invariant]
    spec fn fractions_sum_to_one(self) -> bool {
        self.solid_frac.wf() && self.liquid_frac.wf() && spec_fp_add(
            self.solid_frac,
            self.liquid_frac,
        ) == Fp::spec_one()
    }

    pub closed spec fn spec_solid_frac(self) -> Fp {
        self.solid_frac
    }

    pub closed spec fn spec_liquid_frac(self) -> Fp {
        self.liquid_frac
    }

    pub fn new(solid_frac: Fp, liquid_frac: Fp) -> (r: Result<SolidLiquid, CompositePhaseRegionErr>)
        requires
            solid_frac.wf(),
            liquid_frac.wf(),
        ensures
            (spec_fp_add(solid_frac, liquid_frac) == Fp::spec_one()) == (r is Ok),
            r matches Ok(x) ==> x.spec_solid_frac() == solid_frac && x.spec_liquid_frac()
                == liquid_frac,
            r matches Err(e) ==> e == CompositePhaseRegionErr::FractionsDoNotAddUpToOne,
    {
        if fp_add(solid_frac, liquid_frac) == Fp::one() {
            Ok(SolidLiquid { solid_frac, liquid_frac })
        } else {
            Err(CompositePhaseRegionErr::FractionsDoNotAddUpToOne)
        }
    }

    /// The solid mass fraction; every value of this type carries fractions
    /// that sum to exactly one.
    pub fn get_solid_frac(&self) -> (r: Fp)
        ensures
            r == self.spec_solid_frac(),
            r.wf(),
            spec_fp_add(self.spec_solid_frac(), self.spec_liquid_frac()) == Fp::spec_one(),
    {
        proof {
            use_type_invariant(self);
        }
        self.solid_frac
    }

    pub fn get_liquid_frac(&self) -> (r: Fp)
        ensures
            r == self.spec_liquid_frac(),
            r.wf(),
            spec_fp_add(self.spec_solid_frac(), self.spec_liquid_frac()) == Fp::spec_one(),
    {
        proof {
            use_type_invariant(self);
        }
        self.liquid_frac
    }
}

#[derive(Clone, Copy, Debug, PartialEq, Eq, Structural)]
pub struct LiquidVapor {
    liquid_frac: Fp,
    vapor_frac: Fp,
}

impl LiquidVapor {
    #[verifier::type_invariant]
    spec fn fractions_sum_to_one(self) -> bool {
        self.liquid_frac.wf() && self.vapor_frac.wf() && spec_fp_add(
            self.liquid_frac,
            self.vapor_frac,
        ) == Fp::spec_one()
    }

    pub closed spec fn spec_liquid_frac(self) -> Fp {
        self.liquid_frac
    }

    pub closed spec fn spec_vapor_frac(self) -> Fp {
        self.vapor_frac
    }

    /// The value `new` returns on success, for use in spec formulas.
    pub closed spec fn spec_new_unchecked(liquid_frac: Fp, vapor_frac: Fp) -> LiquidVapor {
        LiquidVapor { liquid_frac, vapor_frac }
    }

    pub fn new(liquid_frac: Fp, vapor_frac: Fp) -> (r: Result<LiquidVapor, CompositePhaseRegionErr>)
        requires
            liquid_frac.wf(),
            vapor_frac.wf(),
        ensures
            (spec_fp_add(liquid_frac, vapor_frac) == Fp::spec_one()) == (r is Ok),
            r matches Ok(x) ==> x == LiquidVapor::spec_new_unchecked(liquid_frac, vapor_frac)
                && x.spec_liquid_frac() == liquid_frac && x.spec_vapor_frac() == vapor_frac,
            r matches Err(e) ==> e == CompositePhaseRegionErr::FractionsDoNotAddUpToOne,
    {
        if fp_add(liquid_frac, vapor_frac) == Fp::one() {
            Ok(LiquidVapor { liquid_frac, vapor_frac })
        } else {
            Err(CompositePhaseRegionErr::FractionsDoNotAddUpToOne)
        }
    }

    /// The liquid mass fraction; every value of this type carries fractions
    /// that sum to exactly one.
    pub fn get_liquid_frac(&self) -> (r: Fp)
        ensures
            r == self.spec_liquid_frac(),
            r.wf(),
            spec_fp_add(self.spec_liquid_frac(), self.spec_vapor_frac()) == Fp::spec_one(),
    {
        proof {
            use_type_invariant(self);
        }
        self.liquid_frac
    }

    pub fn get_vapor_frac(&self) -> (r: Fp)
        ensures
            r == self.spec_vapor_frac(),
            r.wf(),
            spec_fp_add(self.spec_liquid_frac(), self.spec_vapor_frac()) == Fp::spec_one(),
    {
        proof {
            use_type_invariant(self);
        }
        self.vapor_frac
    }
}

#[derive(Clone, Copy, Debug, PartialEq, Eq, Structural)]
pub struct SolidVapor {
    solid_frac: Fp,
    vapor_frac: Fp,
}

impl SolidVapor {
    #[verifier::type_invariant]
    spec fn fractions_sum_to_one(self) -> bool {
        self.solid_frac.wf() && self.vapor_frac.wf() && spec_fp_add(
            self.solid_frac,
            self.vapor_frac,
        ) == Fp::spec_one()
    }

    pub closed spec fn spec_solid_frac(self) -> Fp {
        self.solid_frac
    }

    pub closed spec fn spec_vapor_frac(self) -> Fp {
        self.vapor_frac
    }

    pub fn new(solid_frac: Fp, vapor_frac: Fp) -> (r: Result<SolidVapor, CompositePhaseRegionErr>)
        requires
            solid_frac.wf(),
            vapor_frac.wf(),
        ensures
            (spec_fp_add(solid_frac, vapor_frac) == Fp::spec_one()) == (r is Ok),
            r matches Ok(x) ==> x.spec_solid_frac() == solid_frac && x.spec_vapor_frac()
                == vapor_frac,
            r matches Err(e) ==> e == CompositePhaseRegionErr::FractionsDoNotAddUpToOne,
    {
        if fp_add(solid_frac, vapor_frac) == Fp::one() {
            Ok(SolidVapor { solid_frac, vapor_frac })
        } else {
            Err(CompositePhaseRegionErr::FractionsDoNotAddUpToOne)
        }
    }

    /// The solid mass fraction; every value of this type carries fractions
    /// that sum to exactly one.
    pub fn get_solid_frac(&self) -> (r: Fp)
        ensures
            r == self.spec_solid_frac(),
            r.wf(),
            spec_fp_add(self.spec_solid_frac(), self.spec_vapor_frac()) == Fp::spec_one(),
    {
        proof {
            use_type_invariant(self);
        }
        self.solid_frac
    }

    pub fn get_vapor_frac(&self) -> (r: Fp)
        ensures
            r == self.spec_vapor_frac(),
            r.wf(),
            spec_fp_add(self.spec_solid_frac(), self.spec_vapor_frac()) == Fp::spec_one(),
    {
        proof {
            use_type_invariant(self);
        }
        self.vapor_frac
    }
}

#[derive(Clone, Copy, Debug, PartialEq, Eq, Structural)]
pub struct SolidLiquidVapor {
    solid_frac: Fp,
    liquid_frac: Fp,
    vapor_frac: Fp,
}

impl SolidLiquidVapor {
    #[verifier::type_invariant]
    spec fn fractions_sum_to_one(self) -> bool {
        self.solid_frac.wf() && self.liquid_frac.wf() && self.vapor_frac.wf() && spec_fp_add(
            spec_fp_add(self.solid_frac, self.liquid_frac),
            self.vapor_frac,
        ) == Fp::spec_one()
    }

    pub closed spec fn spec_solid_frac(self) -> Fp {
        self.solid_frac
    }

    pub closed spec fn spec_liquid_frac(self) -> Fp {
        self.liquid_frac
    }

    pub closed spec fn spec_vapor_frac(self) -> Fp {
        self.vapor_frac
    }

    pub fn new(solid_frac: Fp, liquid_frac: Fp, vapor_frac: Fp) -> (r: Result<
        SolidLiquidVapor,
        CompositePhaseRegionErr,
    >)
        requires
            solid_frac.wf(),
            liquid_frac.wf(),
            vapor_frac.wf(),
        ensures
            (spec_fp_add(spec_fp_add(solid_frac, liquid_frac), vapor_frac) == Fp::spec_one()) == (
            r is Ok),
            r matches Ok(x) ==> x.spec_solid_frac() == solid_frac && x.spec_liquid_frac()
                == liquid_frac && x.spec_vapor_frac() == vapor_frac,
            r matches Err(e) ==> e == CompositePhaseRegionErr::FractionsDoNotAddUpToOne,
    {
        if fp_add(fp_add(solid_frac, liquid_frac), vapor_frac) == Fp::one() {
            Ok(SolidLiquidVapor { solid_frac, liquid_frac, vapor_frac })
        } else {
            Err(CompositePhaseRegionErr::FractionsDoNotAddUpToOne)
        }
    }

    /// The solid mass fraction; every value of this type carries fractions
    /// that sum to exactly one.
    pub fn get_solid_frac(&self) -> (r: Fp)
        ensures
            r == self.spec_solid_frac(),
            r.wf(),
            spec_fp_add(
                spec_fp_add(self.spec_solid_frac(), self.spec_liquid_frac()),
                self.spec_vapor_frac(),
            ) == Fp::spec_one(),
    {
        proof {
            use_type_invariant(self);
        }
        self.solid_frac
    }

    pub fn get_liquid_frac(&self) -> (r: Fp)
        ensures
            r == self.spec_liquid_frac(),
            r.wf(),
            spec_fp_add(
                spec_fp_add(self.spec_solid_frac(), self.spec_liquid_frac()),
                self.spec_vapor_frac(),
            ) == Fp::spec_one(),
    {
        proof {
            use_type_invariant(self);
        }
        self.liquid_frac
    }

    pub fn get_vapor_frac(&self) -> (r: Fp)
        ensures
            r == self.spec_vapor_frac(),
            r.wf(),
            spec_fp_add(
                spec_fp_add(self.spec_solid_frac(), self.spec_liquid_frac()),
                self.spec_vapor_frac(),
            ) == Fp::spec_one(),
    {
        proof {
            use_type_invariant(self);
        }
        self.vapor_frac
    }
}

#[derive(Clone, Copy, Debug, PartialEq, Eq, Structural)]
pub enum CompositePhaseRegion {
    SolidLiquid(SolidLiquid),
    LiquidVapor(LiquidVapor),
    SolidVapor(SolidVapor),
    SolidLiquidVapor(SolidLiquidVapor),
}

#[derive(Clone, Copy, Debug, PartialEq, Eq, Structural)]
pub enum PhaseRegion {
    /// Temperature and pressure are both above the critical point.
    SupercriticalFluid,
    Gas,
    NonCritical(NonCriticalPhaseRegion),
    Composite(CompositePhaseRegion),
}

/// One evaluated state point: all scalar fields are SI values.
#[derive(Clone, Copy, Debug, PartialEq, Eq, Structural)]
pub struct PtvEntry {
    /// K
    pub temperature: Fp,
    /// Pa
    pub pressure: Fp,
    pub phase_region: PhaseRegion,
    /// J/kg
    pub internal_energy: Fp,
    /// J/kg
    pub enthalpy: Fp,
    /// J/(kg K)
    pub entropy: Fp,
    /// Isochoric heat capacity, J/(kg K).
    pub cv: Fp,
    /// Isobaric heat capacity, J/(kg K).
    pub cp: Fp,
    /// m/s
    pub speed_of_sound: Fp,
    /// m^3/kg
    pub specific_volume: Fp,
}

impl PtvEntry {
    /// All scalar fields are well-formed numbers.
    pub open spec fn wf(self) -> bool {
        self.temperature.wf() && self.pressure.wf() && self.internal_energy.wf()
            && self.enthalpy.wf() && self.entropy.wf() && self.cv.wf() && self.cp.wf()
            && self.speed_of_sound.wf() && self.specific_volume.wf()
    }
}

} // verus!
