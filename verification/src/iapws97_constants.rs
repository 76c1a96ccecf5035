//! The IAPWS-97 coefficient tables.
//!
//! Every coefficient is stored as an exact decimal: a sign, up to 19
//! significant digits, and a power of ten.  The evaluator turns each into
//! an [`Fp`] value with `fp_from_decimal`, so the numbers here are the ones
//! published by the formulation, not binary approximations chosen by hand.

use vstd::prelude::*;

verus! {

/// One term of a double-series correlation: exponents for the reduced
/// pressure (or density) and temperature, and a decimal coefficient.
#[derive(Clone, Copy, Debug, PartialEq, Eq, Structural)]
pub struct IjnRegionPoint {
    pub i: i64,
    pub j: i64,
    pub neg: bool,
    pub digits: u64,
    pub e10: i64,
}

/// One term of a single-series correlation in reduced temperature.
#[derive(Clone, Copy, Debug, PartialEq, Eq, Structural)]
pub struct JnRegionPoint {
    pub j: i64,
    pub neg: bool,
    pub digits: u64,
    pub e10: i64,
}

/// A bare decimal coefficient.
#[derive(Clone, Copy, Debug, PartialEq, Eq, Structural)]
pub struct NRegionPoint {
    pub neg: bool,
    pub digits: u64,
    pub e10: i64,
}

/// Exponents of a full term stay small; the evaluator's arithmetic on
/// them cannot overflow.
pub open spec fn ijn_bounded(c: IjnRegionPoint) -> bool {
    -100 <= c.i <= 100 && -100 <= c.j <= 100 && -100 <= c.e10 <= 100
}

/// Exponents of a temperature-only term stay small.
pub open spec fn jn_bounded(c: JnRegionPoint) -> bool {
    -100 <= c.j <= 100 && -100 <= c.e10 <= 100
}


/// The `REGION_1_AND_4` coefficient table.
pub open spec fn spec_region_1_and_4() -> Seq<IjnRegionPoint> {
    seq![
        IjnRegionPoint { i: 0i64, j: -2i64, neg: false, digits: 14632971213167u64, e10: -14i64 },
        IjnRegionPoint { i: 0i64, j: -1i64, neg: true, digits: 84548187169114u64, e10: -14i64 },
        IjnRegionPoint { i: 0i64, j: 0i64, neg: true, digits: 3756360367204u64, e10: -12i64 },
        IjnRegionPoint { i: 0i64, j: 1i64, neg: false, digits: 33855169168385u64, e10: -13i64 },
        IjnRegionPoint { i: 0i64, j: 2i64, neg: true, digits: 95791963387872u64, e10: -14i64 },
        IjnRegionPoint { i: 0i64, j: 3i64, neg: false, digits: 15772038513228u64, e10: -14i64 },
        IjnRegionPoint { i: 0i64, j: 4i64, neg: true, digits: 16616417199501u64, e10: -15i64 },
        IjnRegionPoint { i: 0i64, j: 5i64, neg: false, digits: 81214629983568u64, e10: -17i64 },
        IjnRegionPoint { i: 1i64, j: -9i64, neg: false, digits: 28319080123804u64, e10: -17i64 },
        IjnRegionPoint { i: 1i64, j: -7i64, neg: true, digits: 60706301565874u64, e10: -17i64 },
        IjnRegionPoint { i: 1i64, j: -1i64, neg: true, digits: 18990068218419u64, e10: -15i64 },
        IjnRegionPoint { i: 1i64, j: 0i64, neg: true, digits: 32529748770505u64, e10: -15i64 },
        IjnRegionPoint { i: 1i64, j: 1i64, neg: true, digits: 21841717175414u64, e10: -15i64 },
        IjnRegionPoint { i: 1i64, j: 3i64, neg: true, digits: 5283835796993u64, e10: -17i64 },
        IjnRegionPoint { i: 2i64, j: -3i64, neg: true, digits: 47184321073267u64, e10: -17i64 },
        IjnRegionPoint { i: 2i64, j: 0i64, neg: true, digits: 30001780793026u64, e10: -17i64 },
        IjnRegionPoint { i: 2i64, j: 1i64, neg: false, digits: 47661393906987u64, e10: -18i64 },
        IjnRegionPoint { i: 2i64, j: 3i64, neg: true, digits: 44141845330846u64, e10: -19i64 },
        IjnRegionPoint { i: 2i64, j: 17i64, neg: true, digits: 72694996297594u64, e10: -29i64 },
        IjnRegionPoint { i: 3i64, j: -4i64, neg: true, digits: 31679644845054u64, e10: -18i64 },
        IjnRegionPoint { i: 3i64, j: 0i64, neg: true, digits: 28270797985312u64, e10: -19i64 },
        IjnRegionPoint { i: 3i64, j: 6i64, neg: true, digits: 85205128120103u64, e10: -23i64 },
        IjnRegionPoint { i: 4i64, j: -5i64, neg: true, digits: 22425281908u64, e10: -16i64 },
        IjnRegionPoint { i: 4i64, j: -2i64, neg: true, digits: 65171222895601u64, e10: -20i64 },
        IjnRegionPoint { i: 4i64, j: 10i64, neg: true, digits: 14341729937924u64, e10: -26i64 },
        IjnRegionPoint { i: 5i64, j: -8i64, neg: true, digits: 40516996860117u64, e10: -20i64 },
        IjnRegionPoint { i: 8i64, j: -11i64, neg: true, digits: 12734301741641u64, e10: -22i64 },
        IjnRegionPoint { i: 8i64, j: -6i64, neg: true, digits: 17424871230634u64, e10: -23i64 },
        IjnRegionPoint { i: 21i64, j: -29i64, neg: true, digits: 68762131295531u64, e10: -32i64 },
        IjnRegionPoint { i: 23i64, j: -31i64, neg: false, digits: 14478307828521u64, e10: -33i64 },
        IjnRegionPoint { i: 29i64, j: -38i64, neg: false, digits: 26335781662795u64, e10: -36i64 },
        IjnRegionPoint { i: 30i64, j: -39i64, neg: true, digits: 11947622640071u64, e10: -36i64 },
        IjnRegionPoint { i: 31i64, j: -40i64, neg: false, digits: 18228094581404u64, e10: -37i64 },
        IjnRegionPoint { i: 32i64, j: -41i64, neg: true, digits: 93537087292458u64, e10: -39i64 },
    ]
}

#[verifier::rlimit(60)]
pub fn region_1_and_4() -> (v: Vec<IjnRegionPoint>)
    ensures
        v@ == spec_region_1_and_4(),
        forall|k: int| 0 <= k < v@.len() ==> ijn_bounded(#[trigger] v@[k]),
{
    let mut v: Vec<IjnRegionPoint> = Vec::new();
    v.push(IjnRegionPoint { i: 0i64, j: -2i64, neg: false, digits: 14632971213167u64, e10: -14i64 });
    v.push(IjnRegionPoint { i: 0i64, j: -1i64, neg: true, digits: 84548187169114u64, e10: -14i64 });
    v.push(IjnRegionPoint { i: 0i64, j: 0i64, neg: true, digits: 3756360367204u64, e10: -12i64 });
    v.push(IjnRegionPoint { i: 0i64, j: 1i64, neg: false, digits: 33855169168385u64, e10: -13i64 });
    v.push(IjnRegionPoint { i: 0i64, j: 2i64, neg: true, digits: 95791963387872u64, e10: -14i64 });
    v.push(IjnRegionPoint { i: 0i64, j: 3i64, neg: false, digits: 15772038513228u64, e10: -14i64 });
    v.push(IjnRegionPoint { i: 0i64, j: 4i64, neg: true, digits: 16616417199501u64, e10: -15i64 });
    v.push(IjnRegionPoint { i: 0i64, j: 5i64, neg: false, digits: 81214629983568u64, e10: -17i64 });
    v.push(IjnRegionPoint { i: 1i64, j: -9i64, neg: false, digits: 28319080123804u64, e10: -17i64 });
    v.push(IjnRegionPoint { i: 1i64, j: -7i64, neg: true, digits: 60706301565874u64, e10: -17i64 });
    v.push(IjnRegionPoint { i: 1i64, j: -1i64, neg: true, digits: 18990068218419u64, e10: -15i64 });
    v.push(IjnRegionPoint { i: 1i64, j: 0i64, neg: true, digits: 32529748770505u64, e10: -15i64 });
    v.push(IjnRegionPoint { i: 1i64, j: 1i64, neg: true, digits: 21841717175414u64, e10: -15i64 });
    v.push(IjnRegionPoint { i: 1i64, j: 3i64, neg: true, digits: 5283835796993u64, e10: -17i64 });
    v.push(IjnRegionPoint { i: 2i64, j: -3i64, neg: true, digits: 47184321073267u64, e10: -17i64 });
    v.push(IjnRegionPoint { i: 2i64, j: 0i64, neg: true, digits: 30001780793026u64, e10: -17i64 });
    v.push(IjnRegionPoint { i: 2i64, j: 1i64, neg: false, digits: 47661393906987u64, e10: -18i64 });
    v.push(IjnRegionPoint { i: 2i64, j: 3i64, neg: true, digits: 44141845330846u64, e10: -19i64 });
    v.push(IjnRegionPoint { i: 2i64, j: 17i64, neg: true, digits: 72694996297594u64, e10: -29i64 });
    v.push(IjnRegionPoint { i: 3i64, j: -4i64, neg: true, digits: 31679644845054u64, e10: -18i64 });
    v.push(IjnRegionPoint { i: 3i64, j: 0i64, neg: true, digits: 28270797985312u64, e10: -19i64 });
    v.push(IjnRegionPoint { i: 3i64, j: 6i64, neg: true, digits: 85205128120103u64, e10: -23i64 });
    v.push(IjnRegionPoint { i: 4i64, j: -5i64, neg: true, digits: 22425281908u64, e10: -16i64 });
    v.push(IjnRegionPoint { i: 4i64, j: -2i64, neg: true, digits: 65171222895601u64, e10: -20i64 });
    v.push(IjnRegionPoint { i: 4i64, j: 10i64, neg: true, digits: 14341729937924u64, e10: -26i64 });
    v.push(IjnRegionPoint { i: 5i64, j: -8i64, neg: true, digits: 40516996860117u64, e10: -20i64 });
    v.push(IjnRegionPoint { i: 8i64, j: -11i64, neg: true, digits: 12734301741641u64, e10: -22i64 });
    v.push(IjnRegionPoint { i: 8i64, j: -6i64, neg: true, digits: 17424871230634u64, e10: -23i64 });
    v.push(IjnRegionPoint { i: 21i64, j: -29i64, neg: true, digits: 68762131295531u64, e10: -32i64 });
    v.push(IjnRegionPoint { i: 23i64, j: -31i64, neg: false, digits: 14478307828521u64, e10: -33i64 });
    v.push(IjnRegionPoint { i: 29i64, j: -38i64, neg: false, digits: 26335781662795u64, e10: -36i64 });
    v.push(IjnRegionPoint { i: 30i64, j: -39i64, neg: true, digits: 11947622640071u64, e10: -36i64 });
    v.push(IjnRegionPoint { i: 31i64, j: -40i64, neg: false, digits: 18228094581404u64, e10: -37i64 });
    v.push(IjnRegionPoint { i: 32i64, j: -41i64, neg: true, digits: 93537087292458u64, e10: -39i64 });
    proof {
        assert(v@ =~= spec_region_1_and_4());
    }
    v
}

/// The `REGION_2_IDEAL` coefficient table.
pub open spec fn spec_region_2_ideal() -> Seq<JnRegionPoint> {
    seq![
        JnRegionPoint { j: 0i64, neg: true, digits: 96927686500217u64, e10: -13i64 },
        JnRegionPoint { j: 1i64, neg: false, digits: 10086655968018u64, e10: -12i64 },
        JnRegionPoint { j: -5i64, neg: true, digits: 5608791128302u64, e10: -15i64 },
        JnRegionPoint { j: -4i64, neg: false, digits: 71452738081455u64, e10: -15i64 },
        JnRegionPoint { j: -3i64, neg: true, digits: 40710498223928u64, e10: -14i64 },
        JnRegionPoint { j: -2i64, neg: false, digits: 14240819171444u64, e10: -13i64 },
        JnRegionPoint { j: -1i64, neg: true, digits: 4383951131945u64, e10: -12i64 },
        JnRegionPoint { j: 2i64, neg: true, digits: 28408632460772u64, e10: -14i64 },
        JnRegionPoint { j: 3i64, neg: false, digits: 21268463753307u64, e10: -15i64 },
    ]
}

#[verifier::rlimit(60)]
pub fn region_2_ideal() -> (v: Vec<JnRegionPoint>)
    ensures
        v@ == spec_region_2_ideal(),
        forall|k: int| 0 <= k < v@.len() ==> jn_bounded(#[trigger] v@[k]),
{
    let mut v: Vec<JnRegionPoint> = Vec::new();
    v.push(JnRegionPoint { j: 0i64, neg: true, digits: 96927686500217u64, e10: -13i64 });
    v.push(JnRegionPoint { j: 1i64, neg: false, digits: 10086655968018u64, e10: -12i64 });
    v.push(JnRegionPoint { j: -5i64, neg: true, digits: 5608791128302u64, e10: -15i64 });
    v.push(JnRegionPoint { j: -4i64, neg: false, digits: 71452738081455u64, e10: -15i64 });
    v.push(JnRegionPoint { j: -3i64, neg: true, digits: 40710498223928u64, e10: -14i64 });
    v.push(JnRegionPoint { j: -2i64, neg: false, digits: 14240819171444u64, e10: -13i64 });
    v.push(JnRegionPoint { j: -1i64, neg: true, digits: 4383951131945u64, e10: -12i64 });
    v.push(JnRegionPoint { j: 2i64, neg: true, digits: 28408632460772u64, e10: -14i64 });
    v.push(JnRegionPoint { j: 3i64, neg: false, digits: 21268463753307u64, e10: -15i64 });
    proof {
        assert(v@ =~= spec_region_2_ideal());
    }
    v
}

/// The `REGION_2_RESIDUAL` coefficient table.
pub open spec fn spec_region_2_residual() -> Seq<IjnRegionPoint> {
    seq![
        IjnRegionPoint { i: 1i64, j: 0i64, neg: true, digits: 17731742473213u64, e10: -16i64 },
        IjnRegionPoint { i: 1i64, j: 1i64, neg: true, digits: 17834862292358u64, e10: -15i64 },
        IjnRegionPoint { i: 1i64, j: 2i64, neg: true, digits: 45996013696365u64, e10: -15i64 },
        IjnRegionPoint { i: 1i64, j: 3i64, neg: true, digits: 57581259083432u64, e10: -15i64 },
        IjnRegionPoint { i: 1i64, j: 6i64, neg: true, digits: 5032527872793u64, e10: -14i64 },
        IjnRegionPoint { i: 2i64, j: 1i64, neg: true, digits: 33032641670203u64, e10: -18i64 },
        IjnRegionPoint { i: 2i64, j: 2i64, neg: true, digits: 18948987516315u64, e10: -17i64 },
        IjnRegionPoint { i: 2i64, j: 4i64, neg: true, digits: 39392777243355u64, e10: -16i64 },
        IjnRegionPoint { i: 2i64, j: 7i64, neg: true, digits: 43797295650573u64, e10: -15i64 },
        IjnRegionPoint { i: 2i64, j: 36i64, neg: true, digits: 26674547914087u64, e10: -18i64 },
        IjnRegionPoint { i: 3i64, j: 0i64, neg: false, digits: 20481737692309u64, e10: -21i64 },
        IjnRegionPoint { i: 3i64, j: 1i64, neg: false, digits: 43870667284435u64, e10: -20i64 },
        IjnRegionPoint { i: 3i64, j: 3i64, neg: true, digits: 3227767723857u64, e10: -17i64 },
        IjnRegionPoint { i: 3i64, j: 6i64, neg: true, digits: 15033924542148u64, e10: -16i64 },
        IjnRegionPoint { i: 3i64, j: 35i64, neg: true, digits: 40668253562649u64, e10: -15i64 },
        IjnRegionPoint { i: 4i64, j: 1i64, neg: true, digits: 78847309559367u64, e10: -23i64 },
        IjnRegionPoint { i: 4i64, j: 2i64, neg: false, digits: 12790717852285u64, e10: -21i64 },
        IjnRegionPoint { i: 4i64, j: 3i64, neg: false, digits: 48225372718507u64, e10: -20i64 },
        IjnRegionPoint { i: 5i64, j: 7i64, neg: false, digits: 22922076337661u64, e10: -19i64 },
        IjnRegionPoint { i: 6i64, j: 3i64, neg: true, digits: 16714766451061u64, e10: -24i64 },
        IjnRegionPoint { i: 6i64, j: 16i64, neg: true, digits: 21171472321355u64, e10: -16i64 },
        IjnRegionPoint { i: 6i64, j: 35i64, neg: true, digits: 23895741934104u64, e10: -12i64 },
        IjnRegionPoint { i: 7i64, j: 0i64, neg: true, digits: 5905956432427u64, e10: -30i64 },
        IjnRegionPoint { i: 7i64, j: 11i64, neg: true, digits: 12621808899101u64, e10: -19i64 },
        IjnRegionPoint { i: 7i64, j: 25i64, neg: true, digits: 38946842435739u64, e10: -15i64 },
        IjnRegionPoint { i: 8i64, j: 8i64, neg: false, digits: 11256211360459u64, e10: -24i64 },
        IjnRegionPoint { i: 8i64, j: 36i64, neg: true, digits: 82311340897998u64, e10: -13i64 },
        IjnRegionPoint { i: 9i64, j: 13i64, neg: false, digits: 19809712802088u64, e10: -21i64 },
        IjnRegionPoint { i: 10i64, j: 4i64, neg: false, digits: 10406965210174u64, e10: -32i64 },
        IjnRegionPoint { i: 10i64, j: 10i64, neg: true, digits: 10234747095929u64, e10: -26i64 },
        IjnRegionPoint { i: 10i64, j: 14i64, neg: true, digits: 10018179379511u64, e10: -22i64 },
        IjnRegionPoint { i: 16i64, j: 29i64, neg: true, digits: 80882908646985u64, e10: -24i64 },
        IjnRegionPoint { i: 16i64, j: 50i64, neg: false, digits: 10693031879409u64, e10: -14i64 },
        IjnRegionPoint { i: 18i64, j: 57i64, neg: true, digits: 33662250574171u64, e10: -14i64 },
        IjnRegionPoint { i: 20i64, j: 20i64, neg: false, digits: 89185845355421u64, e10: -38i64 },
        IjnRegionPoint { i: 20i64, j: 35i64, neg: false, digits: 30629316876232u64, e10: -26i64 },
        IjnRegionPoint { i: 20i64, j: 48i64, neg: true, digits: 42002467698208u64, e10: -19i64 },
        IjnRegionPoint { i: 21i64, j: 21i64, neg: true, digits: 59056029685639u64, e10: -39i64 },
        IjnRegionPoint { i: 22i64, j: 53i64, neg: false, digits: 37826947613457u64, e10: -19i64 },
        IjnRegionPoint { i: 23i64, j: 39i64, neg: true, digits: 12768608934681u64, e10: -28i64 },
        IjnRegionPoint { i: 24i64, j: 26i64, neg: false, digits: 73087610595061u64, e10: -42i64 },
        IjnRegionPoint { i: 24i64, j: 40i64, neg: false, digits: 55414715350778u64, e10: -30i64 },
        IjnRegionPoint { i: 24i64, j: 58i64, neg: true, digits: 9436970724121u64, e10: -19i64 },
    ]
}

#[verifier::rlimit(60)]
pub fn region_2_residual() -> (v: Vec<IjnRegionPoint>)
    ensures
        v@ == spec_region_2_residual(),
        forall|k: int| 0 <= k < v@.len() ==> ijn_bounded(#[trigger] v@[k]),
{
    let mut v: Vec<IjnRegionPoint> = Vec::new();
    v.push(IjnRegionPoint { i: 1i64, j: 0i64, neg: true, digits: 17731742473213u64, e10: -16i64 });
    v.push(IjnRegionPoint { i: 1i64, j: 1i64, neg: true, digits: 17834862292358u64, e10: -15i64 });
    v.push(IjnRegionPoint { i: 1i64, j: 2i64, neg: true, digits: 45996013696365u64, e10: -15i64 });
    v.push(IjnRegionPoint { i: 1i64, j: 3i64, neg: true, digits: 57581259083432u64, e10: -15i64 });
    v.push(IjnRegionPoint { i: 1i64, j: 6i64, neg: true, digits: 5032527872793u64, e10: -14i64 });
    v.push(IjnRegionPoint { i: 2i64, j: 1i64, neg: true, digits: 33032641670203u64, e10: -18i64 });
    v.push(IjnRegionPoint { i: 2i64, j: 2i64, neg: true, digits: 18948987516315u64, e10: -17i64 });
    v.push(IjnRegionPoint { i: 2i64, j: 4i64, neg: true, digits: 39392777243355u64, e10: -16i64 });
    v.push(IjnRegionPoint { i: 2i64, j: 7i64, neg: true, digits: 43797295650573u64, e10: -15i64 });
    v.push(IjnRegionPoint { i: 2i64, j: 36i64, neg: true, digits: 26674547914087u64, e10: -18i64 });
    v.push(IjnRegionPoint { i: 3i64, j: 0i64, neg: false, digits: 20481737692309u64, e10: -21i64 });
    v.push(IjnRegionPoint { i: 3i64, j: 1i64, neg: false, digits: 43870667284435u64, e10: -20i64 });
    v.push(IjnRegionPoint { i: 3i64, j: 3i64, neg: true, digits: 3227767723857u64, e10: -17i64 });
    v.push(IjnRegionPoint { i: 3i64, j: 6i64, neg: true, digits: 15033924542148u64, e10: -16i64 });
    v.push(IjnRegionPoint { i: 3i64, j: 35i64, neg: true, digits: 40668253562649u64, e10: -15i64 });
    v.push(IjnRegionPoint { i: 4i64, j: 1i64, neg: true, digits: 78847309559367u64, e10: -23i64 });
    v.push(IjnRegionPoint { i: 4i64, j: 2i64, neg: false, digits: 12790717852285u64, e10: -21i64 });
    v.push(IjnRegionPoint { i: 4i64, j: 3i64, neg: false, digits: 48225372718507u64, e10: -20i64 });
    v.push(IjnRegionPoint { i: 5i64, j: 7i64, neg: false, digits: 22922076337661u64, e10: -19i64 });
    v.push(IjnRegionPoint { i: 6i64, j: 3i64, neg: true, digits: 16714766451061u64, e10: -24i64 });
    v.push(IjnRegionPoint { i: 6i64, j: 16i64, neg: true, digits: 21171472321355u64, e10: -16i64 });
    v.push(IjnRegionPoint { i: 6i64, j: 35i64, neg: true, digits: 23895741934104u64, e10: -12i64 });
    v.push(IjnRegionPoint { i: 7i64, j: 0i64, neg: true, digits: 5905956432427u64, e10: -30i64 });
    v.push(IjnRegionPoint { i: 7i64, j: 11i64, neg: true, digits: 12621808899101u64, e10: -19i64 });
    v.push(IjnRegionPoint { i: 7i64, j: 25i64, neg: true, digits: 38946842435739u64, e10: -15i64 });
    v.push(IjnRegionPoint { i: 8i64, j: 8i64, neg: false, digits: 11256211360459u64, e10: -24i64 });
    v.push(IjnRegionPoint { i: 8i64, j: 36i64, neg: true, digits: 82311340897998u64, e10: -13i64 });
    v.push(IjnRegionPoint { i: 9i64, j: 13i64, neg: false, digits: 19809712802088u64, e10: -21i64 });
    v.push(IjnRegionPoint { i: 10i64, j: 4i64, neg: false, digits: 10406965210174u64, e10: -32i64 });
    v.push(IjnRegionPoint { i: 10i64, j: 10i64, neg: true, digits: 10234747095929u64, e10: -26i64 });
    v.push(IjnRegionPoint { i: 10i64, j: 14i64, neg: true, digits: 10018179379511u64, e10: -22i64 });
    v.push(IjnRegionPoint { i: 16i64, j: 29i64, neg: true, digits: 80882908646985u64, e10: -24i64 });
    v.push(IjnRegionPoint { i: 16i64, j: 50i64, neg: false, digits: 10693031879409u64, e10: -14i64 });
    v.push(IjnRegionPoint { i: 18i64, j: 57i64, neg: true, digits: 33662250574171u64, e10: -14i64 });
    v.push(IjnRegionPoint { i: 20i64, j: 20i64, neg: false, digits: 89185845355421u64, e10: -38i64 });
    v.push(IjnRegionPoint { i: 20i64, j: 35i64, neg: false, digits: 30629316876232u64, e10: -26i64 });
    v.push(IjnRegionPoint { i: 20i64, j: 48i64, neg: true, digits: 42002467698208u64, e10: -19i64 });
    v.push(IjnRegionPoint { i: 21i64, j: 21i64, neg: true, digits: 59056029685639u64, e10: -39i64 });
    v.push(IjnRegionPoint { i: 22i64, j: 53i64, neg: false, digits: 37826947613457u64, e10: -19i64 });
    v.push(IjnRegionPoint { i: 23i64, j: 39i64, neg: true, digits: 12768608934681u64, e10: -28i64 });
    v.push(IjnRegionPoint { i: 24i64, j: 26i64, neg: false, digits: 73087610595061u64, e10: -42i64 });
    v.push(IjnRegionPoint { i: 24i64, j: 40i64, neg: false, digits: 55414715350778u64, e10: -30i64 });
    v.push(IjnRegionPoint { i: 24i64, j: 58i64, neg: true, digits: 9436970724121u64, e10: -19i64 });
    proof {
        assert(v@ =~= spec_region_2_residual());
    }
    v
}

/// The `REGION_3` coefficient table.
pub open spec fn spec_region_3() -> Seq<IjnRegionPoint> {
    seq![
        IjnRegionPoint { i: 0i64, j: 0i64, neg: true, digits: 15732845290239u64, e10: -12i64 },
        IjnRegionPoint { i: 0i64, j: 1i64, neg: false, digits: 20944396974307u64, e10: -12i64 },
        IjnRegionPoint { i: 0i64, j: 2i64, neg: true, digits: 76867707878716u64, e10: -13i64 },
        IjnRegionPoint { i: 0i64, j: 7i64, neg: false, digits: 26185947787954u64, e10: -13i64 },
        IjnRegionPoint { i: 0i64, j: 10i64, neg: true, digits: 2808078114862u64, e10: -12i64 },
        IjnRegionPoint { i: 0i64, j: 12i64, neg: false, digits: 12053369696517u64, e10: -13i64 },
        IjnRegionPoint { i: 0i64, j: 23i64, neg: true, digits: 84566812812502u64, e10: -16i64 },
        IjnRegionPoint { i: 1i64, j: 2i64, neg: true, digits: 12654315477714u64, e10: -13i64 },
        IjnRegionPoint { i: 1i64, j: 6i64, neg: true, digits: 11524407806681u64, e10: -13i64 },
        IjnRegionPoint { i: 1i64, j: 15i64, neg: false, digits: 88521043984318u64, e10: -14i64 },
        IjnRegionPoint { i: 1i64, j: 17i64, neg: true, digits: 64207765181607u64, e10: -14i64 },
        IjnRegionPoint { i: 2i64, j: 0i64, neg: false, digits: 38493460186671u64, e10: -14i64 },
        IjnRegionPoint { i: 2i64, j: 2i64, neg: true, digits: 85214708824206u64, e10: -14i64 },
        IjnRegionPoint { i: 2i64, j: 6i64, neg: false, digits: 48972281541877u64, e10: -13i64 },
        IjnRegionPoint { i: 2i64, j: 7i64, neg: true, digits: 30502617256965u64, e10: -13i64 },
        IjnRegionPoint { i: 2i64, j: 22i64, neg: false, digits: 39420536879154u64, e10: -15i64 },
        IjnRegionPoint { i: 2i64, j: 26i64, neg: false, digits: 12558408424308u64, e10: -14i64 },
        IjnRegionPoint { i: 3i64, j: 0i64, neg: true, digits: 2799932969871u64, e10: -13i64 },
        IjnRegionPoint { i: 3i64, j: 2i64, neg: false, digits: 1389979956946u64, e10: -12i64 },
        IjnRegionPoint { i: 3i64, j: 4i64, neg: true, digits: 2018991502357u64, e10: -12i64 },
        IjnRegionPoint { i: 3i64, j: 16i64, neg: true, digits: 82147637173963u64, e10: -16i64 },
        IjnRegionPoint { i: 3i64, j: 26i64, neg: true, digits: 47596035734923u64, e10: -14i64 },
        IjnRegionPoint { i: 4i64, j: 0i64, neg: false, digits: 439840744735u64, e10: -13i64 },
        IjnRegionPoint { i: 4i64, j: 2i64, neg: true, digits: 44476435428739u64, e10: -14i64 },
        IjnRegionPoint { i: 4i64, j: 4i64, neg: false, digits: 90572070719733u64, e10: -14i64 },
        IjnRegionPoint { i: 4i64, j: 26i64, neg: false, digits: 70522450087967u64, e10: -14i64 },
        IjnRegionPoint { i: 5i64, j: 1i64, neg: false, digits: 10770512626332u64, e10: -14i64 },
        IjnRegionPoint { i: 5i64, j: 3i64, neg: true, digits: 32913623258954u64, e10: -14i64 },
        IjnRegionPoint { i: 5i64, j: 26i64, neg: true, digits: 50871062041158u64, e10: -14i64 },
        IjnRegionPoint { i: 6i64, j: 0i64, neg: true, digits: 22175400873096u64, e10: -15i64 },
        IjnRegionPoint { i: 6i64, j: 2i64, neg: false, digits: 94260751665092u64, e10: -15i64 },
        IjnRegionPoint { i: 6i64, j: 26i64, neg: false, digits: 16436278447961u64, e10: -14i64 },
        IjnRegionPoint { i: 7i64, j: 2i64, neg: true, digits: 13503372241348u64, e10: -15i64 },
        IjnRegionPoint { i: 8i64, j: 26i64, neg: true, digits: 14834345352472u64, e10: -15i64 },
        IjnRegionPoint { i: 9i64, j: 2i64, neg: false, digits: 57922953628084u64, e10: -17i64 },
        IjnRegionPoint { i: 9i64, j: 26i64, neg: false, digits: 32308904703711u64, e10: -16i64 },
        IjnRegionPoint { i: 10i64, j: 0i64, neg: false, digits: 80964802996215u64, e10: -18i64 },
        IjnRegionPoint { i: 10i64, j: 1i64, neg: true, digits: 16557679795037u64, e10: -17i64 },
        IjnRegionPoint { i: 11i64, j: 26i64, neg: true, digits: 44923899061815u64, e10: -18i64 },
    ]
}

#[verifier::rlimit(60)]
pub fn region_3() -> (v: Vec<IjnRegionPoint>)
    ensures
        v@ == spec_region_3(),
        forall|k: int| 0 <= k < v@.len() ==> ijn_bounded(#[trigger] v@[k]),
{
    let mut v: Vec<IjnRegionPoint> = Vec::new();
    v.push(IjnRegionPoint { i: 0i64, j: 0i64, neg: true, digits: 15732845290239u64, e10: -12i64 });
    v.push(IjnRegionPoint { i: 0i64, j: 1i64, neg: false, digits: 20944396974307u64, e10: -12i64 });
    v.push(IjnRegionPoint { i: 0i64, j: 2i64, neg: true, digits: 76867707878716u64, e10: -13i64 });
    v.push(IjnRegionPoint { i: 0i64, j: 7i64, neg: false, digits: 26185947787954u64, e10: -13i64 });
    v.push(IjnRegionPoint { i: 0i64, j: 10i64, neg: true, digits: 2808078114862u64, e10: -12i64 });
    v.push(IjnRegionPoint { i: 0i64, j: 12i64, neg: false, digits: 12053369696517u64, e10: -13i64 });
    v.push(IjnRegionPoint { i: 0i64, j: 23i64, neg: true, digits: 84566812812502u64, e10: -16i64 });
    v.push(IjnRegionPoint { i: 1i64, j: 2i64, neg: true, digits: 12654315477714u64, e10: -13i64 });
    v.push(IjnRegionPoint { i: 1i64, j: 6i64, neg: true, digits: 11524407806681u64, e10: -13i64 });
    v.push(IjnRegionPoint { i: 1i64, j: 15i64, neg: false, digits: 88521043984318u64, e10: -14i64 });
    v.push(IjnRegionPoint { i: 1i64, j: 17i64, neg: true, digits: 64207765181607u64, e10: -14i64 });
    v.push(IjnRegionPoint { i: 2i64, j: 0i64, neg: false, digits: 38493460186671u64, e10: -14i64 });
    v.push(IjnRegionPoint { i: 2i64, j: 2i64, neg: true, digits: 85214708824206u64, e10: -14i64 });
    v.push(IjnRegionPoint { i: 2i64, j: 6i64, neg: false, digits: 48972281541877u64, e10: -13i64 });
    v.push(IjnRegionPoint { i: 2i64, j: 7i64, neg: true, digits: 30502617256965u64, e10: -13i64 });
    v.push(IjnRegionPoint { i: 2i64, j: 22i64, neg: false, digits: 39420536879154u64, e10: -15i64 });
    v.push(IjnRegionPoint { i: 2i64, j: 26i64, neg: false, digits: 12558408424308u64, e10: -14i64 });
    v.push(IjnRegionPoint { i: 3i64, j: 0i64, neg: true, digits: 2799932969871u64, e10: -13i64 });
    v.push(IjnRegionPoint { i: 3i64, j: 2i64, neg: false, digits: 1389979956946u64, e10: -12i64 });
    v.push(IjnRegionPoint { i: 3i64, j: 4i64, neg: true, digits: 2018991502357u64, e10: -12i64 });
    v.push(IjnRegionPoint { i: 3i64, j: 16i64, neg: true, digits: 82147637173963u64, e10: -16i64 });
    v.push(IjnRegionPoint { i: 3i64, j: 26i64, neg: true, digits: 47596035734923u64, e10: -14i64 });
    v.push(IjnRegionPoint { i: 4i64, j: 0i64, neg: false, digits: 439840744735u64, e10: -13i64 });
    v.push(IjnRegionPoint { i: 4i64, j: 2i64, neg: true, digits: 44476435428739u64, e10: -14i64 });
    v.push(IjnRegionPoint { i: 4i64, j: 4i64, neg: false, digits: 90572070719733u64, e10: -14i64 });
    v.push(IjnRegionPoint { i: 4i64, j: 26i64, neg: false, digits: 70522450087967u64, e10: -14i64 });
    v.push(IjnRegionPoint { i: 5i64, j: 1i64, neg: false, digits: 10770512626332u64, e10: -14i64 });
    v.push(IjnRegionPoint { i: 5i64, j: 3i64, neg: true, digits: 32913623258954u64, e10: -14i64 });
    v.push(IjnRegionPoint { i: 5i64, j: 26i64, neg: true, digits: 50871062041158u64, e10: -14i64 });
    v.push(IjnRegionPoint { i: 6i64, j: 0i64, neg: true, digits: 22175400873096u64, e10: -15i64 });
    v.push(IjnRegionPoint { i: 6i64, j: 2i64, neg: false, digits: 94260751665092u64, e10: -15i64 });
    v.push(IjnRegionPoint { i: 6i64, j: 26i64, neg: false, digits: 16436278447961u64, e10: -14i64 });
    v.push(IjnRegionPoint { i: 7i64, j: 2i64, neg: true, digits: 13503372241348u64, e10: -15i64 });
    v.push(IjnRegionPoint { i: 8i64, j: 26i64, neg: true, digits: 14834345352472u64, e10: -15i64 });
    v.push(IjnRegionPoint { i: 9i64, j: 2i64, neg: false, digits: 57922953628084u64, e10: -17i64 });
    v.push(IjnRegionPoint { i: 9i64, j: 26i64, neg: false, digits: 32308904703711u64, e10: -16i64 });
    v.push(IjnRegionPoint { i: 10i64, j: 0i64, neg: false, digits: 80964802996215u64, e10: -18i64 });
    v.push(IjnRegionPoint { i: 10i64, j: 1i64, neg: true, digits: 16557679795037u64, e10: -17i64 });
    v.push(IjnRegionPoint { i: 11i64, j: 26i64, neg: true, digits: 44923899061815u64, e10: -18i64 });
    proof {
        assert(v@ =~= spec_region_3());
    }
    v
}

/// The `REGION_5_IDEAL` coefficient table.
pub open spec fn spec_region_5_ideal() -> Seq<JnRegionPoint> {
    seq![
        JnRegionPoint { j: 0i64, neg: true, digits: 13179983674201u64, e10: -12i64 },
        JnRegionPoint { j: 1i64, neg: false, digits: 68540841634434u64, e10: -13i64 },
        JnRegionPoint { j: -3i64, neg: true, digits: 24805148933466u64, e10: -15i64 },
        JnRegionPoint { j: -2i64, neg: false, digits: 36901534980333u64, e10: -14i64 },
        JnRegionPoint { j: -1i64, neg: true, digits: 31161318213925u64, e10: -13i64 },
        JnRegionPoint { j: 2i64, neg: true, digits: 32961626538917u64, e10: -14i64 },
    ]
}

#[verifier::rlimit(60)]
pub fn region_5_ideal() -> (v: Vec<JnRegionPoint>)
    ensures
        v@ == spec_region_5_ideal(),
        forall|k: int| 0 <= k < v@.len() ==> jn_bounded(#[trigger] v@[k]),
{
    let mut v: Vec<JnRegionPoint> = Vec::new();
    v.push(JnRegionPoint { j: 0i64, neg: true, digits: 13179983674201u64, e10: -12i64 });
    v.push(JnRegionPoint { j: 1i64, neg: false, digits: 68540841634434u64, e10: -13i64 });
    v.push(JnRegionPoint { j: -3i64, neg: true, digits: 24805148933466u64, e10: -15i64 });
    v.push(JnRegionPoint { j: -2i64, neg: false, digits: 36901534980333u64, e10: -14i64 });
    v.push(JnRegionPoint { j: -1i64, neg: true, digits: 31161318213925u64, e10: -13i64 });
    v.push(JnRegionPoint { j: 2i64, neg: true, digits: 32961626538917u64, e10: -14i64 });
    proof {
        assert(v@ =~= spec_region_5_ideal());
    }
    v
}

/// The `REGION_5_RESIDUAL` coefficient table.
pub open spec fn spec_region_5_residual() -> Seq<IjnRegionPoint> {
    seq![
        IjnRegionPoint { i: 1i64, j: 1i64, neg: false, digits: 15736404855259u64, e10: -16i64 },
        IjnRegionPoint { i: 1i64, j: 2i64, neg: false, digits: 90153761673944u64, e10: -17i64 },
        IjnRegionPoint { i: 1i64, j: 3i64, neg: true, digits: 50270077677648u64, e10: -16i64 },
        IjnRegionPoint { i: 2i64, j: 3i64, neg: false, digits: 22440037409485u64, e10: -19i64 },
        IjnRegionPoint { i: 2i64, j: 9i64, neg: true, digits: 41163275453471u64, e10: -19i64 },
        IjnRegionPoint { i: 3i64, j: 7i64, neg: false, digits: 37919454822955u64, e10: -21i64 },
    ]
}

#[verifier::rlimit(60)]
pub fn region_5_residual() -> (v: Vec<IjnRegionPoint>)
    ensures
        v@ == spec_region_5_residual(),
        forall|k: int| 0 <= k < v@.len() ==> ijn_bounded(#[trigger] v@[k]),
{
    let mut v: Vec<IjnRegionPoint> = Vec::new();
    v.push(IjnRegionPoint { i: 1i64, j: 1i64, neg: false, digits: 15736404855259u64, e10: -16i64 });
    v.push(IjnRegionPoint { i: 1i64, j: 2i64, neg: false, digits: 90153761673944u64, e10: -17i64 });
    v.push(IjnRegionPoint { i: 1i64, j: 3i64, neg: true, digits: 50270077677648u64, e10: -16i64 });
    v.push(IjnRegionPoint { i: 2i64, j: 3i64, neg: false, digits: 22440037409485u64, e10: -19i64 });
    v.push(IjnRegionPoint { i: 2i64, j: 9i64, neg: true, digits: 41163275453471u64, e10: -19i64 });
    v.push(IjnRegionPoint { i: 3i64, j: 7i64, neg: false, digits: 37919454822955u64, e10: -21i64 });
    proof {
        assert(v@ =~= spec_region_5_residual());
    }
    v
}

/// The `BOUNDARY_34` coefficient table.
pub open spec fn spec_boundary_34() -> Seq<NRegionPoint> {
    seq![
        NRegionPoint { neg: false, digits: 34805185628969u64, e10: -11i64 },
        NRegionPoint { neg: true, digits: 11671859879975u64, e10: -13i64 },
        NRegionPoint { neg: false, digits: 10192970039326u64, e10: -16i64 },
        NRegionPoint { neg: false, digits: 57254459862746u64, e10: -11i64 },
        NRegionPoint { neg: false, digits: 1391883977887u64, e10: -11i64 },
    ]
}

#[verifier::rlimit(60)]
pub fn boundary_34() -> (v: Vec<NRegionPoint>)
    ensures
        v@ == spec_boundary_34(),
{
    let mut v: Vec<NRegionPoint> = Vec::new();
    v.push(NRegionPoint { neg: false, digits: 34805185628969u64, e10: -11i64 });
    v.push(NRegionPoint { neg: true, digits: 11671859879975u64, e10: -13i64 });
    v.push(NRegionPoint { neg: false, digits: 10192970039326u64, e10: -16i64 });
    v.push(NRegionPoint { neg: false, digits: 57254459862746u64, e10: -11i64 });
    v.push(NRegionPoint { neg: false, digits: 1391883977887u64, e10: -11i64 });
    proof {
        assert(v@ =~= spec_boundary_34());
    }
    v
}

/// The `REGION_4` coefficient table.
pub open spec fn spec_region_4() -> Seq<NRegionPoint> {
    seq![
        NRegionPoint { neg: false, digits: 11670521452767u64, e10: -10i64 },
        NRegionPoint { neg: true, digits: 72421316703206u64, e10: -8i64 },
        NRegionPoint { neg: true, digits: 17073846940092u64, e10: -12i64 },
        NRegionPoint { neg: false, digits: 1202082470247u64, e10: -8i64 },
        NRegionPoint { neg: true, digits: 32325550322333u64, e10: -7i64 },
        NRegionPoint { neg: false, digits: 1491510861353u64, e10: -11i64 },
        NRegionPoint { neg: true, digits: 48232657361591u64, e10: -10i64 },
        NRegionPoint { neg: false, digits: 40511340542057u64, e10: -8i64 },
        NRegionPoint { neg: true, digits: 23855557567849u64, e10: -14i64 },
        NRegionPoint { neg: false, digits: 65017534844798u64, e10: -11i64 },
    ]
}

#[verifier::rlimit(60)]
pub fn region_4() -> (v: Vec<NRegionPoint>)
    ensures
        v@ == spec_region_4(),
{
    let mut v: Vec<NRegionPoint> = Vec::new();
    v.push(NRegionPoint { neg: false, digits: 11670521452767u64, e10: -10i64 });
    v.push(NRegionPoint { neg: true, digits: 72421316703206u64, e10: -8i64 });
    v.push(NRegionPoint { neg: true, digits: 17073846940092u64, e10: -12i64 });
    v.push(NRegionPoint { neg: false, digits: 1202082470247u64, e10: -8i64 });
    v.push(NRegionPoint { neg: true, digits: 32325550322333u64, e10: -7i64 });
    v.push(NRegionPoint { neg: false, digits: 1491510861353u64, e10: -11i64 });
    v.push(NRegionPoint { neg: true, digits: 48232657361591u64, e10: -10i64 });
    v.push(NRegionPoint { neg: false, digits: 40511340542057u64, e10: -8i64 });
    v.push(NRegionPoint { neg: true, digits: 23855557567849u64, e10: -14i64 });
    v.push(NRegionPoint { neg: false, digits: 65017534844798u64, e10: -11i64 });
    proof {
        assert(v@ =~= spec_region_4());
    }
    v
}

/// The stand-alone first coefficient of the region-3 correlation.
pub open spec fn spec_region_3_n1() -> NRegionPoint {
    NRegionPoint { neg: false, digits: 10658070028513u64, e10: -13i64 }
}

pub fn region_3_n1() -> (r: NRegionPoint)
    ensures
        r == spec_region_3_n1(),
{
    NRegionPoint { neg: false, digits: 10658070028513u64, e10: -13i64 }
}

} // verus!
