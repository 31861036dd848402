//! The conversion engine: a fixed allow-list of directly convertible unit
//! pairs, each mapped to an exact rational factor.
//!
//! Every relationship has one canonical factor; the opposite direction is its
//! exact reciprocal, obtained by swapping numerator and denominator.  The
//! engine never chains conversions: a pair absent from the table fails with
//! `IrreconcilableUnits` even when a two-step route would exist.

use vstd::prelude::*;

verus! {

use crate::error::Error;
use crate::units::Unit;

/// An exact conversion factor: the ratio `num / den`.
///
/// Converting a value from one unit to another multiplies the value by the
/// factor of that ordered pair.  Both components are at least 1, so a factor
/// is always positive and finite.
#[derive(Clone, Copy, Debug, PartialEq, Eq, Structural)]
pub struct Factor {
    pub num: u64,
    pub den: u64,
}

impl Factor {
    /// Both components are nonzero, so the ratio is well defined and positive.
    pub open spec fn wf(&self) -> bool {
        self.num >= 1 && self.den >= 1
    }
}

/// The factor table: the ratio each directly convertible ordered pair of
/// units is converted by, or `None` when the pair is not in the allow-list.
///
/// Each decimal constant of the table appears as its integer digits over the
/// matching power of ten (twelve inches per foot is 12/1, 61.0237 cubic
/// inches per liter is 610237/10000, and so on).  Derived entries are
/// fixed products of base entries: a cubic foot is 12^3 = 1728 cubic inches,
/// a liter is 610237/10000 * 1/1728 = 610237/17280000 cubic feet, and a
/// kilowatt is 1000 * 73756/100000 = 73756/100 foot-pounds per second.
pub open spec fn spec_direct_factor(from: Unit, to: Unit) -> Option<Factor> {
    match (from, to) {
        (Unit::Foot, Unit::Inch) => Some(Factor { num: 12, den: 1 }),
        (Unit::Inch, Unit::Foot) => Some(Factor { num: 1, den: 12 }),
        (Unit::CubicFoot, Unit::CubicInch) => Some(Factor { num: 1728, den: 1 }),
        (Unit::CubicInch, Unit::CubicFoot) => Some(Factor { num: 1, den: 1728 }),
        (Unit::Liter, Unit::CubicInch) => Some(Factor { num: 610237, den: 10000 }),
        (Unit::CubicInch, Unit::Liter) => Some(Factor { num: 10000, den: 610237 }),
        (Unit::Liter, Unit::CubicFoot) => Some(Factor { num: 610237, den: 17280000 }),
        (Unit::CubicFoot, Unit::Liter) => Some(Factor { num: 17280000, den: 610237 }),
        (Unit::Joule, Unit::BritishThermalUnit) => Some(Factor { num: 10000000, den: 10550558526 }),
        (Unit::BritishThermalUnit, Unit::Joule) => Some(Factor { num: 10550558526, den: 10000000 }),
        (Unit::Watt, Unit::KiloWatt) => Some(Factor { num: 1, den: 1000 }),
        (Unit::KiloWatt, Unit::Watt) => Some(Factor { num: 1000, den: 1 }),
        (Unit::Watt, Unit::FootPoundsPerSecond) => Some(Factor { num: 73756, den: 100000 }),
        (Unit::FootPoundsPerSecond, Unit::Watt) => Some(Factor { num: 100000, den: 73756 }),
        (Unit::KiloWatt, Unit::FootPoundsPerSecond) => Some(Factor { num: 73756, den: 100 }),
        (Unit::FootPoundsPerSecond, Unit::KiloWatt) => Some(Factor { num: 100, den: 73756 }),
        (Unit::PoundForce, Unit::Newton) => Some(Factor { num: 44482216, den: 10000000 }),
        (Unit::Newton, Unit::PoundForce) => Some(Factor { num: 10000000, den: 44482216 }),
        (Unit::Gram, Unit::Pound) => Some(Factor { num: 1000, den: 453592 }),
        (Unit::Pound, Unit::Gram) => Some(Factor { num: 453592, den: 1000 }),
        (Unit::Second, Unit::Minute) => Some(Factor { num: 1, den: 60 }),
        (Unit::Minute, Unit::Second) => Some(Factor { num: 60, den: 1 }),
        (Unit::Pascal, Unit::PoundForcePerSquareInch) => Some(Factor { num: 100, den: 689476 }),
        (Unit::PoundForcePerSquareInch, Unit::Pascal) => Some(Factor { num: 689476, den: 100 }),
        (Unit::Meter, Unit::Foot) => Some(Factor { num: 328084, den: 100000 }),
        (Unit::Foot, Unit::Meter) => Some(Factor { num: 100000, den: 328084 }),
        _ => None,
    }
}

/// Resolves an ordered unit pair against the allow-list of direct
/// conversions.
///
/// Returns the pair's exact factor, or `IrreconcilableUnits` carrying both
/// units when the pair has no direct conversion.
pub fn direct_factor(from: Unit, to: Unit) -> (r: Result<Factor, Error>)
    ensures
        r is Ok <==> spec_direct_factor(from, to) is Some,
        r matches Ok(f) ==> Some(f) == spec_direct_factor(from, to) && f.wf(),
        r matches Err(e) ==> (e matches Error::IrreconcilableUnits { original_unit, target_unit }
            && original_unit == from && target_unit == to),
{
    match (from, to) {
        (Unit::Foot, Unit::Inch) => Ok(Factor { num: 12, den: 1 }),
        (Unit::Inch, Unit::Foot) => Ok(Factor { num: 1, den: 12 }),
        (Unit::CubicFoot, Unit::CubicInch) => Ok(Factor { num: 1728, den: 1 }),
        (Unit::CubicInch, Unit::CubicFoot) => Ok(Factor { num: 1, den: 1728 }),
        (Unit::Liter, Unit::CubicInch) => Ok(Factor { num: 610237, den: 10000 }),
        (Unit::CubicInch, Unit::Liter) => Ok(Factor { num: 10000, den: 610237 }),
        (Unit::Liter, Unit::CubicFoot) => Ok(Factor { num: 610237, den: 17280000 }),
        (Unit::CubicFoot, Unit::Liter) => Ok(Factor { num: 17280000, den: 610237 }),
        (Unit::Joule, Unit::BritishThermalUnit) => Ok(Factor { num: 10000000, den: 10550558526 }),
        (Unit::BritishThermalUnit, Unit::Joule) => Ok(Factor { num: 10550558526, den: 10000000 }),
        (Unit::Watt, Unit::KiloWatt) => Ok(Factor { num: 1, den: 1000 }),
        (Unit::KiloWatt, Unit::Watt) => Ok(Factor { num: 1000, den: 1 }),
        (Unit::Watt, Unit::FootPoundsPerSecond) => Ok(Factor { num: 73756, den: 100000 }),
        (Unit::FootPoundsPerSecond, Unit::Watt) => Ok(Factor { num: 100000, den: 73756 }),
        (Unit::KiloWatt, Unit::FootPoundsPerSecond) => Ok(Factor { num: 73756, den: 100 }),
        (Unit::FootPoundsPerSecond, Unit::KiloWatt) => Ok(Factor { num: 100, den: 73756 }),
        (Unit::PoundForce, Unit::Newton) => Ok(Factor { num: 44482216, den: 10000000 }),
        (Unit::Newton, Unit::PoundForce) => Ok(Factor { num: 10000000, den: 44482216 }),
        (Unit::Gram, Unit::Pound) => Ok(Factor { num: 1000, den: 453592 }),
        (Unit::Pound, Unit::Gram) => Ok(Factor { num: 453592, den: 1000 }),
        (Unit::Second, Unit::Minute) => Ok(Factor { num: 1, den: 60 }),
        (Unit::Minute, Unit::Second) => Ok(Factor { num: 60, den: 1 }),
        (Unit::Pascal, Unit::PoundForcePerSquareInch) => Ok(Factor { num: 100, den: 689476 }),
        (Unit::PoundForcePerSquareInch, Unit::Pascal) => Ok(Factor { num: 689476, den: 100 }),
        (Unit::Meter, Unit::Foot) => Ok(Factor { num: 328084, den: 100000 }),
        (Unit::Foot, Unit::Meter) => Ok(Factor { num: 100000, den: 328084 }),
        _ => Err(Error::IrreconcilableUnits { original_unit: from, target_unit: to }),
    }
}

/// The composite factor for grams per second to pounds per minute: the mass
/// factor times the time factor.  The flow-rate quantities are not units of
/// the vocabulary, so this conversion stands beside the pair table rather
/// than in it.
pub fn gram_per_second_to_pound_per_minute() -> (r: Factor)
    ensures
        r.wf(),
        (spec_direct_factor(Unit::Gram, Unit::Pound) matches Some(g)
            && spec_direct_factor(Unit::Minute, Unit::Second) matches Some(m)
            && r.num == g.num * m.num && r.den == g.den * m.den),
{
    Factor { num: 60000, den: 453592 }
}

/// Every direct pair has a declared inverse pair, and the two factors are
/// exact reciprocals of one another: their product is exactly 1.  A
/// conversion followed by its inverse therefore returns the original value
/// in exact arithmetic.
#[verifier::rlimit(50)]
pub proof fn lemma_direct_pair_inverse(from: Unit, to: Unit)
    ensures
        spec_direct_factor(from, to) matches Some(f) ==> (spec_direct_factor(to, from)
            matches Some(g) && f.num * g.num == f.den * g.den),
{
    match (from, to) {
        (Unit::Foot, Unit::Inch) => {},
        (Unit::Inch, Unit::Foot) => {},
        (Unit::CubicFoot, Unit::CubicInch) => {},
        (Unit::CubicInch, Unit::CubicFoot) => {},
        (Unit::Liter, Unit::CubicInch) => {},
        (Unit::CubicInch, Unit::Liter) => {},
        (Unit::Liter, Unit::CubicFoot) => {},
        (Unit::CubicFoot, Unit::Liter) => {},
        (Unit::Joule, Unit::BritishThermalUnit) => {},
        (Unit::BritishThermalUnit, Unit::Joule) => {},
        (Unit::Watt, Unit::KiloWatt) => {},
        (Unit::KiloWatt, Unit::Watt) => {},
        (Unit::Watt, Unit::FootPoundsPerSecond) => {},
        (Unit::FootPoundsPerSecond, Unit::Watt) => {},
        (Unit::KiloWatt, Unit::FootPoundsPerSecond) => {},
        (Unit::FootPoundsPerSecond, Unit::KiloWatt) => {},
        (Unit::PoundForce, Unit::Newton) => {},
        (Unit::Newton, Unit::PoundForce) => {},
        (Unit::Gram, Unit::Pound) => {},
        (Unit::Pound, Unit::Gram) => {},
        (Unit::Second, Unit::Minute) => {},
        (Unit::Minute, Unit::Second) => {},
        (Unit::Pascal, Unit::PoundForcePerSquareInch) => {},
        (Unit::PoundForcePerSquareInch, Unit::Pascal) => {},
        (Unit::Meter, Unit::Foot) => {},
        (Unit::Foot, Unit::Meter) => {},
        _ => {
            assert(spec_direct_factor(from, to) is None);
        },
    }
}

/// The derived entries of the table are coherent with the base entries they
/// are products of: cubing the foot-to-inch factor gives the cubic-foot to
/// cubic-inch factor, going liter to cubic inch to cubic foot gives the
/// liter to cubic-foot factor, and going kilowatt to watt to foot-pounds per
/// second gives the kilowatt to foot-pounds-per-second factor.
pub proof fn lemma_composite_factors()
    ensures
        (spec_direct_factor(Unit::Foot, Unit::Inch) matches Some(i)
            && spec_direct_factor(Unit::CubicFoot, Unit::CubicInch) matches Some(c)
            && c.num * (i.den * i.den * i.den) == (i.num * i.num * i.num) * c.den),
        (spec_direct_factor(Unit::Liter, Unit::CubicInch) matches Some(li)
            && spec_direct_factor(Unit::CubicInch, Unit::CubicFoot) matches Some(ic)
            && spec_direct_factor(Unit::Liter, Unit::CubicFoot) matches Some(lc)
            && lc.num * (li.den * ic.den) == (li.num * ic.num) * lc.den),
        (spec_direct_factor(Unit::KiloWatt, Unit::Watt) matches Some(kw)
            && spec_direct_factor(Unit::Watt, Unit::FootPoundsPerSecond) matches Some(wf)
            && spec_direct_factor(Unit::KiloWatt, Unit::FootPoundsPerSecond) matches Some(kf)
            && kf.num * (kw.den * wf.den) == (kw.num * wf.num) * kf.den),
{
}

} // verus!
