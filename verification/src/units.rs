//! The unit vocabulary: a closed enumeration of physical units, the textual
//! aliases that parse to each unit, and the canonical display symbol of each.

use vstd::prelude::*;

verus! {

use crate::error::Error;
use crate::text::str_eq;

/// A physical unit known to the conversion engine.
///
/// Units carry no scale factor of their own; factors are keyed by ordered
/// unit pairs in [`crate::convert`].  `PoundForcePerSquareInch` has a display
/// symbol but no textual alias: it can only be named in code, never parsed.
#[derive(Clone, Copy, Debug, PartialEq, Eq, Structural)]
pub enum Unit {
    BritishThermalUnit,
    CubicFoot,
    CubicInch,
    Foot,
    FootPoundsPerSecond,
    Gram,
    Inch,
    Joule,
    KiloWatt,
    Liter,
    Meter,
    Minute,
    Newton,
    Pascal,
    Pound,
    PoundForce,
    PoundForcePerSquareInch,
    Second,
    Watt,
}

/// The unit denoted by a token, or `None` when no alias matches.
///
/// Lookup is exact: no trimming, no partial matches, and only the listed
/// case variants of each alias are accepted.
pub open spec fn unit_of_token(s: Seq<char>) -> Option<Unit> {
    if s == "btu"@ || s == "Btu"@ || s == "BTU"@ {
        Some(Unit::BritishThermalUnit)
    } else if s == "ft"@ || s == "FT"@ {
        Some(Unit::Foot)
    } else if s == "in"@ || s == "IN"@ {
        Some(Unit::Inch)
    } else if s == "ftlb/s"@ || s == "ft-lb/s"@ || s == "ft lb/s"@ || s == "ft lb / s"@
        || s == "FTLB/S"@ || s == "FT-LB/S"@ || s == "FT LB/S"@ {
        Some(Unit::FootPoundsPerSecond)
    } else if s == "ft3"@ || s == "Ft3"@ || s == "FT3"@ {
        Some(Unit::CubicFoot)
    } else if s == "g"@ {
        Some(Unit::Gram)
    } else if s == "in3"@ || s == "In3"@ || s == "IN3"@ {
        Some(Unit::CubicInch)
    } else if s == "j"@ || s == "J"@ {
        Some(Unit::Joule)
    } else if s == "kw"@ || s == "kW"@ || s == "KW"@ {
        Some(Unit::KiloWatt)
    } else if s == "l"@ || s == "L"@ {
        Some(Unit::Liter)
    } else if s == "m"@ || s == "M"@ {
        Some(Unit::Meter)
    } else if s == "min"@ || s == "Min"@ || s == "MIN"@ {
        Some(Unit::Minute)
    } else if s == "n"@ || s == "N"@ {
        Some(Unit::Newton)
    } else if s == "lb"@ || s == "LB"@ {
        Some(Unit::Pound)
    } else if s == "lbf"@ || s == "lb-f"@ || s == "LBF"@ || s == "LB-F"@ {
        Some(Unit::PoundForce)
    } else if s == "pa"@ || s == "Pa"@ {
        Some(Unit::Pascal)
    } else if s == "s"@ || s == "sec"@ || s == "S"@ || s == "Sec"@ || s == "SEC"@ {
        Some(Unit::Second)
    } else if s == "w"@ || s == "W"@ {
        Some(Unit::Watt)
    } else {
        None
    }
}

/// The canonical display symbol of a unit.
pub open spec fn spec_symbol(u: Unit) -> Seq<char> {
    match u {
        Unit::BritishThermalUnit => "Btu"@,
        Unit::CubicFoot => "ft\u{b3}"@,
        Unit::CubicInch => "in\u{b3}"@,
        Unit::Foot => "ft"@,
        Unit::FootPoundsPerSecond => "ft-lb/s"@,
        Unit::Gram => "g"@,
        Unit::Inch => "in"@,
        Unit::Joule => "J"@,
        Unit::KiloWatt => "kW"@,
        Unit::Liter => "L"@,
        Unit::Meter => "m"@,
        Unit::Minute => "min"@,
        Unit::Newton => "N"@,
        Unit::Pascal => "Pa"@,
        Unit::Pound => "lb"@,
        Unit::PoundForce => "lb-f"@,
        Unit::PoundForcePerSquareInch => "lbf/in\u{b2}"@,
        Unit::Second => "s"@,
        Unit::Watt => "W"@,
    }
}

/// One representative alias of each unit: the token the unit is most plainly
/// written as.  `PoundForcePerSquareInch` has no alias at all, so it is
/// mapped to the empty token, which parses to nothing.
pub open spec fn canonical_alias(u: Unit) -> Seq<char> {
    match u {
        Unit::BritishThermalUnit => "btu"@,
        Unit::CubicFoot => "ft3"@,
        Unit::CubicInch => "in3"@,
        Unit::Foot => "ft"@,
        Unit::FootPoundsPerSecond => "ftlb/s"@,
        Unit::Gram => "g"@,
        Unit::Inch => "in"@,
        Unit::Joule => "j"@,
        Unit::KiloWatt => "kw"@,
        Unit::Liter => "l"@,
        Unit::Meter => "m"@,
        Unit::Minute => "min"@,
        Unit::Newton => "n"@,
        Unit::Pascal => "pa"@,
        Unit::Pound => "lb"@,
        Unit::PoundForce => "lbf"@,
        Unit::PoundForcePerSquareInch => ""@,
        Unit::Second => "s"@,
        Unit::Watt => "w"@,
    }
}

impl Unit {
    /// Parses a unit token against the alias table.
    ///
    /// Returns `UnrecognizedUnit` carrying the offending token when no alias
    /// matches.
    pub fn from_str(text: &str) -> (r: Result<Unit, Error>)
        ensures
            r is Ok <==> unit_of_token(text@) is Some,
            r matches Ok(u) ==> unit_of_token(text@) == Some(u),
            r matches Err(e) ==> (e matches Error::UnrecognizedUnit { unit } && unit@ == text@),
    {
        if str_eq(text, "btu") || str_eq(text, "Btu") || str_eq(text, "BTU") {
            Ok(Unit::BritishThermalUnit)
        } else if str_eq(text, "ft") || str_eq(text, "FT") {
            Ok(Unit::Foot)
        } else if str_eq(text, "in") || str_eq(text, "IN") {
            Ok(Unit::Inch)
        } else if str_eq(text, "ftlb/s") || str_eq(text, "ft-lb/s") || str_eq(text, "ft lb/s")
            || str_eq(text, "ft lb / s") || str_eq(text, "FTLB/S") || str_eq(text, "FT-LB/S")
            || str_eq(text, "FT LB/S") {
            Ok(Unit::FootPoundsPerSecond)
        } else if str_eq(text, "ft3") || str_eq(text, "Ft3") || str_eq(text, "FT3") {
            Ok(Unit::CubicFoot)
        } else if str_eq(text, "g") {
            Ok(Unit::Gram)
        } else if str_eq(text, "in3") || str_eq(text, "In3") || str_eq(text, "IN3") {
            Ok(Unit::CubicInch)
        } else if str_eq(text, "j") || str_eq(text, "J") {
            Ok(Unit::Joule)
        } else if str_eq(text, "kw") || str_eq(text, "kW") || str_eq(text, "KW") {
            Ok(Unit::KiloWatt)
        } else if str_eq(text, "l") || str_eq(text, "L") {
            Ok(Unit::Liter)
        } else if str_eq(text, "m") || str_eq(text, "M") {
            Ok(Unit::Meter)
        } else if str_eq(text, "min") || str_eq(text, "Min") || str_eq(text, "MIN") {
            Ok(Unit::Minute)
        } else if str_eq(text, "n") || str_eq(text, "N") {
            Ok(Unit::Newton)
        } else if str_eq(text, "lb") || str_eq(text, "LB") {
            Ok(Unit::Pound)
        } else if str_eq(text, "lbf") || str_eq(text, "lb-f") || str_eq(text, "LBF")
            || str_eq(text, "LB-F") {
            Ok(Unit::PoundForce)
        } else if str_eq(text, "pa") || str_eq(text, "Pa") {
            Ok(Unit::Pascal)
        } else if str_eq(text, "s") || str_eq(text, "sec") || str_eq(text, "S")
            || str_eq(text, "Sec") || str_eq(text, "SEC") {
            Ok(Unit::Second)
        } else if str_eq(text, "w") || str_eq(text, "W") {
            Ok(Unit::Watt)
        } else {
            Err(Error::UnrecognizedUnit { unit: String::from_str(text) })
        }
    }

    /// Renders the canonical display symbol.
    pub fn symbol(&self) -> (r: String)
        ensures
            r@ == spec_symbol(*self),
    {
        match *self {
            Unit::BritishThermalUnit => String::from_str("Btu"),
            Unit::CubicFoot => String::from_str("ft\u{b3}"),
            Unit::CubicInch => String::from_str("in\u{b3}"),
            Unit::Foot => String::from_str("ft"),
            Unit::FootPoundsPerSecond => String::from_str("ft-lb/s"),
            Unit::Gram => String::from_str("g"),
            Unit::Inch => String::from_str("in"),
            Unit::Joule => String::from_str("J"),
            Unit::KiloWatt => String::from_str("kW"),
            Unit::Liter => String::from_str("L"),
            Unit::Meter => String::from_str("m"),
            Unit::Minute => String::from_str("min"),
            Unit::Newton => String::from_str("N"),
            Unit::Pascal => String::from_str("Pa"),
            Unit::Pound => String::from_str("lb"),
            Unit::PoundForce => String::from_str("lb-f"),
            Unit::PoundForcePerSquareInch => String::from_str("lbf/in\u{b2}"),
            Unit::Second => String::from_str("s"),
            Unit::Watt => String::from_str("W"),
        }
    }
}

/// The length and the characters of every alias and symbol literal, stated
/// as facts a caller can use directly; equality and inequality of tokens
/// follow from them.
#[verifier::rlimit(100)]
proof fn lemma_literal_facts()
    ensures
        "btu"@.len() == 3 && "btu"@[0] == 'b' && "btu"@[1] == 't' && "btu"@[2] == 'u',
        "Btu"@.len() == 3 && "Btu"@[0] == 'B' && "Btu"@[1] == 't' && "Btu"@[2] == 'u',
        "BTU"@.len() == 3 && "BTU"@[0] == 'B' && "BTU"@[1] == 'T' && "BTU"@[2] == 'U',
        "ft"@.len() == 2 && "ft"@[0] == 'f' && "ft"@[1] == 't',
        "FT"@.len() == 2 && "FT"@[0] == 'F' && "FT"@[1] == 'T',
        "in"@.len() == 2 && "in"@[0] == 'i' && "in"@[1] == 'n',
        "IN"@.len() == 2 && "IN"@[0] == 'I' && "IN"@[1] == 'N',
        "ftlb/s"@.len() == 6 && "ftlb/s"@[0] == 'f' && "ftlb/s"@[1] == 't' && "ftlb/s"@[2] == 'l' && "ftlb/s"@[3] == 'b' && "ftlb/s"@[4] == '/' && "ftlb/s"@[5] == 's',
        "ft-lb/s"@.len() == 7 && "ft-lb/s"@[0] == 'f' && "ft-lb/s"@[1] == 't' && "ft-lb/s"@[2] == '-' && "ft-lb/s"@[3] == 'l' && "ft-lb/s"@[4] == 'b' && "ft-lb/s"@[5] == '/' && "ft-lb/s"@[6] == 's',
        "ft lb/s"@.len() == 7 && "ft lb/s"@[0] == 'f' && "ft lb/s"@[1] == 't' && "ft lb/s"@[2] == ' ' && "ft lb/s"@[3] == 'l' && "ft lb/s"@[4] == 'b' && "ft lb/s"@[5] == '/' && "ft lb/s"@[6] == 's',
        "ft lb / s"@.len() == 9 && "ft lb / s"@[0] == 'f' && "ft lb / s"@[1] == 't' && "ft lb / s"@[2] == ' ' && "ft lb / s"@[3] == 'l' && "ft lb / s"@[4] == 'b' && "ft lb / s"@[5] == ' ' && "ft lb / s"@[6] == '/' && "ft lb / s"@[7] == ' ' && "ft lb / s"@[8] == 's',
        "FTLB/S"@.len() == 6 && "FTLB/S"@[0] == 'F' && "FTLB/S"@[1] == 'T' && "FTLB/S"@[2] == 'L' && "FTLB/S"@[3] == 'B' && "FTLB/S"@[4] == '/' && "FTLB/S"@[5] == 'S',
        "FT-LB/S"@.len() == 7 && "FT-LB/S"@[0] == 'F' && "FT-LB/S"@[1] == 'T' && "FT-LB/S"@[2] == '-' && "FT-LB/S"@[3] == 'L' && "FT-LB/S"@[4] == 'B' && "FT-LB/S"@[5] == '/' && "FT-LB/S"@[6] == 'S',
        "FT LB/S"@.len() == 7 && "FT LB/S"@[0] == 'F' && "FT LB/S"@[1] == 'T' && "FT LB/S"@[2] == ' ' && "FT LB/S"@[3] == 'L' && "FT LB/S"@[4] == 'B' && "FT LB/S"@[5] == '/' && "FT LB/S"@[6] == 'S',
        "ft3"@.len() == 3 && "ft3"@[0] == 'f' && "ft3"@[1] == 't' && "ft3"@[2] == '3',
        "Ft3"@.len() == 3 && "Ft3"@[0] == 'F' && "Ft3"@[1] == 't' && "Ft3"@[2] == '3',
        "FT3"@.len() == 3 && "FT3"@[0] == 'F' && "FT3"@[1] == 'T' && "FT3"@[2] == '3',
        "g"@.len() == 1 && "g"@[0] == 'g',
        "in3"@.len() == 3 && "in3"@[0] == 'i' && "in3"@[1] == 'n' && "in3"@[2] == '3',
        "In3"@.len() == 3 && "In3"@[0] == 'I' && "In3"@[1] == 'n' && "In3"@[2] == '3',
        "IN3"@.len() == 3 && "IN3"@[0] == 'I' && "IN3"@[1] == 'N' && "IN3"@[2] == '3',
        "j"@.len() == 1 && "j"@[0] == 'j',
        "J"@.len() == 1 && "J"@[0] == 'J',
        "kw"@.len() == 2 && "kw"@[0] == 'k' && "kw"@[1] == 'w',
        "kW"@.len() == 2 && "kW"@[0] == 'k' && "kW"@[1] == 'W',
        "KW"@.len() == 2 && "KW"@[0] == 'K' && "KW"@[1] == 'W',
        "l"@.len() == 1 && "l"@[0] == 'l',
        "L"@.len() == 1 && "L"@[0] == 'L',
        "m"@.len() == 1 && "m"@[0] == 'm',
        "M"@.len() == 1 && "M"@[0] == 'M',
        "min"@.len() == 3 && "min"@[0] == 'm' && "min"@[1] == 'i' && "min"@[2] == 'n',
        "Min"@.len() == 3 && "Min"@[0] == 'M' && "Min"@[1] == 'i' && "Min"@[2] == 'n',
        "MIN"@.len() == 3 && "MIN"@[0] == 'M' && "MIN"@[1] == 'I' && "MIN"@[2] == 'N',
        "n"@.len() == 1 && "n"@[0] == 'n',
        "N"@.len() == 1 && "N"@[0] == 'N',
        "lb"@.len() == 2 && "lb"@[0] == 'l' && "lb"@[1] == 'b',
        "LB"@.len() == 2 && "LB"@[0] == 'L' && "LB"@[1] == 'B',
        "lbf"@.len() == 3 && "lbf"@[0] == 'l' && "lbf"@[1] == 'b' && "lbf"@[2] == 'f',
        "lb-f"@.len() == 4 && "lb-f"@[0] == 'l' && "lb-f"@[1] == 'b' && "lb-f"@[2] == '-' && "lb-f"@[3] == 'f',
        "LBF"@.len() == 3 && "LBF"@[0] == 'L' && "LBF"@[1] == 'B' && "LBF"@[2] == 'F',
        "LB-F"@.len() == 4 && "LB-F"@[0] == 'L' && "LB-F"@[1] == 'B' && "LB-F"@[2] == '-' && "LB-F"@[3] == 'F',
        "pa"@.len() == 2 && "pa"@[0] == 'p' && "pa"@[1] == 'a',
        "Pa"@.len() == 2 && "Pa"@[0] == 'P' && "Pa"@[1] == 'a',
        "s"@.len() == 1 && "s"@[0] == 's',
        "sec"@.len() == 3 && "sec"@[0] == 's' && "sec"@[1] == 'e' && "sec"@[2] == 'c',
        "S"@.len() == 1 && "S"@[0] == 'S',
        "Sec"@.len() == 3 && "Sec"@[0] == 'S' && "Sec"@[1] == 'e' && "Sec"@[2] == 'c',
        "SEC"@.len() == 3 && "SEC"@[0] == 'S' && "SEC"@[1] == 'E' && "SEC"@[2] == 'C',
        "w"@.len() == 1 && "w"@[0] == 'w',
        "W"@.len() == 1 && "W"@[0] == 'W',
        "ft\u{b3}"@.len() == 3 && "ft\u{b3}"@[0] == 'f' && "ft\u{b3}"@[1] == 't' && "ft\u{b3}"@[2] == '\u{b3}',
        "in\u{b3}"@.len() == 3 && "in\u{b3}"@[0] == 'i' && "in\u{b3}"@[1] == 'n' && "in\u{b3}"@[2] == '\u{b3}',
        "lbf/in\u{b2}"@.len() == 7 && "lbf/in\u{b2}"@[0] == 'l' && "lbf/in\u{b2}"@[1] == 'b' && "lbf/in\u{b2}"@[2] == 'f' && "lbf/in\u{b2}"@[3] == '/' && "lbf/in\u{b2}"@[4] == 'i' && "lbf/in\u{b2}"@[5] == 'n' && "lbf/in\u{b2}"@[6] == '\u{b2}',
        ""@.len() == 0,
{
    reveal_strlit("btu");
    reveal_strlit("Btu");
    reveal_strlit("BTU");
    reveal_strlit("ft");
    reveal_strlit("FT");
    reveal_strlit("in");
    reveal_strlit("IN");
    reveal_strlit("ftlb/s");
    reveal_strlit("ft-lb/s");
    reveal_strlit("ft lb/s");
    reveal_strlit("ft lb / s");
    reveal_strlit("FTLB/S");
    reveal_strlit("FT-LB/S");
    reveal_strlit("FT LB/S");
    reveal_strlit("ft3");
    reveal_strlit("Ft3");
    reveal_strlit("FT3");
    reveal_strlit("g");
    reveal_strlit("in3");
    reveal_strlit("In3");
    reveal_strlit("IN3");
    reveal_strlit("j");
    reveal_strlit("J");
    reveal_strlit("kw");
    reveal_strlit("kW");
    reveal_strlit("KW");
    reveal_strlit("l");
    reveal_strlit("L");
    reveal_strlit("m");
    reveal_strlit("M");
    reveal_strlit("min");
    reveal_strlit("Min");
    reveal_strlit("MIN");
    reveal_strlit("n");
    reveal_strlit("N");
    reveal_strlit("lb");
    reveal_strlit("LB");
    reveal_strlit("lbf");
    reveal_strlit("lb-f");
    reveal_strlit("LBF");
    reveal_strlit("LB-F");
    reveal_strlit("pa");
    reveal_strlit("Pa");
    reveal_strlit("s");
    reveal_strlit("sec");
    reveal_strlit("S");
    reveal_strlit("Sec");
    reveal_strlit("SEC");
    reveal_strlit("w");
    reveal_strlit("W");
    reveal_strlit("ft\u{b3}");
    reveal_strlit("in\u{b3}");
    reveal_strlit("lbf/in\u{b2}");
    reveal_strlit("");
}

/// Every unit that has aliases at all can be reached by parsing: its
/// canonical alias parses back to the unit itself.
#[verifier::rlimit(50)]
pub proof fn lemma_alias_parses(u: Unit)
    ensures
        u != Unit::PoundForcePerSquareInch ==> unit_of_token(canonical_alias(u)) == Some(u),
{
    lemma_literal_facts();
    match u {
        Unit::BritishThermalUnit => {
            assert(unit_of_token(canonical_alias(u)) == Some(u));
        },
        Unit::CubicFoot => {
            assert(unit_of_token(canonical_alias(u)) == Some(u));
        },
        Unit::CubicInch => {
            assert(unit_of_token(canonical_alias(u)) == Some(u));
        },
        Unit::Foot => {
            assert(unit_of_token(canonical_alias(u)) == Some(u));
        },
        Unit::FootPoundsPerSecond => {
            assert(unit_of_token(canonical_alias(u)) == Some(u));
        },
        Unit::Gram => {
            assert(unit_of_token(canonical_alias(u)) == Some(u));
        },
        Unit::Inch => {
            assert(unit_of_token(canonical_alias(u)) == Some(u));
        },
        Unit::Joule => {
            assert(unit_of_token(canonical_alias(u)) == Some(u));
        },
        Unit::KiloWatt => {
            assert(unit_of_token(canonical_alias(u)) == Some(u));
        },
        Unit::Liter => {
            assert(unit_of_token(canonical_alias(u)) == Some(u));
        },
        Unit::Meter => {
            assert(unit_of_token(canonical_alias(u)) == Some(u));
        },
        Unit::Minute => {
            assert(unit_of_token(canonical_alias(u)) == Some(u));
        },
        Unit::Newton => {
            assert(unit_of_token(canonical_alias(u)) == Some(u));
        },
        Unit::Pascal => {
            assert(unit_of_token(canonical_alias(u)) == Some(u));
        },
        Unit::Pound => {
            assert(unit_of_token(canonical_alias(u)) == Some(u));
        },
        Unit::PoundForce => {
            assert(unit_of_token(canonical_alias(u)) == Some(u));
        },
        Unit::PoundForcePerSquareInch => {},
        Unit::Second => {
            assert(unit_of_token(canonical_alias(u)) == Some(u));
        },
        Unit::Watt => {
            assert(unit_of_token(canonical_alias(u)) == Some(u));
        },
    }
}

/// Display round trip: most units render to a symbol that is itself an
/// accepted alias and parses back to the same unit.  The cubic units render
/// with a superscript that no ASCII alias carries, and the pressure unit
/// pound-force per square inch has no alias at all, so their symbols parse
/// to nothing.
#[verifier::rlimit(50)]
pub proof fn lemma_symbol_round_trip(u: Unit)
    ensures
        (u == Unit::CubicFoot || u == Unit::CubicInch || u == Unit::PoundForcePerSquareInch)
            ==> unit_of_token(spec_symbol(u)) is None,
        !(u == Unit::CubicFoot || u == Unit::CubicInch || u == Unit::PoundForcePerSquareInch)
            ==> unit_of_token(spec_symbol(u)) == Some(u),
{
    lemma_literal_facts();
    match u {
        Unit::BritishThermalUnit => {
            assert(unit_of_token(spec_symbol(u)) == Some(u));
        },
        Unit::CubicFoot => {
            assert(unit_of_token(spec_symbol(u)) is None);
        },
        Unit::CubicInch => {
            assert(unit_of_token(spec_symbol(u)) is None);
        },
        Unit::Foot => {
            assert(unit_of_token(spec_symbol(u)) == Some(u));
        },
        Unit::FootPoundsPerSecond => {
            assert(unit_of_token(spec_symbol(u)) == Some(u));
        },
        Unit::Gram => {
            assert(unit_of_token(spec_symbol(u)) == Some(u));
        },
        Unit::Inch => {
            assert(unit_of_token(spec_symbol(u)) == Some(u));
        },
        Unit::Joule => {
            assert(unit_of_token(spec_symbol(u)) == Some(u));
        },
        Unit::KiloWatt => {
            assert(unit_of_token(spec_symbol(u)) == Some(u));
        },
        Unit::Liter => {
            assert(unit_of_token(spec_symbol(u)) == Some(u));
        },
        Unit::Meter => {
            assert(unit_of_token(spec_symbol(u)) == Some(u));
        },
        Unit::Minute => {
            assert(unit_of_token(spec_symbol(u)) == Some(u));
        },
        Unit::Newton => {
            assert(unit_of_token(spec_symbol(u)) == Some(u));
        },
        Unit::Pascal => {
            assert(unit_of_token(spec_symbol(u)) == Some(u));
        },
        Unit::Pound => {
            assert(unit_of_token(spec_symbol(u)) == Some(u));
        },
        Unit::PoundForce => {
            assert(unit_of_token(spec_symbol(u)) == Some(u));
        },
        Unit::PoundForcePerSquareInch => {
            assert(unit_of_token(spec_symbol(u)) is None);
        },
        Unit::Second => {
            assert(unit_of_token(spec_symbol(u)) == Some(u));
        },
        Unit::Watt => {
            assert(unit_of_token(spec_symbol(u)) == Some(u));
        },
    }
}











} // verus!
