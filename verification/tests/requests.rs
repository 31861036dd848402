//! Request parsing: the literal scenarios, the failure modes, and the
//! numeric-literal grammar.

use thermo::convert::direct_factor;
use thermo::error::Error;
use thermo::number::check_number_token;
use thermo::request::{parse_request, tokenize};
use thermo::units::Unit;

/// Runs a full request line and returns the converted value and the target
/// unit's display symbol.
fn convert_line(line: &str) -> (f64, String) {
    let req = parse_request(line).unwrap();
    let value: f64 = req.value.parse().unwrap();
    let f = direct_factor(req.original_unit, req.target_unit).unwrap();
    (value * (f.num as f64 / f.den as f64), req.target_unit.symbol())
}

#[test]
fn scenario_foot_to_inch() {
    let (value, symbol) = convert_line("1.0 ft to in");
    assert!((value - 12.0).abs() <= 1e-4);
    assert_eq!(symbol, "in");
}

#[test]
fn scenario_cubic_foot_to_cubic_inch() {
    let (value, _) = convert_line("1.0 ft3 to in3");
    assert!((value - 1728.0).abs() <= 1e-4);
}

#[test]
fn scenario_liter_to_cubic_inch() {
    let (value, _) = convert_line("1.0 l to in3");
    assert!((value - 61.0237).abs() <= 1e-4);
}

#[test]
fn scenario_joule_to_btu() {
    let (value, _) = convert_line("650.0 j to btu");
    assert!((value - 0.6160).abs() <= 1e-4);
}

#[test]
fn scenario_kilowatt_to_foot_pounds_per_second() {
    let (value, symbol) = convert_line("0.135 kw to ft-lb/s");
    assert!((value - 99.57089).abs() <= 1e-3);
    assert_eq!(symbol, "ft-lb/s");
}

#[test]
fn scenario_kilopascal_to_pound_force_per_square_inch() {
    // The pressure unit has no alias, so the pair is resolved directly; the
    // kilopascal case scales the pascal result by 1000.  The expected value
    // is given to two decimals.
    let f = direct_factor(Unit::Pascal, Unit::PoundForcePerSquareInch).unwrap();
    let value = 304.0 * (f.num as f64 / f.den as f64) * 1000.0;
    assert!((value - 44.09).abs() <= 1e-2);
    assert_eq!(Unit::PoundForcePerSquareInch.symbol(), "lbf/in²");
}

#[test]
fn unknown_unit_token_fails() {
    match parse_request("1.0 xyz to in") {
        Err(Error::UnrecognizedUnit { unit }) => assert_eq!(unit, "xyz"),
        other => panic!("expected UnrecognizedUnit, got {:?}", other),
    }
}

#[test]
fn unknown_target_unit_token_fails() {
    match parse_request("1.0 ft to zzz") {
        Err(Error::UnrecognizedUnit { unit }) => assert_eq!(unit, "zzz"),
        other => panic!("expected UnrecognizedUnit, got {:?}", other),
    }
}

#[test]
fn undeclared_pair_fails() {
    let req = parse_request("1.0 ft to j").unwrap();
    match direct_factor(req.original_unit, req.target_unit) {
        Err(Error::IrreconcilableUnits { original_unit, target_unit }) => {
            assert_eq!(original_unit, Unit::Foot);
            assert_eq!(target_unit, Unit::Joule);
        }
        other => panic!("expected IrreconcilableUnits, got {:?}", other),
    }
}

#[test]
fn no_chaining_through_intermediate_units() {
    // Gram to minute has no direct entry and none is searched for.
    assert!(direct_factor(Unit::Gram, Unit::Minute).is_err());
    // A unit does not convert to itself either: no identity pairs are declared.
    assert!(direct_factor(Unit::Foot, Unit::Foot).is_err());
}

#[test]
fn error_messages() {
    let unrecognized = Error::UnrecognizedUnit { unit: String::from("xyz") };
    assert_eq!(unrecognized.message(), "Unrecognized unit: xyz");
    let irreconcilable = Error::IrreconcilableUnits {
        original_unit: Unit::Foot,
        target_unit: Unit::Joule,
    };
    assert_eq!(irreconcilable.message(), "Units do not convert: `ft`≠ `J`");
    assert_eq!(Error::MalformedRequest.message(), "Malformed conversion request");
}

#[test]
fn too_few_tokens_is_malformed() {
    assert!(matches!(parse_request(""), Err(Error::MalformedRequest)));
    assert!(matches!(parse_request("1.0"), Err(Error::MalformedRequest)));
    assert!(matches!(parse_request("1.0 ft"), Err(Error::MalformedRequest)));
    assert!(matches!(parse_request("1.0 ft to"), Err(Error::MalformedRequest)));
}

#[test]
fn non_numeric_value_is_malformed() {
    assert!(matches!(parse_request("abc ft to in"), Err(Error::MalformedRequest)));
    assert!(matches!(parse_request("1..2 ft to in"), Err(Error::MalformedRequest)));
    assert!(matches!(parse_request(". ft to in"), Err(Error::MalformedRequest)));
}

#[test]
fn connector_token_is_not_validated() {
    let req = parse_request("2.5 ft into in").unwrap();
    assert_eq!(req.original_unit, Unit::Foot);
    assert_eq!(req.target_unit, Unit::Inch);
    assert_eq!(req.value, "2.5");
}

#[test]
fn tokens_past_the_fourth_are_ignored() {
    let req = parse_request("2.5 ft to in and more").unwrap();
    assert_eq!(req.original_unit, Unit::Foot);
    assert_eq!(req.target_unit, Unit::Inch);
}

#[test]
fn tokenize_splits_on_whitespace() {
    assert_eq!(tokenize("  1.0  ft to\tin "), vec!["1.0", "ft", "to", "in"]);
    assert_eq!(tokenize(""), Vec::<String>::new());
    assert_eq!(tokenize("   "), Vec::<String>::new());
}

#[test]
fn numeric_literals_accepted() {
    for tok in [
        "1", "12", "1.0", "1.", ".5", "0.135", "650.0", "+1", "-1.5", "1e5", "1E5", "1e+5",
        "2.5e-3", "-12.e4", "inf", "Inf", "INF", "-inf", "infinity", "Infinity", "nan", "NaN",
        "NAN", "+nan",
    ] {
        assert!(check_number_token(tok), "expected {:?} to be numeric", tok);
        assert!(tok.parse::<f64>().is_ok(), "std disagrees on {:?}", tok);
    }
}

#[test]
fn numeric_literals_rejected() {
    for tok in [
        "", "+", "-", ".", "+.", "1..2", "1.2.3", "e5", "1e", "1e+", "--1", "1f", "0x10", "1 0",
        "one", "infx", "nans", "1.0.", "_1", "1_000",
    ] {
        assert!(!check_number_token(tok), "expected {:?} to be rejected", tok);
        assert!(tok.parse::<f64>().is_err(), "std disagrees on {:?}", tok);
    }
}
