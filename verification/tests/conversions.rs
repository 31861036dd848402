//! The conversion-factor suite: each direct conversion applied to a
//! representative value and compared against its expected result.

use thermo::convert::{direct_factor, gram_per_second_to_pound_per_minute};
use thermo::request::parse_request;
use thermo::units::Unit;

/// The factor of a direct pair, as a floating-point multiplier.
fn factor(from: Unit, to: Unit) -> f64 {
    let f = direct_factor(from, to).unwrap();
    f.num as f64 / f.den as f64
}

fn compare(want: f64, have: f64, tolerance: f64) -> bool {
    let abs_difference = (want - have).abs();
    if abs_difference <= tolerance {
        true
    } else {
        println!(
            "want: {}, have: {}, abs_difference: {}, tolerance: {}",
            want, have, abs_difference, tolerance
        );
        false
    }
}

#[test]
fn convert_units_from_str() {
    let text = format!("{} ft to in", 1.0);
    let req = parse_request(&text).unwrap();

    assert_eq!(req.original_unit, Unit::Foot);
    assert_eq!(req.target_unit, Unit::Inch);
    let original_value: f64 = req.value.parse().unwrap();
    assert_eq!(original_value, 1.0);
    let target_value = original_value * factor(req.original_unit, req.target_unit);
    assert_eq!(target_value, 12.0);
}

#[test]
fn convert_cubic_foot_to_cubic_inch() {
    let tolerance = 10.0_f64.powi(-5);
    let want = 1728.0;
    let foot = 1.0;
    let have = foot * factor(Unit::CubicFoot, Unit::CubicInch);

    assert_eq!(compare(want, have, tolerance), true);
}

#[test]
fn convert_cubic_inch_to_cubic_foot() {
    let tolerance = 10.0_f64.powi(-5);
    let want = 0.000579;
    let inch = 1.0;
    let have = inch * factor(Unit::CubicInch, Unit::CubicFoot);

    assert_eq!(compare(want, have, tolerance), true);
}

#[test]
fn convert_liter_to_cubic_inch() {
    let tolerance = 10.0_f64.powi(-5);
    let want = 61.0237;
    let liter = 1.0;
    let have = liter * factor(Unit::Liter, Unit::CubicInch);

    assert_eq!(compare(want, have, tolerance), true);
}

#[test]
fn convert_cubic_inch_to_liter() {
    let tolerance = 10.0_f64.powi(-5);
    let want = 0.0163871;
    let cubic_inch = 1.0;
    let have = cubic_inch * factor(Unit::CubicInch, Unit::Liter);

    assert_eq!(compare(want, have, tolerance), true);
}

#[test]
fn convert_liter_to_cubic_foot() {
    let tolerance = 10.0_f64.powi(-4);
    let want = 0.0353147;
    let liter = 1.0;
    let have = liter * factor(Unit::Liter, Unit::CubicFoot);

    assert_eq!(compare(want, have, tolerance), true);
}

#[test]
fn convert_cubic_foot_to_liter() {
    let tolerance = 10.0_f64.powi(-4);
    let want = 28.3168;
    let cubic_foot = 1.0;
    let have = cubic_foot * factor(Unit::CubicFoot, Unit::Liter);

    assert_eq!(compare(want, have, tolerance), true);
}

#[test]
fn convert_joule_to_btu() {
    let tolerance = 10.0_f64.powi(-4);
    let want = 0.000947817;
    let joule = 1.0;
    let have = joule * factor(Unit::Joule, Unit::BritishThermalUnit);

    assert_eq!(compare(want, have, tolerance), true);
}

#[test]
fn convert_btu_to_joule() {
    let tolerance = 10.0_f64.powi(-6);
    let want = 1055.0558526;
    let btu = 1.0;
    let have = btu * factor(Unit::BritishThermalUnit, Unit::Joule);

    assert_eq!(compare(want, have, tolerance), true);
}

#[test]
fn convert_w_to_kw() {
    let tolerance = 10.0_f64.powi(-5);
    let want = 1.0;
    let w = 1000.0;
    let have = w * factor(Unit::Watt, Unit::KiloWatt);

    assert_eq!(compare(want, have, tolerance), true);
}

#[test]
fn convert_kw_to_w() {
    let tolerance = 10.0_f64.powi(-5);
    let want = 1000.0;
    let kw = 1.0;
    let have = kw * factor(Unit::KiloWatt, Unit::Watt);

    assert_eq!(compare(want, have, tolerance), true);
}

#[test]
fn convert_w_to_ft_pound_per_s() {
    let tolerance = 10.0_f64.powi(-5);
    let want = 0.73756;
    let w = 1.0;
    let have = w * factor(Unit::Watt, Unit::FootPoundsPerSecond);

    assert_eq!(compare(want, have, tolerance), true);
}

#[test]
fn convert_kw_to_ft_pound_per_s() {
    let tolerance = 10.0_f64.powi(-3);
    let want = 99.57089;
    let kw = 0.135;
    let have = kw * factor(Unit::KiloWatt, Unit::FootPoundsPerSecond);

    assert_eq!(compare(want, have, tolerance), true);
}

#[test]
fn convert_ft_lb_per_s_to_w() {
    let tolerance = 10.0_f64.powi(-3);
    let want = 1.35582;
    let ft_lb_per_s = 1.0;
    let have = ft_lb_per_s * factor(Unit::FootPoundsPerSecond, Unit::Watt);

    assert_eq!(compare(want, have, tolerance), true);
}

#[test]
fn convert_ft_lb_per_s_to_kw() {
    let tolerance = 10.0_f64.powi(-3);
    let want = 0.00135582;
    let ft_lb_per_s = 1.0;
    let have = ft_lb_per_s * factor(Unit::FootPoundsPerSecond, Unit::KiloWatt);

    assert_eq!(compare(want, have, tolerance), true);
}

#[test]
fn convert_lbf_to_n() {
    let tolerance = 10.0_f64.powi(-3);
    let want = 4.4482216;
    let lbf = 1.0;
    let have = lbf * factor(Unit::PoundForce, Unit::Newton);

    assert_eq!(compare(want, have, tolerance), true);
}

#[test]
fn convert_n_to_lbf() {
    let tolerance = 10.0_f64.powi(-3);
    let want = 0.2248089;
    let newton = 1.0;
    let have = newton * factor(Unit::Newton, Unit::PoundForce);

    assert_eq!(compare(want, have, tolerance), true);
}

#[test]
fn convert_g_to_lb() {
    let tolerance = 10.0_f64.powi(-5);
    let want = 0.00220462;
    let g = 1.0;
    let have = g * factor(Unit::Gram, Unit::Pound);

    assert_eq!(compare(want, have, tolerance), true);
}

#[test]
fn convert_s_to_min() {
    let tolerance = 10.0_f64.powi(-3);
    let want = 0.01666666;
    let s = 1.0;
    let have = s * factor(Unit::Second, Unit::Minute);

    assert_eq!(compare(want, have, tolerance), true);
}

#[test]
fn convert_min_to_s() {
    let tolerance = 10.0_f64.powi(-3);
    let want = 60.0;
    let min = 1.0;
    let have = min * factor(Unit::Minute, Unit::Second);

    assert_eq!(compare(want, have, tolerance), true);
}

#[test]
fn convert_g_per_s_to_lb_per_min() {
    let tolerance = 10.0_f64.powi(-3);
    let want = 0.132277;
    let g_per_s = 1.0;
    let composite = gram_per_second_to_pound_per_minute();
    let have = g_per_s * (composite.num as f64 / composite.den as f64);

    assert_eq!(compare(want, have, tolerance), true);
}

#[test]
fn convert_lbf_per_in2_to_pascal() {
    let tolerance = 10.0_f64.powi(-2);
    let want = 6894.76;
    let lbf_per_in2 = 1.0;
    let have = lbf_per_in2 * factor(Unit::PoundForcePerSquareInch, Unit::Pascal);

    assert_eq!(compare(want, have, tolerance), true);
}

#[test]
fn convert_pascal_to_lbf_per_in2() {
    let tolerance = 10.0_f64.powi(-5);
    let want = 0.000145038;
    let pascal = 1.0;
    let have = pascal * factor(Unit::Pascal, Unit::PoundForcePerSquareInch);

    assert_eq!(compare(want, have, tolerance), true);
}

#[test]
fn convert_m_to_ft() {
    let tolerance = 10.0_f64.powi(-5);
    let want = 3.28084;
    let m = 1.0;
    let have = m * factor(Unit::Meter, Unit::Foot);

    assert_eq!(compare(want, have, tolerance), true);
}

#[test]
fn convert_ft_to_m() {
    let tolerance = 10.0_f64.powi(-5);
    let want = 0.3048;
    let ft = 1.0;
    let have = ft * factor(Unit::Foot, Unit::Meter);

    assert_eq!(compare(want, have, tolerance), true);
}
