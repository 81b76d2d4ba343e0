use zephyr::bus::{BusData, BusScalar, BusValue};
use zephyr::dto::SetFanCurvePointRequest;
use zephyr::fan_curve::{
    decode_fan_curve_entries, fan_curve_write_tuple, fan_curves_profile_code,
    format_fan_curve_payload, normalize_fan_name, normalize_profile_name, parse_profile_code,
    validate_curve_points, CurveError,
};

fn curve(points: &[(u8, u8)]) -> Vec<SetFanCurvePointRequest> {
    points
        .iter()
        .map(|(t, p)| SetFanCurvePointRequest { temperature: *t, pwm: *p })
        .collect()
}

fn good_curve() -> Vec<SetFanCurvePointRequest> {
    curve(&[(30, 10), (40, 20), (50, 30), (60, 40), (70, 55), (80, 70), (90, 85), (100, 100)])
}

#[test]
fn accepted_curve_is_split_into_temperatures_and_duties() {
    let (temps, pwms) = validate_curve_points(&good_curve()).ok().unwrap();
    assert_eq!(temps, [30, 40, 50, 60, 70, 80, 90, 100]);
    assert_eq!(pwms, [10, 20, 30, 40, 55, 70, 85, 100]);
}

#[test]
fn accepted_curve_never_decreases() {
    let flat = curve(&[(50, 50); 8]);
    let (temps, pwms) = validate_curve_points(&flat).ok().unwrap();
    for i in 1..8 {
        assert!(temps[i - 1] <= temps[i]);
        assert!(pwms[i - 1] <= pwms[i]);
    }
}

#[test]
fn curve_with_wrong_point_count_is_refused() {
    let short = curve(&[(30, 10), (40, 20)]);
    let e = validate_curve_points(&short).err().unwrap();
    assert!(e == CurveError::WrongPointCount { count: 2 });
    assert_eq!(e.message(), "asusd: fan curve requires exactly 8 points, got 2");
}

#[test]
fn curve_with_hot_point_is_refused() {
    let mut c = good_curve();
    c[3].temperature = 101;
    let e = validate_curve_points(&c).err().unwrap();
    assert!(e == CurveError::InvalidTemperature { index: 3, value: 101 });
    assert_eq!(
        e.message(),
        "asusd: fan curve point 3 has invalid temperature 101 (expected 0..=100)"
    );
}

#[test]
fn curve_with_excess_duty_is_refused() {
    let mut c = good_curve();
    c[7].pwm = 120;
    let e = validate_curve_points(&c).err().unwrap();
    assert!(e == CurveError::InvalidPwm { index: 7, value: 120 });
    assert_eq!(e.message(), "asusd: fan curve point 7 has invalid pwm 120 (expected 0..=100)");
}

#[test]
fn range_faults_are_found_before_order_faults() {
    let mut c = good_curve();
    c[1].temperature = 10;
    c[5].pwm = 200;
    let e = validate_curve_points(&c).err().unwrap();
    assert!(e == CurveError::InvalidPwm { index: 5, value: 200 });
}

#[test]
fn curve_with_falling_temperature_is_refused() {
    let mut c = good_curve();
    c[2].temperature = 35;
    let e = validate_curve_points(&c).err().unwrap();
    assert!(e == CurveError::TemperatureDecreases { index: 2 });
    assert_eq!(e.message(), "asusd: fan curve temperatures must be non-decreasing (index 2)");
}

#[test]
fn curve_with_falling_duty_is_refused() {
    let mut c = good_curve();
    c[1].pwm = 5;
    let e = validate_curve_points(&c).err().unwrap();
    assert!(e == CurveError::PwmDecreases { index: 1 });
    assert_eq!(e.message(), "asusd: fan curve pwm values must be non-decreasing (index 1)");
}

#[test]
fn fan_profile_and_fan_names_are_normalized() {
    assert_eq!(parse_profile_code("Low Power"), Some(3));
    assert_eq!(parse_profile_code("custom"), Some(4));
    assert_eq!(parse_profile_code("boost"), None);
    assert_eq!(normalize_profile_name("  Low_Power "), "low-power");
    assert_eq!(normalize_profile_name("Quiet Mode"), "quiet-mode");
    assert_eq!(normalize_fan_name(" cpu "), Some("CPU".to_string()));
    assert_eq!(normalize_fan_name("G-P-U"), Some("GPU".to_string()));
    assert_eq!(normalize_fan_name("mid"), Some("MID".to_string()));
    assert_eq!(normalize_fan_name("case"), None);
}

#[test]
fn dashboard_reads_the_curves_of_the_active_profile() {
    assert_eq!(fan_curves_profile_code(Some("Performance")), 1);
    assert_eq!(fan_curves_profile_code(None), 0);
    assert_eq!(fan_curves_profile_code(Some("Turbo")), 0);
    assert_eq!(fan_curves_profile_code(Some("Quiet")), 2);
}

#[test]
fn write_tuple_keeps_fan_duties_and_temperatures() {
    let t = fan_curve_write_tuple("CPU", [1, 2, 3, 4, 5, 6, 7, 8], [9, 10, 11, 12, 13, 14, 15, 16], true);
    assert_eq!(t.0, "CPU");
    assert_eq!(t.1, [1, 2, 3, 4, 5, 6, 7, 8]);
    assert_eq!(t.2, [9, 10, 11, 12, 13, 14, 15, 16]);
    assert!(t.3);
}

#[test]
fn decoded_entries_give_lines_and_series() {
    let entries = vec![
        ("CPU".to_string(), [10, 20, 30, 40, 50, 60, 70, 80], [30, 40, 50, 60, 70, 80, 90, 100], true),
        ("GPU".to_string(), [0, 0, 0, 0, 0, 0, 0, 100], [20, 30, 40, 50, 60, 70, 80, 95], false),
    ];
    let d = decode_fan_curve_entries(&entries).unwrap();
    assert_eq!(
        d.raw,
        "CPU: pwm=[10, 20, 30, 40, 50, 60, 70, 80], temp=[30, 40, 50, 60, 70, 80, 90, 100], enabled=true\n\
GPU: pwm=[0, 0, 0, 0, 0, 0, 0, 100], temp=[20, 30, 40, 50, 60, 70, 80, 95], enabled=false"
    );
    assert_eq!(d.series.len(), 2);
    assert_eq!(d.series[0].fan, "CPU");
    assert!(d.series[0].enabled);
    assert_eq!(d.series[0].points.len(), 8);
    assert_eq!(d.series[0].points[0].temperature, 30);
    assert_eq!(d.series[0].points[0].pwm, 10);
    assert_eq!(d.series[1].points[7].temperature, 95);
    assert_eq!(d.series[1].points[7].pwm, 100);
    assert!(!d.series[1].enabled);
}

#[test]
fn no_entries_decode_to_nothing() {
    assert!(decode_fan_curve_entries(&Vec::new()).is_none());
}

#[test]
fn other_curve_payloads_are_shown_as_text() {
    let lines = BusValue {
        data: BusData::Array(vec![BusScalar::Str("a".to_string()), BusScalar::Str("b".to_string())]),
        debug: "[\"a\", \"b\"]".to_string(),
    };
    assert_eq!(format_fan_curve_payload(&lines, &None), "a\nb");
    let numbers = BusValue {
        data: BusData::Array(vec![BusScalar::U8(1), BusScalar::U8(2)]),
        debug: "[1, 2]".to_string(),
    };
    let elements = vec![
        BusValue { data: BusData::Scalar(BusScalar::U8(1)), debug: "\"1\"".to_string() },
        BusValue { data: BusData::Scalar(BusScalar::U8(2)), debug: "2".to_string() },
    ];
    assert_eq!(format_fan_curve_payload(&numbers, &Some(elements)), "1\n2");
    assert_eq!(format_fan_curve_payload(&numbers, &Some(Vec::new())), "[1, 2]");
    let other = BusValue { data: BusData::Other, debug: "\"odd\"".to_string() };
    assert_eq!(format_fan_curve_payload(&other, &None), "odd");
}
