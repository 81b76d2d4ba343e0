use zephyr::bus::{BusData, BusScalar, BusValue};
use zephyr::gfx::{format_action_code, format_mode_code, format_modes, format_power_code, parse_mode_code};
use zephyr::power_profiles::{
    format_ppd_optional_text, format_ppd_profile_value, format_ppd_profiles_value, normalize_profile,
};
use zephyr::profiles::{
    format_platform_profile_choices_value, format_platform_profile_code,
    format_platform_profile_value, parse_platform_profile_code,
};

fn value(data: BusData, debug: &str) -> BusValue {
    BusValue { data, debug: debug.to_string() }
}

fn text(s: &str) -> BusScalar {
    BusScalar::Str(s.to_string())
}

#[test]
fn platform_profile_names_parse_to_codes() {
    assert_eq!(parse_platform_profile_code("Balanced"), Some(0));
    assert_eq!(parse_platform_profile_code("performance"), Some(1));
    assert_eq!(parse_platform_profile_code("  QUIET "), Some(2));
    assert_eq!(parse_platform_profile_code("low_power"), Some(3));
    assert_eq!(parse_platform_profile_code("Low Power"), Some(3));
    assert_eq!(parse_platform_profile_code("low-power"), Some(3));
    assert_eq!(parse_platform_profile_code("custom"), Some(4));
    assert_eq!(parse_platform_profile_code("turbo"), None);
    assert_eq!(parse_platform_profile_code(""), None);
}

#[test]
fn platform_profile_codes_have_display_names() {
    assert_eq!(format_platform_profile_code(0), "Balanced");
    assert_eq!(format_platform_profile_code(1), "Performance");
    assert_eq!(format_platform_profile_code(2), "Quiet");
    assert_eq!(format_platform_profile_code(3), "Low Power");
    assert_eq!(format_platform_profile_code(4), "Custom");
    assert_eq!(format_platform_profile_code(5), "Unknown");
}

#[test]
fn platform_profile_display_name_parses_back_to_its_code() {
    for code in 0u32..=4 {
        assert_eq!(parse_platform_profile_code(format_platform_profile_code(code)), Some(code));
    }
}

#[test]
fn platform_profile_value_is_named_by_type() {
    let named = |v: BusValue| format_platform_profile_value(&v);
    assert_eq!(named(value(BusData::Scalar(BusScalar::U32(1)), "1")), Some("Performance".to_string()));
    assert_eq!(named(value(BusData::Scalar(BusScalar::I32(2)), "2")), Some("Quiet".to_string()));
    assert_eq!(named(value(BusData::Scalar(BusScalar::I32(-1)), "-1")), None);
    assert_eq!(named(value(BusData::Scalar(text("low-power")), "\"low-power\"")), Some("Low Power".to_string()));
    assert_eq!(named(value(BusData::Scalar(text("turbo")), "\"turbo\"")), Some("turbo".to_string()));
    assert_eq!(named(value(BusData::Scalar(BusScalar::Bool(true)), "true")), None);
    assert_eq!(named(value(BusData::Array(vec![BusScalar::U32(1)]), "[1]")), None);
}

#[test]
fn platform_profile_choices_are_listed_by_name() {
    let listed = |v: BusValue| format_platform_profile_choices_value(&v);
    assert_eq!(
        listed(value(BusData::Array(vec![BusScalar::U32(0), BusScalar::U32(1), BusScalar::U32(2)]), "[0, 1, 2]")),
        Some("Balanced, Performance, Quiet".to_string())
    );
    assert_eq!(
        listed(value(BusData::Array(vec![BusScalar::I32(-1), BusScalar::I32(3)]), "[-1, 3]")),
        Some("Low Power".to_string())
    );
    assert_eq!(
        listed(value(BusData::Array(vec![text("quiet"), text("eco")]), "[\"quiet\", \"eco\"]")),
        Some("Quiet, eco".to_string())
    );
    assert_eq!(
        listed(value(BusData::Array(vec![BusScalar::I32(-1)]), "[-1]")),
        Some("[-1]".to_string())
    );
    assert_eq!(listed(value(BusData::Array(vec![]), "[]")), Some("".to_string()));
    assert_eq!(listed(value(BusData::Other, "\"odd\"")), Some("odd".to_string()));
}

#[test]
fn gpu_modes_parse_and_format() {
    assert_eq!(parse_mode_code("Hybrid"), Some(0));
    assert_eq!(parse_mode_code("optimus"), Some(0));
    assert_eq!(parse_mode_code("iGPU"), Some(1));
    assert_eq!(parse_mode_code("nvidia_no_modeset"), Some(2));
    assert_eq!(parse_mode_code("Vfio"), Some(3));
    assert_eq!(parse_mode_code("eGPU"), Some(4));
    assert_eq!(parse_mode_code("ultimate"), Some(5));
    assert_eq!(parse_mode_code("none"), Some(6));
    assert_eq!(parse_mode_code("dedicated"), None);
    assert_eq!(format_mode_code(0), "Hybrid");
    assert_eq!(format_mode_code(5), "AsusMuxDgpu");
    assert_eq!(format_mode_code(6), "Unknown");
    assert_eq!(format_power_code(3), "dgpu_disabled");
    assert_eq!(format_power_code(9), "unknown");
    assert_eq!(format_action_code(1), "Reboot");
    assert_eq!(format_action_code(7), "Nothing");
    assert_eq!(format_modes(vec![0, 1, 9]), "Hybrid, Integrated, Unknown");
    assert_eq!(format_modes(vec![]), "");
}

#[test]
fn gpu_mode_name_parses_back_to_its_code() {
    for code in 0u32..=5 {
        assert_eq!(parse_mode_code(&format_mode_code(code)), Some(code));
    }
}

#[test]
fn power_profile_names_normalize() {
    assert_eq!(normalize_profile("Power Saver"), Some("power-saver"));
    assert_eq!(normalize_profile("power_saver"), Some("power-saver"));
    assert_eq!(normalize_profile("powersaver"), Some("power-saver"));
    assert_eq!(normalize_profile(" Balanced "), Some("balanced"));
    assert_eq!(normalize_profile("PERFORMANCE"), Some("performance"));
    assert_eq!(normalize_profile("turbo"), None);
}

#[test]
fn power_profile_normalization_is_idempotent() {
    for name in ["Power Saver", "balanced", "Performance", "power_saver"] {
        let once = normalize_profile(name).unwrap();
        assert_eq!(normalize_profile(once), Some(once));
    }
}

#[test]
fn power_profile_properties_are_shown_as_text() {
    let active = value(BusData::Scalar(text("balanced")), "\"balanced\"");
    assert_eq!(format_ppd_profile_value(&active), Some("balanced".to_string()));
    let number = value(BusData::Scalar(BusScalar::U32(3)), "3");
    assert_eq!(format_ppd_profile_value(&number), Some("3".to_string()));
    let blank = value(BusData::Scalar(text("   ")), "\"   \"");
    assert_eq!(format_ppd_optional_text(&blank), None);
    let reason = value(BusData::Scalar(text(" lap-detected ")), "\" lap-detected \"");
    assert_eq!(format_ppd_optional_text(&reason), Some("lap-detected".to_string()));
    let list = value(BusData::Array(vec![text("power-saver"), text("balanced")]), "[..]");
    assert_eq!(format_ppd_profiles_value(&list), Some("power-saver, balanced".to_string()));
    let dicts = value(
        BusData::Other,
        "[{\"Profile\": \"performance\"}, {\"Profile\": \"Balanced\"}]",
    );
    assert_eq!(format_ppd_profiles_value(&dicts), Some("balanced, performance".to_string()));
    let unknown = value(BusData::Other, "\"mystery\"");
    assert_eq!(format_ppd_profiles_value(&unknown), Some("mystery".to_string()));
}
