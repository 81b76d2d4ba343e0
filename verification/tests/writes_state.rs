use zephyr::bus::{BusData, BusScalar, BusValue};
use zephyr::dto::{DaemonHealthSnapshot, DashboardSnapshotDto, PerformanceSnapshot};
use zephyr::error::ApiError;
use zephyr::state::{apply_performance, same_performance, same_text, AppState};
use zephyr::writes::{
    aura_mode_plan, charge_control_supported, charge_limit_plan, check_charge_limit,
    curves_to_defaults_plan, fan_curve_data_failure, fan_curve_data_plan, fan_curve_plan,
    fan_curves_enabled_plan, fan_profile_code, gpu_mode_plan, next_platform_profile_plan,
    one_shot_full_charge_plan, platform_profile_plan, platform_profile_source_write,
    next_plan_step, one_shot_charge_plans, platform_profile_plans, power_profile_plan,
    slash_mode_plan, Attempt, PlanStep, SupportAnswer, WireValue,
};

fn describe(a: &Attempt) -> String {
    match a {
        Attempt::Call(m, args) => format!("call {}({})", m, args.iter().map(wire).collect::<Vec<_>>().join(", ")),
        Attempt::Write(p, v) => format!("write {}={}", p, wire(v)),
    }
}

fn wire(w: &WireValue) -> String {
    match w {
        WireValue::U8(x) => format!("u8:{x}"),
        WireValue::U32(x) => format!("u32:{x}"),
        WireValue::I32(x) => format!("i32:{x}"),
        WireValue::Bool(x) => format!("bool:{x}"),
        WireValue::Text(s) => format!("text:{s}"),
        WireValue::Curve(f, p, t, e) => format!("curve:{f}:{p:?}:{t:?}:{e}"),
    }
}

fn steps(attempts: &[Attempt]) -> Vec<String> {
    attempts.iter().map(describe).collect()
}

#[test]
fn platform_profile_change_falls_back_step_by_step() {
    let plan = platform_profile_plan("Low Power").ok().unwrap();
    assert_eq!(
        steps(&plan.attempts),
        vec![
            "call SetPlatformProfile(u32:3)",
            "call SetPlatformProfile(i32:3)",
            "call set_platform_profile(u32:3)",
            "write PlatformProfile=u32:3",
        ]
    );
    assert_eq!(plan.failure, "D-Bus: failed to set asusd PlatformProfile");
    assert_eq!(
        platform_profile_plan("turbo").err().unwrap(),
        "asusd: unsupported platform profile 'turbo'"
    );
    let ac = platform_profile_source_write("quiet", false).ok().unwrap();
    assert_eq!(steps(&ac.attempts), vec!["write PlatformProfileOnAc=u32:2"]);
    assert_eq!(ac.failure, "D-Bus: failed to set asusd PlatformProfileOnAc");
    let bat = platform_profile_source_write("quiet", true).ok().unwrap();
    assert_eq!(steps(&bat.attempts), vec!["write PlatformProfileOnBattery=u32:2"]);
}

#[test]
fn lighting_modes_try_each_code_in_three_types() {
    let plan = aura_mode_plan("pulse").ok().unwrap();
    assert_eq!(
        steps(&plan.attempts),
        vec![
            "write LedMode=u8:10",
            "write LedMode=i32:10",
            "write LedMode=u32:10",
            "write LedMode=u8:4",
            "write LedMode=i32:4",
            "write LedMode=u32:4",
        ]
    );
    assert_eq!(plan.failure, "D-Bus: failed to set asusd aura LedMode");
    assert_eq!(aura_mode_plan("disco").err().unwrap(), "asusd: unsupported aura mode 'disco'");
    let slash = slash_mode_plan("Flow").ok().unwrap();
    assert_eq!(steps(&slash.attempts)[0], "write Mode=u8:6");
    assert_eq!(steps(&slash.attempts)[3], "write Mode=u8:25");
    assert_eq!(slash.attempts.len(), 6);
    assert_eq!(slash.failure, "D-Bus: failed to set asusd slash Mode");
    assert_eq!(slash_mode_plan("wave").err().unwrap(), "asusd: unsupported slash mode 'wave'");
}

#[test]
fn fan_curve_write_tries_codes_then_the_name() {
    let plan = fan_curve_plan(1, "performance", "CPU", [1, 2, 3, 4, 5, 6, 7, 8], [8, 7, 6, 5, 4, 3, 2, 1], true);
    let s = steps(&plan.attempts);
    assert_eq!(s.len(), 6);
    assert_eq!(s[0], "call SetFanCurve(u32:1, curve:CPU:[1, 2, 3, 4, 5, 6, 7, 8]:[8, 7, 6, 5, 4, 3, 2, 1]:true)");
    assert!(s[1].starts_with("call set_fan_curve(u32:1"));
    assert!(s[2].starts_with("call SetFanCurve(i32:1"));
    assert!(s[3].starts_with("call set_fan_curve(i32:1"));
    assert!(s[4].starts_with("call SetFanCurve(text:performance"));
    assert!(s[5].starts_with("call set_fan_curve(text:performance"));
    assert_eq!(plan.failure, "D-Bus: failed to call asusd SetFanCurve");
    let huge = fan_curve_plan(3_000_000_000, "x", "GPU", [0; 8], [0; 8], false);
    assert_eq!(huge.attempts.len(), 2);
    assert_eq!(huge.failure, "invalid profile code: 3000000000");
}

#[test]
fn fan_curve_reads_retry_as_signed() {
    assert_eq!(
        steps(&fan_curve_data_plan(2)),
        vec![
            "call FanCurveData(u32:2)",
            "call fan_curve_data(u32:2)",
            "call FanCurveData(i32:2)",
            "call fan_curve_data(i32:2)",
        ]
    );
    assert_eq!(fan_curve_data_plan(u32::MAX).len(), 2);
    assert_eq!(
        fan_curve_data_failure("no method", "still none"),
        "u32 call failed: no method; i32 retry failed: still none"
    );
}

#[test]
fn simple_changes_try_the_older_name() {
    assert_eq!(
        steps(&next_platform_profile_plan().attempts),
        vec!["call NextPlatformProfile()", "call next_platform_profile()"]
    );
    assert_eq!(
        steps(&one_shot_full_charge_plan().attempts),
        vec!["call OneShotFullCharge()", "call one_shot_full_charge()"]
    );
    let e = fan_curves_enabled_plan(0, true);
    assert_eq!(steps(&e.attempts), vec!["call SetFanCurvesEnabled(u32:0, bool:true)", "call set_fan_curves_enabled(u32:0, bool:true)"]);
    assert_eq!(e.failure, "D-Bus: failed to call asusd SetFanCurvesEnabled");
    let d = curves_to_defaults_plan(4);
    assert_eq!(steps(&d.attempts), vec!["call SetCurvesToDefaults(u32:4)", "call set_curves_to_defaults(u32:4)"]);
    let g = gpu_mode_plan("integrated").ok().unwrap();
    assert_eq!(steps(&g.attempts), vec!["call SetMode(u32:1)", "call set_mode(u32:1)"]);
    assert_eq!(g.failure, "D-Bus: failed to set supergfxd mode");
    assert_eq!(gpu_mode_plan("dedicated").err().unwrap(), "supergfxd: unsupported mode 'dedicated'");
    let p = power_profile_plan("Power Saver").ok().unwrap();
    assert_eq!(steps(&p.attempts), vec!["write ActiveProfile=text:power-saver"]);
    assert_eq!(power_profile_plan("turbo").err().unwrap(), "ppd: unsupported profile 'turbo'");
    assert_eq!(fan_profile_code("balanced"), Ok(0));
    assert_eq!(fan_profile_code("boost"), Err("asusd: unsupported fan profile 'boost'".to_string()));
}

#[test]
fn charge_limit_is_checked_and_written() {
    assert_eq!(check_charge_limit(80), Ok(80));
    assert_eq!(check_charge_limit(100), Ok(100));
    assert_eq!(check_charge_limit(1), Ok(1));
    assert_eq!(check_charge_limit(0), Err("charge limit must be in 1..=100".to_string()));
    assert_eq!(check_charge_limit(101), Err("charge limit must be in 1..=100".to_string()));
    let plan = charge_limit_plan(60);
    assert_eq!(steps(&plan.attempts), vec!["write ChargeControlEndThreshold=u8:60"]);
    assert_eq!(plan.failure, "D-Bus: failed to set asusd ChargeControlEndThreshold");
}

#[test]
fn charge_control_support_is_read_from_the_list() {
    let listed = BusValue {
        data: BusData::Array(vec![BusScalar::Str("ChargeControlEndThreshold".to_string())]),
        debug: "[\"PlatformProfile\", \"ChargeControlEndThreshold\"]".to_string(),
    };
    assert_eq!(charge_control_supported(&SupportAnswer::Listed(listed), None), Ok(true));
    let other = BusValue { data: BusData::Other, debug: "[\"PlatformProfile\"]".to_string() };
    assert_eq!(charge_control_supported(&SupportAnswer::Listed(other), None), Ok(false));
    assert_eq!(
        charge_control_supported(&SupportAnswer::Undecodable, None),
        Err("D-Bus: failed to decode asusd supported_properties".to_string())
    );
    assert_eq!(charge_control_supported(&SupportAnswer::NoAnswer, Some(true)), Ok(true));
    assert_eq!(charge_control_supported(&SupportAnswer::NoAnswer, Some(false)), Ok(false));
}

fn dashboard() -> DashboardSnapshotDto {
    DashboardSnapshotDto::from_health(
        DaemonHealthSnapshot {
            asusd_available: true,
            supergfxd_available: false,
            ppd_available: true,
            last_error: None,
        },
        5,
    )
}

#[test]
fn performance_updates_only_when_figures_change() {
    let mut d = dashboard();
    assert!(!apply_performance(&mut d, PerformanceSnapshot::empty(), 99));
    assert_eq!(d.updated_at_ms, 5);
    let mut fresh = PerformanceSnapshot::empty();
    fresh.cpu.frequency_mhz = Some(2400);
    fresh.gpu.source = Some("nvml".to_string());
    assert!(apply_performance(&mut d, fresh, 99));
    assert_eq!(d.updated_at_ms, 99);
    assert_eq!(d.performance.cpu.frequency_mhz, Some(2400));
    assert!(d.health.asusd_available);
    let mut same = PerformanceSnapshot::empty();
    same.cpu.frequency_mhz = Some(2400);
    same.gpu.source = Some("nvml".to_string());
    assert!(same_performance(&d.performance, &same));
    assert!(!apply_performance(&mut d, same, 150));
    assert_eq!(d.updated_at_ms, 99);
    assert!(same_text(&Some("a".to_string()), &Some("a".to_string())));
    assert!(!same_text(&Some("a".to_string()), &None));
}

#[test]
fn state_keeps_the_last_dashboard() {
    let mut state = AppState::new(dashboard());
    assert!(state.get_health().asusd_available);
    assert_eq!(state.get_dashboard().updated_at_ms, 5);
    let mut next = dashboard();
    next.updated_at_ms = 77;
    next.health.asusd_available = false;
    state.set_dashboard(next);
    assert_eq!(state.get_dashboard().updated_at_ms, 77);
    assert!(!state.get_health().asusd_available);
}

#[test]
fn errors_are_classified_by_message() {
    let e = ApiError::from_message("state lock poisoned while reading settings".to_string());
    assert_eq!(e.code, "state_poisoned");
    assert_eq!(e.message, "state lock poisoned while reading settings");
    assert_eq!(ApiError::from_message("D-Bus: failed to connect".to_string()).code, "dbus_error");
    assert_eq!(ApiError::from_message("asusd unavailable".to_string()).code, "internal_error");
}

#[test]
fn plan_stops_at_first_success_and_otherwise_fails_with_its_message() {
    let plan = platform_profile_plan("quiet").ok().unwrap();
    assert!(matches!(next_plan_step(&plan, 0, None), PlanStep::Try(0)));
    assert!(matches!(next_plan_step(&plan, 1, Some(false)), PlanStep::Try(1)));
    assert!(matches!(next_plan_step(&plan, 2, Some(true)), PlanStep::Succeeded));
    assert!(matches!(next_plan_step(&plan, 4, Some(true)), PlanStep::Succeeded));
    match next_plan_step(&plan, 4, Some(false)) {
        PlanStep::Failed(m) => assert_eq!(m, "D-Bus: failed to set asusd PlatformProfile"),
        _ => panic!("a plan with every attempt failed must fail"),
    }
}

#[test]
fn platform_profile_writes_come_in_order() {
    let plans = platform_profile_plans("quiet", true, true).ok().unwrap();
    let all: Vec<Vec<String>> = plans.iter().map(|p| steps(&p.attempts)).collect();
    assert_eq!(all.len(), 3);
    assert_eq!(all[0][0], "call SetPlatformProfile(u32:2)");
    assert_eq!(all[1], vec!["write PlatformProfileOnAc=u32:2"]);
    assert_eq!(all[2], vec!["write PlatformProfileOnBattery=u32:2"]);
    let battery_only = platform_profile_plans("quiet", false, true).ok().unwrap();
    assert_eq!(battery_only.len(), 2);
    assert_eq!(steps(&battery_only[1].attempts), vec!["write PlatformProfileOnBattery=u32:2"]);
    assert_eq!(platform_profile_plans("quiet", false, false).ok().unwrap().len(), 1);
    assert_eq!(
        platform_profile_plans("turbo", true, true).err().unwrap(),
        "asusd: unsupported platform profile 'turbo'"
    );
}

#[test]
fn one_shot_charge_writes_the_limit_first() {
    let plans = one_shot_charge_plans(Some(80)).ok().unwrap();
    assert_eq!(plans.len(), 2);
    assert_eq!(steps(&plans[0].attempts), vec!["write ChargeControlEndThreshold=u8:80"]);
    assert_eq!(
        steps(&plans[1].attempts),
        vec!["call OneShotFullCharge()", "call one_shot_full_charge()"]
    );
    let plain = one_shot_charge_plans(None).ok().unwrap();
    assert_eq!(plain.len(), 1);
    assert_eq!(plain[0].failure, "D-Bus: failed to call asusd OneShotFullCharge");
    assert_eq!(one_shot_charge_plans(Some(0)).err().unwrap(), "charge limit must be in 1..=100");
    assert_eq!(one_shot_charge_plans(Some(101)).err().unwrap(), "charge limit must be in 1..=100");
}
