use zephyr::bus::{format_value, read_bool, read_i32, read_summary, read_u8, BusData, BusScalar, BusValue};
use zephyr::fan_curve::FanCurveDecoded;
use zephyr::status::{
    anime_status, armoury_attribute, armoury_status, aura_status, backlight_status,
    fan_curves_status, gpu_status, mode_change_answer, platform_status, power_status,
    scsi_status, slash_status, AnimeProperties, ArmouryProperties, AuraProperties,
    BacklightProperties, GfxAnswers, PlatformProperties, PowerProperties, ScsiProperties,
    SlashProperties,
};

fn v(s: BusScalar, debug: &str) -> Option<BusValue> {
    Some(BusValue { data: BusData::Scalar(s), debug: debug.to_string() })
}

#[test]
fn values_convert_only_from_their_own_type() {
    assert_eq!(read_u8(&v(BusScalar::U8(80), "80")), Some(80));
    assert_eq!(read_u8(&v(BusScalar::U32(80), "80")), None);
    assert_eq!(read_bool(&v(BusScalar::Bool(true), "true")), Some(true));
    assert_eq!(read_bool(&v(BusScalar::U8(1), "1")), None);
    assert_eq!(read_i32(&v(BusScalar::I32(-5), "-5")), Some(-5));
    assert_eq!(read_i32(&None), None);
    assert_eq!(read_summary(&v(BusScalar::Str("Static".to_string()), "\"Static\"")), Some("Static".to_string()));
    let quoted = BusValue { data: BusData::Other, debug: "\"\"a\"\"".to_string() };
    assert_eq!(format_value(&quoted), "a");
}

#[test]
fn platform_status_names_its_profiles() {
    let p = PlatformProperties {
        platform_profile: v(BusScalar::U32(2), "2"),
        platform_profile_choices: Some(BusValue {
            data: BusData::Array(vec![BusScalar::U32(0), BusScalar::U32(2)]),
            debug: "[0, 2]".to_string(),
        }),
        platform_profile_on_ac: v(BusScalar::Str("performance".to_string()), "\"performance\""),
        platform_profile_on_battery: None,
        charge_control_end_threshold: v(BusScalar::U8(80), "80"),
        platform_profile_linked_epp: v(BusScalar::Bool(false), "false"),
    };
    let s = platform_status(&p);
    assert_eq!(s.platform_profile, Some("Quiet".to_string()));
    assert_eq!(s.platform_profile_choices, Some("Balanced, Quiet".to_string()));
    assert_eq!(s.platform_profile_on_ac, Some("Performance".to_string()));
    assert_eq!(s.platform_profile_on_battery, None);
    assert_eq!(s.charge_control_end_threshold, Some(80));
    assert_eq!(s.platform_profile_linked_epp, Some(false));
    assert_eq!(s.last_error, None);
}

#[test]
fn fan_curve_status_carries_the_curves() {
    let s = fan_curves_status(
        &v(BusScalar::U32(1), "1"),
        &None,
        FanCurveDecoded { raw: "CPU: ...".to_string(), series: Vec::new() },
    );
    assert_eq!(s.active_profile, Some("Performance".to_string()));
    assert_eq!(s.profile_choices, None);
    assert_eq!(s.curve_data, Some("CPU: ...".to_string()));
    assert_eq!(s.last_error, None);
}

#[test]
fn lighting_statuses_read_their_properties() {
    let a = aura_status(&AuraProperties {
        brightness: v(BusScalar::U32(2), "Med"),
        led_mode: v(BusScalar::Str("Static".to_string()), "\"Static\""),
        supported_brightness: None,
        supported_basic_modes: None,
    });
    assert_eq!(a.brightness, Some("Med".to_string()));
    assert_eq!(a.led_mode, Some("Static".to_string()));
    assert_eq!(a.supported_brightness, None);
    let m = anime_status(&AnimeProperties {
        enable_display: v(BusScalar::Bool(true), "true"),
        builtins_enabled: v(BusScalar::U8(1), "1"),
        brightness: v(BusScalar::U8(2), "High"),
        off_when_lid_closed: None,
        off_when_suspended: v(BusScalar::Bool(false), "false"),
        off_when_unplugged: None,
    });
    assert_eq!(m.enable_display, Some(true));
    assert_eq!(m.builtins_enabled, None);
    assert_eq!(m.brightness, Some("High".to_string()));
    assert_eq!(m.off_when_suspended, Some(false));
    let s = slash_status(&SlashProperties {
        enabled: v(BusScalar::Bool(true), "true"),
        brightness: v(BusScalar::U8(200), "200"),
        interval: v(BusScalar::U32(3), "3"),
        mode: v(BusScalar::U8(6), "6"),
        show_on_boot: v(BusScalar::Bool(true), "true"),
        show_on_sleep: None,
        show_on_shutdown: None,
        show_on_battery: v(BusScalar::Bool(false), "false"),
        show_battery_warning: None,
        show_on_lid_closed: None,
    });
    assert_eq!(s.enabled, Some(true));
    assert_eq!(s.brightness, Some(200));
    assert_eq!(s.interval, None);
    assert_eq!(s.mode, Some("6".to_string()));
    assert_eq!(s.show_on_battery, Some(false));
    let b = backlight_status(&BacklightProperties {
        screenpad_brightness: v(BusScalar::I32(120), "120"),
        screenpad_gamma: v(BusScalar::Str("2.2".to_string()), "\"2.2\""),
        screenpad_sync_with_primary: v(BusScalar::Bool(true), "true"),
    });
    assert_eq!(b.screenpad_brightness, Some(120));
    assert_eq!(b.screenpad_gamma, Some("2.2".to_string()));
    assert_eq!(b.sync_screenpad_brightness, Some(true));
    let c = scsi_status(&ScsiProperties {
        enabled: None,
        led_mode: v(BusScalar::U8(3), "3"),
        led_mode_data: None,
    });
    assert_eq!(c.enabled, None);
    assert_eq!(c.mode, Some("3".to_string()));
}

fn attribute(current: i32) -> ArmouryProperties {
    ArmouryProperties {
        name: v(BusScalar::Str("ppt_pl1_spl".to_string()), "\"ppt_pl1_spl\""),
        available_attrs: None,
        current_value: v(BusScalar::I32(current), "x"),
        default_value: v(BusScalar::I32(80), "80"),
        min_value: v(BusScalar::I32(5), "5"),
        max_value: v(BusScalar::U32(120), "120"),
        possible_values: None,
        scalar_increment: v(BusScalar::I32(1), "1"),
        queued_gpu_value: None,
    }
}

#[test]
fn armoury_attributes_are_read_one_by_one() {
    let path = "/xyz/ljones/asus_armoury/ppt_pl1_spl".to_string();
    let a = armoury_attribute(&path, &Ok(attribute(65)));
    assert_eq!(a.path, path);
    assert_eq!(a.name, Some("ppt_pl1_spl".to_string()));
    assert_eq!(a.current_value, Some(65));
    assert_eq!(a.max_value, None);
    assert_eq!(a.last_error, None);
    let failed = armoury_attribute(&path, &Err("no proxy".to_string()));
    assert_eq!(failed.path, path);
    assert_eq!(failed.current_value, None);
    assert_eq!(failed.last_error, Some("no proxy".to_string()));
    let all = armoury_status(&vec![
        ("/a".to_string(), Ok(attribute(10))),
        ("/b".to_string(), Err("denied".to_string())),
    ]);
    assert_eq!(all.attributes.len(), 2);
    assert_eq!(all.attributes[0].path, "/a");
    assert_eq!(all.attributes[0].current_value, Some(10));
    assert_eq!(all.attributes[1].last_error, Some("denied".to_string()));
    assert_eq!(all.last_error, None);
}

#[test]
fn gpu_status_names_supergfxd_codes() {
    let g = gpu_status(GfxAnswers {
        mode: Some(1),
        power: Some(2),
        pending_mode: None,
        pending_action: Some(1),
        version: Some("5.2.1".to_string()),
        vendor: Some("Nvidia".to_string()),
        supported: Some(vec![0, 1, 3]),
    });
    assert_eq!(g.mode, Some("Integrated".to_string()));
    assert_eq!(g.power, Some("off".to_string()));
    assert_eq!(g.pending_mode, None);
    assert_eq!(g.pending_action, Some("Reboot".to_string()));
    assert_eq!(g.daemon_version, Some("5.2.1".to_string()));
    assert_eq!(g.supported_modes, Some("Hybrid, Integrated, Vfio".to_string()));
    assert_eq!(mode_change_answer(&v(BusScalar::U32(1), "1")), "1");
    assert_eq!(mode_change_answer(&None), "unknown");
}

#[test]
fn power_status_reads_its_properties() {
    let p = power_status(&PowerProperties {
        active_profile: v(BusScalar::Str("performance".to_string()), "\"performance\""),
        profiles: None,
        performance_degraded: v(BusScalar::Str("".to_string()), "\"\""),
    });
    assert_eq!(p.active_profile, Some("performance".to_string()));
    assert_eq!(p.profiles, None);
    assert_eq!(p.performance_degraded, None);
}
