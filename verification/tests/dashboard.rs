use zephyr::dashboard::{
    assemble_availability, collect_dashboard_resilient, interfaces_probed, millis_or_zero, now_ms,
    probe_daemons_resilient, probe_with_note, InterfaceProbes,
};
use zephyr::dto::{DaemonHealthSnapshot, DashboardSnapshotDto, PlatformStatusSnapshot};
use zephyr::sections::{
    read_armoury_snapshot, read_fan_curves_snapshot, read_gpu_snapshot, read_platform_snapshot,
    read_power_snapshot, read_scsi_snapshot, require_charge_control, require_daemon,
    require_interface, section_gate, Daemon,
};

fn all_found() -> InterfaceProbes {
    InterfaceProbes {
        platform: Ok(true),
        fan_curves: Ok(true),
        aura: Ok(true),
        anime: Ok(false),
        slash: Ok(true),
        scsi: Ok(true),
        backlight: Ok(true),
        armoury: Ok(true),
    }
}

#[test]
fn failed_probe_counts_as_missing_and_leaves_a_note() {
    let mut notes = Vec::new();
    assert!(probe_with_note(Ok(true), "asusd probe failed", &mut notes));
    assert!(!probe_with_note(Ok(false), "asusd probe failed", &mut notes));
    assert!(notes.is_empty());
    assert!(!probe_with_note(Err("no bus".to_string()), "ppd probe failed", &mut notes));
    assert_eq!(notes, vec!["ppd probe failed: no bus".to_string()]);
}

#[test]
fn interfaces_are_probed_only_with_asusd() {
    assert!(interfaces_probed(&Ok(true)));
    assert!(!interfaces_probed(&Ok(false)));
    assert!(!interfaces_probed(&Err("x".to_string())));
}

#[test]
fn availability_reflects_every_probe() {
    let (health, ifaces) =
        assemble_availability(Ok(true), Ok(false), Ok(true), Some(all_found()));
    assert!(health.asusd_available && !health.supergfxd_available && health.ppd_available);
    assert_eq!(health.last_error, None);
    assert!(ifaces.asusd_platform_available && ifaces.asusd_fan_curves_available);
    assert!(ifaces.asusd_aura_available && !ifaces.asusd_anime_available);
    assert!(ifaces.asusd_slash_available && ifaces.asusd_scsi_available);
    assert!(ifaces.asusd_backlight_available && ifaces.asusd_armoury_available);
    assert!(!ifaces.supergfxd_interface_available && ifaces.ppd_interface_available);
}

#[test]
fn probe_failures_are_joined_in_order() {
    let mut probes = all_found();
    probes.aura = Err("timeout".to_string());
    probes.armoury = Err("denied".to_string());
    let (health, ifaces) = assemble_availability(
        Ok(true),
        Err("no reply".to_string()),
        Ok(true),
        Some(probes),
    );
    assert_eq!(
        health.last_error,
        Some(
            "supergfxd probe failed: no reply; asusd aura interface discovery failed: timeout; \
asusd armoury interface discovery failed: denied"
                .to_string()
        )
    );
    assert!(!ifaces.asusd_aura_available && !ifaces.asusd_armoury_available);
    assert!(!health.supergfxd_available);
}

#[test]
fn no_asusd_means_no_asusd_interface() {
    let (health, ifaces) =
        assemble_availability(Err("gone".to_string()), Ok(true), Ok(true), None);
    assert!(!health.asusd_available);
    assert_eq!(health.last_error, Some("asusd probe failed: gone".to_string()));
    assert!(!ifaces.asusd_platform_available && !ifaces.asusd_fan_curves_available);
    assert!(!ifaces.asusd_aura_available && !ifaces.asusd_anime_available);
    assert!(!ifaces.asusd_slash_available && !ifaces.asusd_scsi_available);
    assert!(!ifaces.asusd_backlight_available && !ifaces.asusd_armoury_available);
    assert!(ifaces.supergfxd_interface_available && ifaces.ppd_interface_available);
}

#[test]
fn failed_probing_degrades_to_all_down() {
    let h = probe_daemons_resilient(Err("D-Bus: failed to connect".to_string()));
    assert!(!h.asusd_available && !h.supergfxd_available && !h.ppd_available);
    assert_eq!(h.last_error, Some("D-Bus: failed to connect".to_string()));
    let ok = probe_daemons_resilient(Ok(DaemonHealthSnapshot {
        asusd_available: true,
        supergfxd_available: true,
        ppd_available: false,
        last_error: None,
    }));
    assert!(ok.asusd_available && ok.supergfxd_available && !ok.ppd_available);
}

#[test]
fn failed_collection_degrades_to_an_empty_dashboard() {
    let d = collect_dashboard_resilient(Err("bus down".to_string()), 42);
    assert_eq!(d.updated_at_ms, 42);
    assert!(!d.health.asusd_available);
    assert_eq!(d.health.last_error, Some("bus down".to_string()));
    assert!(!d.interfaces.asusd_platform_available);
    assert_eq!(d.gpu.mode, None);
    assert_eq!(d.gpu.last_error, None);
    assert!(d.fan_curves.curve_series.is_empty());
    assert!(d.armoury.attributes.is_empty());
    assert_eq!(d.performance.cpu.core_count, None);
    let collected = DashboardSnapshotDto::from_health(
        DaemonHealthSnapshot {
            asusd_available: true,
            supergfxd_available: true,
            ppd_available: true,
            last_error: None,
        },
        9,
    );
    let kept = collect_dashboard_resilient(Ok(collected), 100);
    assert_eq!(kept.updated_at_ms, 9);
    assert!(kept.health.asusd_available);
}

#[test]
fn clock_reading_is_milliseconds_since_the_epoch() {
    assert_eq!(millis_or_zero(Some(1_700_000_000_123)), 1_700_000_000_123);
    assert_eq!(millis_or_zero(None), 0);
    assert_eq!(millis_or_zero(Some((1u128 << 64) + 5)), 5);
    let t = now_ms();
    assert!(t > 1_600_000_000_000);
    assert!(t < 4_000_000_000_000);
}

#[test]
fn sections_say_why_they_have_no_reading() {
    let p = read_platform_snapshot(false, false, None);
    assert_eq!(p.last_error, Some("asusd unavailable".to_string()));
    assert_eq!(p.platform_profile, None);
    let p = read_platform_snapshot(true, false, None);
    assert_eq!(p.last_error, Some("asusd platform interface unavailable".to_string()));
    let p = read_platform_snapshot(true, true, Some(Err("D-Bus: timeout".to_string())));
    assert_eq!(p.last_error, Some("D-Bus: timeout".to_string()));
    let reading = PlatformStatusSnapshot {
        platform_profile: Some("Quiet".to_string()),
        platform_profile_choices: None,
        platform_profile_on_ac: None,
        platform_profile_on_battery: None,
        charge_control_end_threshold: Some(80),
        platform_profile_linked_epp: None,
        last_error: None,
    };
    let p = read_platform_snapshot(true, true, Some(Ok(reading)));
    assert_eq!(p.platform_profile, Some("Quiet".to_string()));
    assert_eq!(p.charge_control_end_threshold, Some(80));
    let f = read_fan_curves_snapshot(true, false, None);
    assert_eq!(f.last_error, Some("asusd fan curves interface unavailable".to_string()));
    assert!(f.curve_series.is_empty());
    let s = read_scsi_snapshot(false, true, None);
    assert_eq!(s.last_error, Some("asusd unavailable".to_string()));
    let a = read_armoury_snapshot(true, false, None);
    assert_eq!(a.last_error, Some("asusd armoury interface unavailable".to_string()));
}

#[test]
fn gpu_section_without_supergfxd() {
    let nvidia = read_gpu_snapshot(false, Some(true), None);
    assert_eq!(nvidia.mode, Some("Nvidia".to_string()));
    assert_eq!(nvidia.vendor, Some("NVIDIA".to_string()));
    assert_eq!(nvidia.last_error, None);
    let none = read_gpu_snapshot(false, Some(false), None);
    assert_eq!(none.mode, None);
    assert_eq!(none.last_error, Some("supergfxd unavailable".to_string()));
    let failed = read_gpu_snapshot(true, None, Some(Err("no reply".to_string())));
    assert_eq!(failed.last_error, Some("no reply".to_string()));
}

#[test]
fn power_section_without_its_daemon() {
    let p = read_power_snapshot(false, None);
    assert_eq!(p.last_error, Some("power-profiles-daemon unavailable".to_string()));
    assert_eq!(p.active_profile, None);
}

#[test]
fn changes_need_their_daemon_and_interface() {
    assert_eq!(section_gate(true, true, "x"), None);
    assert_eq!(section_gate(false, true, "x"), Some("asusd unavailable".to_string()));
    assert_eq!(section_gate(true, false, "asusd aura interface unavailable"), Some("asusd aura interface unavailable".to_string()));
    assert!(require_interface(true, true, "x").is_ok());
    assert_eq!(require_interface(true, false, "asusd slash interface unavailable"), Err("asusd slash interface unavailable".to_string()));
    assert_eq!(require_daemon(Daemon::Supergfxd, false), Err("supergfxd unavailable".to_string()));
    assert_eq!(require_daemon(Daemon::PowerProfiles, false), Err("power-profiles-daemon unavailable".to_string()));
    assert_eq!(require_daemon(Daemon::Asusd, false), Err("asusd unavailable".to_string()));
    assert!(require_daemon(Daemon::Asusd, true).is_ok());
    assert_eq!(require_charge_control(false), Err("asusd charge limit control unsupported".to_string()));
    assert!(require_charge_control(true).is_ok());
}

#[test]
fn daemon_probes_stop_at_the_first_failure() {
    let h = zephyr::dashboard::probe_daemons(Ok(true), Some(Ok(false)), Some(Ok(true))).ok().unwrap();
    assert!(h.asusd_available && !h.supergfxd_available && h.ppd_available);
    assert_eq!(h.last_error, None);
    assert_eq!(
        zephyr::dashboard::probe_daemons(Err("x".to_string()), None, None).err().unwrap(),
        "D-Bus: asusd probe failed"
    );
    assert_eq!(
        zephyr::dashboard::probe_daemons(Ok(true), Some(Err("y".to_string())), None).err().unwrap(),
        "D-Bus: supergfxd probe failed"
    );
    assert_eq!(
        zephyr::dashboard::probe_daemons(Ok(false), Some(Ok(true)), Some(Err("z".to_string()))).err().unwrap(),
        "D-Bus: ppd probe failed"
    );
}

fn sample(at: u64) -> DashboardSnapshotDto {
    let mut d = DashboardSnapshotDto::from_health(
        DaemonHealthSnapshot {
            asusd_available: true,
            supergfxd_available: true,
            ppd_available: false,
            last_error: Some("ppd probe failed: x".to_string()),
        },
        at,
    );
    d.gpu.mode = Some("Hybrid".to_string());
    d.fan_curves.curve_series.push(zephyr::dto::FanCurveSeriesSnapshot {
        fan: "CPU".to_string(),
        enabled: true,
        points: vec![zephyr::dto::FanCurvePointSnapshot { temperature: 30, pwm: 10 }],
    });
    d
}

#[test]
fn unchanged_dashboard_is_not_published_again() {
    let held = sample(1);
    assert!(zephyr::compare::dashboards_match(&held, &sample(1)));
    assert!(!zephyr::compare::should_publish(Some(&held), &sample(1)));
    assert!(zephyr::compare::should_publish(None, &sample(1)));
}

#[test]
fn changed_dashboard_is_published() {
    let held = sample(1);
    assert!(zephyr::compare::should_publish(Some(&held), &sample(2)));
    let mut other = sample(1);
    other.fan_curves.curve_series[0].points[0].pwm = 11;
    assert!(zephyr::compare::should_publish(Some(&held), &other));
    let mut renamed = sample(1);
    renamed.gpu.mode = Some("Integrated".to_string());
    assert!(!zephyr::compare::dashboards_match(&held, &renamed));
}
