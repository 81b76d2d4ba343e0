use zephyr::objects::{
    armoury_paths, first_interface_path, interface_offered, object_offers, paths_with_interface,
    ManagedObject,
};
use zephyr::perf::{
    chosen_line_of, cpu_snapshot, first_card_name, frequency_source_files, nvml_gpu_snapshot,
    parse_frequency_value, pick_frequency, pick_utilization, ram_snapshot, sysfs_gpu_snapshot,
    utilization_source_files, NvmlAnswers,
};

fn object(path: &str, ifaces: &[&str]) -> ManagedObject {
    ManagedObject {
        path: path.to_string(),
        interfaces: ifaces.iter().map(|s| s.to_string()).collect(),
    }
}

fn objects() -> Vec<ManagedObject> {
    vec![
        object("/xyz/ljones/aura/1", &["xyz.ljones.Aura"]),
        object("/xyz/ljones/asus_armoury/ppt_b", &["xyz.ljones.AsusArmoury"]),
        object("/xyz/ljones", &["xyz.ljones.Platform", "xyz.ljones.FanCurves"]),
        object("/xyz/ljones/asus_armoury/ppt_a", &["org.freedesktop.DBus.Properties", "xyz.ljones.AsusArmoury"]),
        object("/elsewhere/armoury", &["xyz.ljones.AsusArmoury"]),
        object("/xyz/ljones/aura/0", &["xyz.ljones.Aura"]),
    ]
}

#[test]
fn objects_offering_an_interface_are_found_in_order() {
    let objs = objects();
    assert!(object_offers(&objs[2], "xyz.ljones.FanCurves"));
    assert!(!object_offers(&objs[2], "xyz.ljones.Aura"));
    assert_eq!(
        paths_with_interface(&objs, "xyz.ljones.Aura"),
        vec!["/xyz/ljones/aura/1".to_string(), "/xyz/ljones/aura/0".to_string()]
    );
    assert!(interface_offered(&objs, "xyz.ljones.Platform"));
    assert!(!interface_offered(&objs, "xyz.ljones.Slash"));
}

#[test]
fn first_interface_path_is_the_smallest() {
    let paths = paths_with_interface(&objects(), "xyz.ljones.Aura");
    assert_eq!(first_interface_path(&paths, "xyz.ljones.Aura"), Ok("/xyz/ljones/aura/0".to_string()));
    assert_eq!(
        first_interface_path(&Vec::new(), "xyz.ljones.Slash"),
        Err("asusd interface 'xyz.ljones.Slash' is unavailable".to_string())
    );
}

#[test]
fn armoury_paths_are_sorted_and_under_the_prefix() {
    assert_eq!(
        armoury_paths(&objects()),
        vec![
            "/xyz/ljones/asus_armoury/ppt_a".to_string(),
            "/xyz/ljones/asus_armoury/ppt_b".to_string()
        ]
    );
    assert!(armoury_paths(&Vec::new()).is_empty());
}

#[test]
fn frequency_is_read_from_the_marked_line() {
    assert_eq!(parse_frequency_value("500Mhz\n1800Mhz *\n2200Mhz\n", 1), Some(1800));
    assert_eq!(parse_frequency_value("0: 500Mhz\n1: 1800Mhz *\n2: 2200Mhz\n", 1), Some(1));
    assert_eq!(parse_frequency_value("1300\n", 1), Some(1300));
    assert_eq!(parse_frequency_value("  1500000000 ", 1_000_000), Some(1500));
    assert_eq!(parse_frequency_value("8.0 GT/s PCIe", 1), Some(8));
    assert_eq!(parse_frequency_value("no digits", 1), None);
    assert_eq!(parse_frequency_value("", 1), None);
    assert_eq!(parse_frequency_value("1200", 0), None);
    assert_eq!(parse_frequency_value("99999999999999999999", 1), None);
    assert_eq!(parse_frequency_value("18446744073709551615", 1), Some(u32::MAX));
    assert_eq!(chosen_line_of(&"a\nb*\nc*".chars().collect()), "b*".chars().collect::<Vec<char>>());
    assert_eq!(chosen_line_of(&"first\nsecond".chars().collect()), "first".chars().collect::<Vec<char>>());
}

#[test]
fn first_source_with_a_figure_wins() {
    assert_eq!(frequency_source_files()[2], "device/cur_freq");
    assert_eq!(utilization_source_files(), vec!["device/gpu_busy_percent", "device/mem_busy_percent"]);
    let readings = vec![None, Some("garbage".to_string()), Some("1500000000\n".to_string()), Some("8".to_string())];
    assert_eq!(pick_frequency(&readings), Ok((1500, 2)));
    assert_eq!(
        pick_frequency(&vec![None, None, None, None]),
        Err("gpu frequency source unavailable".to_string())
    );
    assert_eq!(pick_utilization(&vec![None, Some(125)]), Ok((125, 1)));
    assert_eq!(pick_utilization(&vec![None, None]), Err("gpu utilization source unavailable".to_string()));
}

#[test]
fn first_card_is_chosen_by_name() {
    let names: Vec<String> = ["card1-HDMI-A-1", "renderD128", "card1", "card0-eDP-1", "card0", "version"]
        .iter()
        .map(|s| s.to_string())
        .collect();
    assert_eq!(first_card_name(&names), Some("card0".to_string()));
    assert_eq!(first_card_name(&vec!["renderD128".to_string()]), None);
}

#[test]
fn cpu_figures_average_the_cores() {
    let c = cpu_snapshot(&vec![1000, 2000, 3001], Some(125));
    assert_eq!(c.core_count, Some(3));
    assert_eq!(c.frequency_mhz, Some(2000));
    assert_eq!(c.utilization_tenths, Some(125));
    assert_eq!(c.last_error, None);
    let none = cpu_snapshot(&Vec::new(), None);
    assert_eq!(none.core_count, None);
    assert_eq!(
        none.last_error,
        Some("sysinfo reported zero cpu cores; sysinfo returned invalid cpu utilization".to_string())
    );
}

#[test]
fn memory_share_is_rounded_to_tenths() {
    let r = ram_snapshot(16_000, 4_000);
    assert_eq!(r.total_bytes, Some(16_000));
    assert_eq!(r.used_bytes, Some(4_000));
    assert_eq!(r.utilization_tenths, Some(250));
    assert_eq!(ram_snapshot(3, 1).utilization_tenths, Some(333));
    assert_eq!(ram_snapshot(3, 2).utilization_tenths, Some(667));
    assert_eq!(ram_snapshot(10, 50).used_bytes, Some(10));
    assert_eq!(ram_snapshot(10, 50).utilization_tenths, Some(1000));
    let zero = ram_snapshot(0, 5);
    assert_eq!(zero.total_bytes, None);
    assert_eq!(zero.last_error, Some("sysinfo reported zero total memory".to_string()));
}

#[test]
fn nvml_steps_stop_at_the_first_failure() {
    let full = nvml_gpu_snapshot(&NvmlAnswers {
        count: Ok(1),
        device: Some(Ok(())),
        utilization: Some(Ok(37)),
        clock: Some(Ok(1650)),
    })
    .unwrap();
    assert_eq!(full.frequency_mhz, Some(1650));
    assert_eq!(full.utilization_tenths, Some(370));
    assert_eq!(full.source, Some("nvml".to_string()));
    assert_eq!(full.last_error, None);
    assert!(nvml_gpu_snapshot(&NvmlAnswers { count: Ok(0), device: None, utilization: None, clock: None }).is_none());
    let no_count = nvml_gpu_snapshot(&NvmlAnswers {
        count: Err("driver".to_string()),
        device: None,
        utilization: None,
        clock: None,
    })
    .unwrap();
    assert_eq!(no_count.last_error, Some("nvml device count query failed: driver".to_string()));
    let no_clock = nvml_gpu_snapshot(&NvmlAnswers {
        count: Ok(2),
        device: Some(Ok(())),
        utilization: Some(Ok(5)),
        clock: Some(Err("busy".to_string())),
    })
    .unwrap();
    assert_eq!(no_clock.utilization_tenths, Some(50));
    assert_eq!(no_clock.frequency_mhz, None);
    assert_eq!(no_clock.last_error, Some("nvml clock query failed: busy".to_string()));
}

#[test]
fn sysfs_figures_note_what_is_missing() {
    let none = sysfs_gpu_snapshot(false, None, None);
    assert_eq!(none.last_error, Some("no drm card found".to_string()));
    let both = sysfs_gpu_snapshot(
        true,
        Some(Ok((1200, "/sys/class/drm/card0/device/pp_dpm_sclk".to_string()))),
        Some(Ok((455, "/sys/class/drm/card0/device/gpu_busy_percent".to_string()))),
    );
    assert_eq!(both.frequency_mhz, Some(1200));
    assert_eq!(both.utilization_tenths, Some(455));
    assert_eq!(both.source, Some("/sys/class/drm/card0/device/pp_dpm_sclk".to_string()));
    assert_eq!(both.last_error, None);
    let half = sysfs_gpu_snapshot(
        true,
        Some(Err("gpu frequency source unavailable".to_string())),
        Some(Ok((10, "/u".to_string()))),
    );
    assert_eq!(half.source, Some("/u".to_string()));
    assert_eq!(half.last_error, Some("gpu frequency source unavailable".to_string()));
    let neither = sysfs_gpu_snapshot(
        true,
        Some(Err("a".to_string())),
        Some(Err("b".to_string())),
    );
    assert_eq!(neither.last_error, Some("a; b".to_string()));
    assert_eq!(neither.source, None);
}
