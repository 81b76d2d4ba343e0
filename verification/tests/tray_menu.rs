use zephyr::dto::{DaemonHealthSnapshot, DashboardSnapshotDto, LaunchBehavior};
use zephyr::tray::{
    autostart_notice, build_menu, build_profile_submenu, classify_menu_event,
    control_action_messages, daemon_health_line, extract_options, failure_notice, hides_on_close,
    minimize_notice, starts_hidden, status_line, tooltip_for_snapshot, trim_start_matches, yes_no,
    MenuEntry, ProfileSubmenu, TrayAction, TrayMenuModel, TrayState,
};

fn snapshot() -> DashboardSnapshotDto {
    let mut s = DashboardSnapshotDto::from_health(
        DaemonHealthSnapshot {
            asusd_available: true,
            supergfxd_available: false,
            ppd_available: true,
            last_error: None,
        },
        7,
    );
    s.gpu.mode = Some("Hybrid".to_string());
    s.gpu.supported_modes = Some("Hybrid, Integrated, Hybrid".to_string());
    s.power.active_profile = Some("balanced".to_string());
    s.platform.platform_profile_choices = Some("Quiet, Balanced, Performance".to_string());
    s.platform.platform_profile = Some("Balanced".to_string());
    s
}

#[test]
fn options_are_read_sorted_and_once() {
    assert_eq!(
        extract_options(Some("Balanced, Performance, quiet, Balanced"), &["x"]),
        vec!["Balanced".to_string(), "Performance".to_string(), "quiet".to_string()]
    );
    assert_eq!(
        extract_options(Some("[power-saver; balanced]"), &["x"]),
        vec!["balanced".to_string(), "power-saver".to_string()]
    );
}

#[test]
fn options_fall_back_when_none_is_listed() {
    assert_eq!(extract_options(None, &["b", "a"]), vec!["b".to_string(), "a".to_string()]);
    assert_eq!(extract_options(Some(", ; []"), &["only"]), vec!["only".to_string()]);
}

#[test]
fn status_lines_show_the_snapshot() {
    let s = snapshot();
    assert_eq!(status_line(&s), "GPU: Hybrid | Power: balanced | Platform: Balanced");
    assert_eq!(daemon_health_line(&s), "asusd:ok supergfxd:down ppd:ok");
    assert_eq!(
        tooltip_for_snapshot(&s),
        "AsusTone\nGPU: Hybrid | Power: balanced | Platform: Balanced\nasusd:ok supergfxd:down ppd:ok"
    );
    let empty = DashboardSnapshotDto::from_health(
        DaemonHealthSnapshot {
            asusd_available: false,
            supergfxd_available: false,
            ppd_available: false,
            last_error: None,
        },
        0,
    );
    assert_eq!(status_line(&empty), "GPU: unknown | Power: unknown | Platform: unknown");
    assert_eq!(yes_no(true), "ok");
    assert_eq!(yes_no(false), "down");
}

#[test]
fn submenu_checks_the_current_option_ignoring_case() {
    let m = build_profile_submenu(
        "Power profile",
        "tray:power:",
        Some("BALANCED"),
        vec!["balanced".to_string(), "performance".to_string()],
    );
    assert_eq!(m.title, "Power profile");
    assert_eq!(m.choices.len(), 2);
    assert_eq!(m.choices[0].id, "tray:power:balanced");
    assert_eq!(m.choices[0].label, "balanced");
    assert!(m.choices[0].checked);
    assert!(!m.choices[1].checked);
    let none = build_profile_submenu("t", "p:", None, vec!["a".to_string()]);
    assert!(!none.choices[0].checked);
}

fn submenu_at(m: &TrayMenuModel, i: usize) -> &ProfileSubmenu {
    match &m.entries[i] {
        MenuEntry::Submenu(sub) => sub,
        _ => panic!("entry {i} is not a submenu"),
    }
}

fn item_at(m: &TrayMenuModel, i: usize) -> (String, String, bool) {
    match &m.entries[i] {
        MenuEntry::Item { id, label, enabled } => (id.clone(), label.clone(), *enabled),
        _ => panic!("entry {i} is not a plain item"),
    }
}

fn check_at(m: &TrayMenuModel, i: usize) -> (String, String, bool, bool) {
    match &m.entries[i] {
        MenuEntry::Check { id, label, enabled, checked } => {
            (id.clone(), label.clone(), *enabled, *checked)
        }
        _ => panic!("entry {i} is not a checkable item"),
    }
}

#[test]
fn menu_offers_the_daemons_choices() {
    let m = build_menu(&snapshot(), false, true);
    let gpu_menu = submenu_at(&m, 3);
    assert_eq!(gpu_menu.title, "GPU mode");
    let gpu: Vec<&str> = gpu_menu.choices.iter().map(|c| c.label.as_str()).collect();
    assert_eq!(gpu, vec!["Hybrid", "Integrated"]);
    assert!(gpu_menu.choices[0].checked);
    let power_menu = submenu_at(&m, 4);
    assert_eq!(power_menu.title, "Power profile");
    let power: Vec<&str> = power_menu.choices.iter().map(|c| c.label.as_str()).collect();
    assert_eq!(power, vec!["power-saver", "balanced", "performance"]);
    assert!(power_menu.choices[1].checked);
    let platform_menu = submenu_at(&m, 5);
    assert_eq!(platform_menu.title, "Platform profile");
    let platform: Vec<&str> = platform_menu.choices.iter().map(|c| c.label.as_str()).collect();
    assert_eq!(platform, vec!["Balanced", "Performance", "Quiet"]);
    assert_eq!(platform_menu.choices[2].id, "tray:platform:Quiet");
}

#[test]
fn menu_has_thirteen_entries_in_order() {
    let m = build_menu(&snapshot(), false, true);
    assert_eq!(m.entries.len(), 13);
    assert_eq!(
        item_at(&m, 0),
        (
            "tray:status".to_string(),
            "GPU: Hybrid | Power: balanced | Platform: Balanced".to_string(),
            false
        )
    );
    assert_eq!(
        item_at(&m, 1),
        ("tray:daemon-status".to_string(), "asusd:ok supergfxd:down ppd:ok".to_string(), false)
    );
    assert!(matches!(m.entries[2], MenuEntry::Separator));
    assert_eq!(item_at(&m, 6), ("tray:refresh".to_string(), "Refresh Status".to_string(), true));
    assert_eq!(
        check_at(&m, 7),
        ("tray:autostart-toggle".to_string(), "Start on boot".to_string(), true, false)
    );
    assert_eq!(
        check_at(&m, 8),
        (
            "tray:minimize-to-tray-toggle".to_string(),
            "Minimize to tray on close".to_string(),
            true,
            true
        )
    );
    assert_eq!(item_at(&m, 9), ("tray:show-window".to_string(), "Show Window".to_string(), true));
    assert_eq!(item_at(&m, 10), ("tray:hide-window".to_string(), "Hide Window".to_string(), true));
    assert!(matches!(m.entries[11], MenuEntry::Separator));
    assert_eq!(item_at(&m, 12), ("tray:quit".to_string(), "Quit".to_string(), true));
    let flipped = build_menu(&snapshot(), true, false);
    assert!(check_at(&flipped, 7).3);
    assert!(!check_at(&flipped, 8).3);
}

#[test]
fn menu_entries_switch_to_their_option() {
    let m = build_menu(&snapshot(), true, true);
    for c in &submenu_at(&m, 3).choices {
        match classify_menu_event(&c.id) {
            TrayAction::SetGpuMode(mode) => assert_eq!(mode, c.label),
            _ => panic!("gpu entry not recognised"),
        }
    }
    for c in &submenu_at(&m, 4).choices {
        match classify_menu_event(&c.id) {
            TrayAction::SetPowerProfile(p) => assert_eq!(p, c.label),
            _ => panic!("power entry not recognised"),
        }
    }
    for c in &submenu_at(&m, 5).choices {
        match classify_menu_event(&c.id) {
            TrayAction::SetPlatformProfile(p) => assert_eq!(p, c.label),
            _ => panic!("platform entry not recognised"),
        }
    }
    assert!(matches!(classify_menu_event(&item_at(&m, 0).0), TrayAction::Nothing));
    assert!(matches!(classify_menu_event(&item_at(&m, 1).0), TrayAction::Nothing));
    assert!(matches!(classify_menu_event(&item_at(&m, 6).0), TrayAction::Refresh));
    assert!(matches!(classify_menu_event(&check_at(&m, 7).0), TrayAction::ToggleAutostart));
    assert!(matches!(classify_menu_event(&check_at(&m, 8).0), TrayAction::ToggleMinimize));
    assert!(matches!(classify_menu_event(&item_at(&m, 9).0), TrayAction::ShowWindow));
    assert!(matches!(classify_menu_event(&item_at(&m, 10).0), TrayAction::HideWindow));
    assert!(matches!(classify_menu_event(&item_at(&m, 12).0), TrayAction::Quit));
}

#[test]
fn fixed_entries_are_recognised() {
    assert!(matches!(classify_menu_event("tray:refresh"), TrayAction::Refresh));
    assert!(matches!(classify_menu_event("tray:show-window"), TrayAction::ShowWindow));
    assert!(matches!(classify_menu_event("tray:hide-window"), TrayAction::HideWindow));
    assert!(matches!(classify_menu_event("tray:autostart-toggle"), TrayAction::ToggleAutostart));
    assert!(matches!(classify_menu_event("tray:minimize-to-tray-toggle"), TrayAction::ToggleMinimize));
    assert!(matches!(classify_menu_event("tray:quit"), TrayAction::Quit));
    assert!(matches!(classify_menu_event("tray:status"), TrayAction::Nothing));
    assert!(matches!(classify_menu_event("tray:refresh "), TrayAction::Nothing));
}

#[test]
fn repeated_prefixes_are_all_removed() {
    match classify_menu_event("tray:gpu:tray:gpu:Vfio") {
        TrayAction::SetGpuMode(m) => assert_eq!(m, "Vfio"),
        _ => panic!("not a gpu entry"),
    }
    assert_eq!(trim_start_matches("ababc", "ab"), "c");
    assert_eq!(trim_start_matches("abc", "x"), "abc");
    assert_eq!(trim_start_matches("abc", ""), "abc");
}

#[test]
fn control_entries_tell_what_happened() {
    let (ok, failed) = control_action_messages(&TrayAction::SetPowerProfile("balanced".to_string())).unwrap();
    assert_eq!(ok, "Power profile set to balanced");
    assert_eq!(failed, "Failed to set power profile to balanced");
    let (ok, _) = control_action_messages(&TrayAction::SetGpuMode("Hybrid".to_string())).unwrap();
    assert_eq!(ok, "GPU mode set to Hybrid");
    let (_, failed) = control_action_messages(&TrayAction::SetPlatformProfile("Quiet".to_string())).unwrap();
    assert_eq!(failed, "Failed to set platform profile to Quiet");
    assert!(control_action_messages(&TrayAction::Quit).is_none());
    assert_eq!(failure_notice("Failed to set GPU mode to Vfio", "busy"), "Failed to set GPU mode to Vfio: busy");
    assert_eq!(minimize_notice(true), "Minimize-to-tray enabled.");
    assert_eq!(minimize_notice(false), "Minimize-to-tray disabled.");
    assert_eq!(autostart_notice(true), "Start-on-boot enabled.");
    assert_eq!(autostart_notice(false), "Start-on-boot disabled.");
}

#[test]
fn minimize_to_tray_starts_on_and_toggles_back() {
    let mut t = TrayState::default();
    assert!(t.minimize_to_tray_enabled());
    assert!(!t.toggle_minimize_to_tray());
    assert!(!t.minimize_to_tray_enabled());
    assert!(t.toggle_minimize_to_tray());
    assert!(t.minimize_to_tray_enabled());
    assert!(TrayState::new().minimize_to_tray_enabled());
}

#[test]
fn main_window_hides_instead_of_closing() {
    assert!(hides_on_close(true, "main", true));
    assert!(!hides_on_close(true, "main", false));
    assert!(!hides_on_close(true, "settings", true));
    assert!(!hides_on_close(false, "main", true));
}

#[test]
fn silent_launch_starts_hidden() {
    assert!(starts_hidden(LaunchBehavior::Silent));
    assert!(!starts_hidden(LaunchBehavior::Normal));
}
