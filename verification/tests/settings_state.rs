use zephyr::dto::{ColorMode, LaunchBehavior, SettingsSnapshotDto, ThemeId, ThemeKind};
use zephyr::settings::{
    autostart_change_needed, is_valid_hex_color, normalize_settings, set_autostart_enabled,
    set_launch_behavior, set_theme, SettingsError, SettingsState,
};

fn settings(kind: ThemeKind, id: ThemeId, accent: Option<&str>) -> SettingsSnapshotDto {
    SettingsSnapshotDto {
        autostart_enabled: true,
        launch_behavior: LaunchBehavior::Silent,
        theme_kind: kind,
        theme_id: id,
        accent_color: accent.map(|a| a.to_string()),
        color_mode: ColorMode::Dark,
    }
}

fn same(a: &SettingsSnapshotDto, b: &SettingsSnapshotDto) -> bool {
    a.autostart_enabled == b.autostart_enabled
        && a.launch_behavior == b.launch_behavior
        && a.theme_kind == b.theme_kind
        && a.theme_id == b.theme_id
        && a.accent_color == b.accent_color
        && a.color_mode == b.color_mode
}

#[test]
fn fresh_settings_are_the_defaults() {
    let s = SettingsSnapshotDto::initial();
    assert!(!s.autostart_enabled);
    assert!(s.launch_behavior == LaunchBehavior::Normal);
    assert!(s.theme_kind == ThemeKind::Heroui);
    assert!(s.theme_id == ThemeId::Default);
    assert_eq!(s.accent_color, None);
    assert!(s.color_mode == ColorMode::System);
}

#[test]
fn hex_colors_are_checked() {
    assert!(is_valid_hex_color("#a1B2c3"));
    assert!(is_valid_hex_color("#000000"));
    assert!(!is_valid_hex_color("a1b2c3"));
    assert!(!is_valid_hex_color("#a1b2c"));
    assert!(!is_valid_hex_color("#a1b2c3d"));
    assert!(!is_valid_hex_color("#g1b2c3"));
    assert!(!is_valid_hex_color(""));
}

#[test]
fn loaded_settings_are_repaired() {
    let odd = normalize_settings(settings(ThemeKind::Heroui, ThemeId::Mocha, Some("#123456")));
    assert!(odd.theme_kind == ThemeKind::Catppuccin);
    assert!(odd.theme_id == ThemeId::Mocha);
    assert_eq!(odd.accent_color, None);
    let hero = normalize_settings(settings(ThemeKind::Heroui, ThemeId::Default, Some("#123456")));
    assert!(hero.theme_kind == ThemeKind::Heroui);
    assert_eq!(hero.accent_color, Some("#123456".to_string()));
    let cat = normalize_settings(settings(ThemeKind::Catppuccin, ThemeId::Latte, Some("#123456")));
    assert!(cat.theme_id == ThemeId::Latte);
    assert_eq!(cat.accent_color, None);
    assert!(cat.autostart_enabled && cat.launch_behavior == LaunchBehavior::Silent);
}

#[test]
fn repairing_twice_changes_nothing_more() {
    for s in [
        settings(ThemeKind::Heroui, ThemeId::Frappe, Some("#abcdef")),
        settings(ThemeKind::Catppuccin, ThemeId::Default, Some("#abcdef")),
        settings(ThemeKind::Heroui, ThemeId::Default, None),
    ] {
        let once = normalize_settings(s);
        let again = normalize_settings(once.copy());
        assert!(same(&once, &again));
    }
}

#[test]
fn theme_changes_follow_the_family() {
    let current = SettingsSnapshotDto::initial();
    let hero = set_theme(&current, ThemeKind::Heroui, ThemeId::Mocha, Some("#ff0000".to_string()), ColorMode::Light)
        .ok()
        .unwrap();
    assert!(hero.theme_kind == ThemeKind::Heroui);
    assert!(hero.theme_id == ThemeId::Default);
    assert_eq!(hero.accent_color, Some("#ff0000".to_string()));
    assert!(hero.color_mode == ColorMode::Light);
    let cat = set_theme(&current, ThemeKind::Catppuccin, ThemeId::Macchiato, Some("#ff0000".to_string()), ColorMode::Dark)
        .ok()
        .unwrap();
    assert!(cat.theme_id == ThemeId::Macchiato);
    assert_eq!(cat.accent_color, None);
    let again = normalize_settings(cat.copy());
    assert!(same(&again, &cat));
}

#[test]
fn bad_accent_color_is_refused_first() {
    let current = SettingsSnapshotDto::initial();
    let e = set_theme(&current, ThemeKind::Catppuccin, ThemeId::Default, Some("red".to_string()), ColorMode::Dark)
        .err()
        .unwrap();
    assert!(e == SettingsError::InvalidAccentColor);
    assert_eq!(e.message(), "settings: accentColor must be a #RRGGBB hex color");
}

#[test]
fn catppuccin_needs_a_flavor() {
    let current = SettingsSnapshotDto::initial();
    let e = set_theme(&current, ThemeKind::Catppuccin, ThemeId::Default, None, ColorMode::Dark)
        .err()
        .unwrap();
    assert!(e == SettingsError::CatppuccinNeedsFlavor);
    assert_eq!(
        e.message(),
        "settings: catppuccin theme requires latte, frappe, macchiato, or mocha"
    );
}

#[test]
fn start_and_launch_choices_change_only_themselves() {
    let current = settings(ThemeKind::Catppuccin, ThemeId::Latte, None);
    let off = set_autostart_enabled(&current, false);
    assert!(!off.autostart_enabled);
    assert!(off.theme_id == ThemeId::Latte && off.launch_behavior == LaunchBehavior::Silent);
    let normal = set_launch_behavior(&current, LaunchBehavior::Normal);
    assert!(normal.launch_behavior == LaunchBehavior::Normal);
    assert!(normal.autostart_enabled);
    assert!(autostart_change_needed(true, false));
    assert!(!autostart_change_needed(false, false));
}

#[test]
fn settings_read_back_what_was_written() {
    let mut state = SettingsState::new(SettingsSnapshotDto::initial());
    assert!(same(&state.get(), &SettingsSnapshotDto::initial()));
    let next = settings(ThemeKind::Catppuccin, ThemeId::Frappe, None);
    state.set(next.copy());
    assert!(same(&state.get(), &next));
}
