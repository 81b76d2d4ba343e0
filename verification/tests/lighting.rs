use zephyr::lighting::{
    cycle_brightness_target, parse_aura_mode_codes, parse_brightness_level, parse_slash_mode_codes,
};

#[test]
fn aura_modes_have_codes() {
    assert_eq!(parse_aura_mode_codes("Static"), Some(vec![0]));
    assert_eq!(parse_aura_mode_codes("rainbow_wave"), Some(vec![3]));
    assert_eq!(parse_aura_mode_codes("Rainbow Cycle"), Some(vec![2]));
    assert_eq!(parse_aura_mode_codes("stars"), Some(vec![4]));
    assert_eq!(parse_aura_mode_codes("flash"), Some(vec![12]));
    assert_eq!(parse_aura_mode_codes("disco"), None);
}

#[test]
fn aura_pulse_also_tries_the_star_code() {
    assert_eq!(parse_aura_mode_codes("Pulse"), Some(vec![10, 4]));
}

#[test]
fn slash_modes_have_sorted_codes() {
    assert_eq!(parse_slash_mode_codes("static"), Some(vec![0, 6]));
    assert_eq!(parse_slash_mode_codes("Game Over"), Some(vec![13, 0x42]));
    assert_eq!(parse_slash_mode_codes("buzzer"), Some(vec![15, 0x44]));
    assert_eq!(parse_slash_mode_codes("wave"), None);
}

#[test]
fn brightness_levels_parse() {
    assert_eq!(parse_brightness_level("off"), Some(0));
    assert_eq!(parse_brightness_level(" LOW "), Some(1));
    assert_eq!(parse_brightness_level("Med"), Some(2));
    assert_eq!(parse_brightness_level("medium"), Some(2));
    assert_eq!(parse_brightness_level("High"), Some(3));
    assert_eq!(parse_brightness_level("2"), Some(2));
    assert_eq!(parse_brightness_level("+3"), Some(3));
    assert_eq!(parse_brightness_level("4"), None);
    assert_eq!(parse_brightness_level("max"), None);
}

#[test]
fn brightness_cycles_and_wraps() {
    assert_eq!(cycle_brightness_target(Some("High"), true), 0);
    assert_eq!(cycle_brightness_target(Some("Off"), false), 3);
    assert_eq!(cycle_brightness_target(Some("low"), true), 2);
    assert_eq!(cycle_brightness_target(None, true), 1);
    assert_eq!(cycle_brightness_target(Some("weird"), false), 3);
}

#[test]
fn brightness_step_up_then_down_returns() {
    for name in ["off", "low", "med", "high"] {
        let level = parse_brightness_level(name).unwrap();
        let up = cycle_brightness_target(Some(name), true);
        let names = ["off", "low", "med", "high"];
        let back = cycle_brightness_target(Some(names[up as usize]), false);
        assert_eq!(back, level);
    }
}
