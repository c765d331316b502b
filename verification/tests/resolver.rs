use stay_awake::config::{assertion_bits, resolve, resolve_mode, Action, Config};
use stay_awake::wake::{WakeMode, ES_DISPLAY_REQUIRED, ES_SYSTEM_REQUIRED};

fn run_config(a: Action) -> Config {
    match a {
        Action::Run(c) => c,
        _ => panic!("expected the keep-awake loop to be entered"),
    }
}

#[test]
fn mode_one_selects_system() {
    assert_eq!(resolve_mode(Some("1")), vec![WakeMode::SystemRequired]);
}

#[test]
fn mode_two_selects_display() {
    assert_eq!(resolve_mode(Some("2")), vec![WakeMode::DisplayRequired]);
}

#[test]
fn mode_three_selects_system_then_display() {
    assert_eq!(
        resolve_mode(Some("3")),
        vec![WakeMode::SystemRequired, WakeMode::DisplayRequired]
    );
}

#[test]
fn unrecognized_mode_falls_back_to_display() {
    assert_eq!(resolve_mode(Some("4")), vec![WakeMode::DisplayRequired]);
    assert_eq!(resolve_mode(Some("0")), vec![WakeMode::DisplayRequired]);
    assert_eq!(resolve_mode(Some("system")), vec![WakeMode::DisplayRequired]);
    assert_eq!(resolve_mode(Some("13")), vec![WakeMode::DisplayRequired]);
    assert_eq!(resolve_mode(Some(" 1")), vec![WakeMode::DisplayRequired]);
}

#[test]
fn absent_mode_falls_back_to_display() {
    assert_eq!(resolve_mode(None), vec![WakeMode::DisplayRequired]);
}

#[test]
fn mode_never_resolves_empty() {
    let inputs = [
        Some(""),
        Some("1"),
        Some("2"),
        Some("3"),
        Some("999"),
        Some("-1"),
        Some("garbage"),
        Some("\u{00E9}\u{4E16}"),
        None,
    ];
    for m in inputs {
        assert!(!resolve_mode(m).is_empty());
    }
}

#[test]
fn wake_mode_bits_and_names() {
    assert_eq!(ES_SYSTEM_REQUIRED, 0x00000001);
    assert_eq!(ES_DISPLAY_REQUIRED, 0x00000002);
    assert_eq!(WakeMode::SystemRequired.bit(), 0x00000001);
    assert_eq!(WakeMode::DisplayRequired.bit(), 0x00000002);
    assert_eq!(WakeMode::SystemRequired.name(), "ES_SYSTEM_REQUIRED");
    assert_eq!(WakeMode::DisplayRequired.name(), "ES_DISPLAY_REQUIRED");
}

#[test]
fn help_wins_over_everything() {
    assert!(matches!(resolve(true, false, None, None), Action::ShowHelp));
    assert!(matches!(
        resolve(true, true, Some("3"), Some("notanumber")),
        Action::ShowHelp
    ));
}

#[test]
fn version_wins_after_help() {
    assert!(matches!(resolve(false, true, None, None), Action::ShowVersion));
    assert!(matches!(
        resolve(false, true, Some("1"), Some("notanumber")),
        Action::ShowVersion
    ));
}

#[test]
fn defaults_when_no_options() {
    let c = run_config(resolve(false, false, None, None));
    assert_eq!(c.timer_millis, 1000);
    assert_eq!(c.active_modes, vec![WakeMode::DisplayRequired]);
}

#[test]
fn timer_clamped_up() {
    let c = run_config(resolve(false, false, None, Some("500")));
    assert_eq!(c.timer_millis, 1000);
}

#[test]
fn timer_clamped_down() {
    let c = run_config(resolve(false, false, None, Some("70000")));
    assert_eq!(c.timer_millis, 60000);
}

#[test]
fn timer_in_range_passes_through() {
    let c = run_config(resolve(false, false, None, Some("2500")));
    assert_eq!(c.timer_millis, 2500);
}

#[test]
fn malformed_timer_is_fatal() {
    assert!(matches!(
        resolve(false, false, None, Some("notanumber")),
        Action::InvalidTimer
    ));
    assert!(matches!(
        resolve(false, false, Some("3"), Some("")),
        Action::InvalidTimer
    ));
    assert!(matches!(
        resolve(false, false, None, Some("18446744073709551616")),
        Action::InvalidTimer
    ));
}

#[test]
fn mode_three_asserts_two_bits_in_order() {
    let c = run_config(resolve(false, false, Some("3"), None));
    let bits = assertion_bits(&c);
    assert_eq!(bits, vec![ES_SYSTEM_REQUIRED, ES_DISPLAY_REQUIRED]);
}

#[test]
fn mode_one_asserts_system_bit() {
    let c = run_config(resolve(false, false, Some("1"), Some("1500")));
    assert_eq!(assertion_bits(&c), vec![ES_SYSTEM_REQUIRED]);
}

#[test]
fn iterations_assert_the_same_bits() {
    // The per-iteration decision depends on the configuration alone, so two
    // iterations of the loop assert identical flag sequences.
    let c = run_config(resolve(false, false, Some("3"), Some("500")));
    let first = assertion_bits(&c);
    let second = assertion_bits(&c);
    assert_eq!(first, second);
}
