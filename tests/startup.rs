use bbysjam::startup::{
    initial_window, plan_startup, GameConfig, InitialWindow, PresentMode, StartupMode,
};

fn expected_window() -> InitialWindow {
    InitialWindow {
        transparent: true,
        decorations: false,
        x: 0,
        y: 0,
        width: 1920,
        height: 1080,
        present_mode: PresentMode::Immediate,
    }
}

#[test]
fn initial_window_is_transparent_borderless_full_hd() {
    assert_eq!(initial_window(), expected_window());
}

#[test]
fn editor_mode_selects_inspector() {
    assert_eq!(GameConfig { editor_mode: true }.startup_mode(), StartupMode::Inspector);
}

#[test]
fn plain_mode_selects_stripe() {
    assert_eq!(GameConfig { editor_mode: false }.startup_mode(), StartupMode::Stripe);
}

#[test]
fn plan_in_editor_mode() {
    let p = plan_startup(&GameConfig { editor_mode: true });
    assert_eq!(p.window, expected_window());
    assert_eq!(p.mode, StartupMode::Inspector);
}

#[test]
fn plan_in_plain_mode() {
    let p = plan_startup(&GameConfig { editor_mode: false });
    assert_eq!(p.window, expected_window());
    assert_eq!(p.mode, StartupMode::Stripe);
}
