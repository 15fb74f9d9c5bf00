use x360ce::model::{HatDirection, InputBinding, OutputControl, RawState};
use x360ce::presentation::{
    auto_tray_step, axis_binding_positive, compact_control_label, countdown_remaining, ellipsize,
    initial_window_visible, learned_status, learning_prompt, output_chip,
    primary_live_input_label, runtime_status, short_control_label, started_from_startup,
    tray_action, tray_tooltip, AutoTrayStep, RuntimeStatus, TrayAction, LIVE_AXIS_NEGATIVE,
    LIVE_AXIS_POSITIVE,
};

#[test]
fn stick_clicks_show_as_l3_and_r3() {
    assert_eq!(short_control_label(OutputControl::LeftThumb), "L3");
    assert_eq!(short_control_label(OutputControl::RightThumb), "R3");
    assert_eq!(short_control_label(OutputControl::Back), "◀");
    assert_eq!(compact_control_label(OutputControl::DpadUp), "D-pad ↑");
    assert_eq!(compact_control_label(OutputControl::A), "A");
    assert_eq!(compact_control_label(OutputControl::Guide), "Guide");
}

#[test]
fn long_names_are_shortened() {
    assert_eq!(ellipsize("short", 34), "short");
    assert_eq!(ellipsize("abcdef", 4), "abc…");
    assert_eq!(ellipsize("ábcdé", 5), "ábcdé");
    assert_eq!(ellipsize("ab", 0), "…");
}

fn normalized(value: i16) -> f32 {
    if value < 0 {
        value as f32 / 32_768.0
    } else {
        value as f32 / 32_767.0
    }
}

#[test]
fn live_axis_thresholds_match_normalized_positions() {
    for value in i16::MIN..=i16::MAX {
        let n = normalized(value);
        assert_eq!(value >= LIVE_AXIS_POSITIVE, n >= 0.18, "value {value}");
        assert_eq!(value <= LIVE_AXIS_NEGATIVE, n <= -0.18, "value {value}");
    }
}

#[test]
fn live_input_names_the_first_active_input() {
    assert_eq!(primary_live_input_label(&RawState::default()), "none");
    let raw = RawState {
        axes: vec![100, -6000],
        buttons: vec![false, false],
        hats: vec![HatDirection::Down],
    };
    assert_eq!(primary_live_input_label(&raw), "Axis 2 -");
    let pressed = RawState {
        buttons: vec![false, true],
        ..raw.clone()
    };
    assert_eq!(primary_live_input_label(&pressed), "Button 2");
    let hat_only = RawState {
        axes: vec![0],
        buttons: vec![],
        hats: vec![HatDirection::Centered, HatDirection::LeftUp],
    };
    assert_eq!(primary_live_input_label(&hat_only), "Hat 2 Up + Left");
}

#[test]
fn axis_binding_directions() {
    assert_eq!(axis_binding_positive(InputBinding::AxisPositive { index: 1 }), Some(true));
    assert_eq!(axis_binding_positive(InputBinding::AxisNegative { index: 1 }), Some(false));
    assert_eq!(axis_binding_positive(InputBinding::Button { index: 1 }), None);
}

#[test]
fn status_bar_and_tray_texts() {
    assert_eq!(runtime_status(false, true, true, true, true), RuntimeStatus::DriverMissing);
    assert_eq!(runtime_status(true, true, true, true, true), RuntimeStatus::Configuring);
    assert_eq!(runtime_status(true, false, true, true, true), RuntimeStatus::Forwarding);
    assert_eq!(runtime_status(true, false, true, false, false), RuntimeStatus::Paused);
    assert_eq!(runtime_status(true, false, true, false, true).label(), "waiting");
    assert_eq!(output_chip(true, true, false), "output isolated");
    assert_eq!(output_chip(false, true, true), "virtual on");
    assert_eq!(output_chip(false, true, false), "virtual off");
    assert_eq!(tray_tooltip("v1.0.0", true, false), "x360ce v1.0.0 — waiting for controller");
    assert_eq!(tray_tooltip("v1.0.0", false, false), "x360ce v1.0.0 — paused");
    assert_eq!(tray_tooltip("v1.0.0", false, true), "x360ce v1.0.0 — forwarding");
}

#[test]
fn window_moves_to_tray_after_idle_and_countdown() {
    assert_eq!(auto_tray_step(false, true, 60, 10, 0, None, 999_999), AutoTrayStep::Idle);
    assert_eq!(auto_tray_step(true, false, 60, 10, 0, None, 999_999), AutoTrayStep::Idle);
    assert_eq!(auto_tray_step(true, true, 60, 10, 0, None, 59_999), AutoTrayStep::Idle);
    assert_eq!(
        auto_tray_step(true, true, 60, 10, 0, None, 60_000),
        AutoTrayStep::CountingDown { started_ms: 60_000 }
    );
    assert_eq!(
        auto_tray_step(true, true, 60, 10, 0, Some(60_000), 69_999),
        AutoTrayStep::CountingDown { started_ms: 60_000 }
    );
    assert_eq!(
        auto_tray_step(true, true, 60, 10, 0, Some(60_000), 70_000),
        AutoTrayStep::HideWindow
    );
    assert_eq!(
        auto_tray_step(true, true, 60, 10, 65_000, Some(60_000), 70_000),
        AutoTrayStep::Idle
    );
    assert_eq!(auto_tray_step(true, true, 0, 0, 0, None, 1_000), AutoTrayStep::CountingDown { started_ms: 1_000 });
    assert_eq!(countdown_remaining(None, 10, 5), None);
    assert_eq!(countdown_remaining(Some(1_000), 10, 1_000), Some(10));
    assert_eq!(countdown_remaining(Some(1_000), 10, 4_500), Some(7));
    assert_eq!(countdown_remaining(Some(1_000), 10, 99_000), Some(1));
}

#[test]
fn startup_flag_and_initial_visibility() {
    let args = vec![Some("x360ce.exe".to_string()), None, Some("--startup".to_string())];
    assert!(started_from_startup(&args));
    assert!(!started_from_startup(&vec![Some("--start".to_string())]));
    assert!(initial_window_visible(true, true, true));
    assert!(!initial_window_visible(false, true, false));
    assert!(!initial_window_visible(false, false, true));
    assert!(initial_window_visible(false, false, false));
}

#[test]
fn tray_menu_identifiers() {
    assert_eq!(tray_action("quit"), Some(TrayAction::Quit));
    assert_eq!(tray_action("auto-tray"), Some(TrayAction::ToggleAutoTray));
    assert_eq!(tray_action("nothing"), None);
    assert_eq!(TrayAction::CheckUpdates.menu_id(), "check");
}

#[test]
fn learning_texts() {
    assert_eq!(
        learning_prompt(OutputControl::LeftStickX, true),
        "Move or press negative output for Left stick X."
    );
    assert_eq!(learning_prompt(OutputControl::A, true), "Move or press input for A.");
    assert_eq!(
        learned_status(OutputControl::B, InputBinding::Button { index: 4 }),
        "B mapped to Button 5."
    );
}

#[test]
fn activity_cancels_a_running_countdown() {
    for started in [None, Some(0), Some(50_000), Some(u64::MAX)] {
        assert_eq!(
            auto_tray_step(true, true, 60, 10, 123_456, started, 123_456),
            AutoTrayStep::Idle
        );
        assert_eq!(
            auto_tray_step(true, true, 0, 0, u64::MAX, started, u64::MAX),
            AutoTrayStep::Idle
        );
    }
}
