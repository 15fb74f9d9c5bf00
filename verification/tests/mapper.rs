use x360ce::mapper::{
    binding_pressed, detect_binding, report_buttons, BUTTON_AXIS_NEGATIVE, BUTTON_AXIS_POSITIVE,
};
use x360ce::model::{
    ControllerProfile, HatDirection, InputBinding, MappingEntry, OutputControl, RawState,
};

#[test]
fn learns_new_button_press() {
    let previous = RawState {
        buttons: vec![false],
        ..Default::default()
    };
    let current = RawState {
        buttons: vec![true],
        ..Default::default()
    };
    assert_eq!(
        detect_binding(&previous, &current),
        Some(InputBinding::Button { index: 0 })
    );
}

#[test]
fn held_button_is_not_learned_again() {
    let state = RawState {
        buttons: vec![true, false],
        ..Default::default()
    };
    assert_eq!(detect_binding(&state, &state), None);
}

#[test]
fn button_missing_before_counts_as_released() {
    let previous = RawState::default();
    let current = RawState {
        buttons: vec![false, false, true],
        axes: vec![20_000],
        ..Default::default()
    };
    assert_eq!(
        detect_binding(&previous, &current),
        Some(InputBinding::Button { index: 2 })
    );
}

#[test]
fn learns_axis_direction() {
    let previous = RawState {
        axes: vec![0, 15_999, 0],
        ..Default::default()
    };
    let up = RawState {
        axes: vec![0, 16_000, 0],
        ..Default::default()
    };
    assert_eq!(
        detect_binding(&previous, &up),
        Some(InputBinding::AxisPositive { index: 1 })
    );
    let down = RawState {
        axes: vec![0, 0, -16_000],
        ..Default::default()
    };
    assert_eq!(
        detect_binding(&previous, &down),
        Some(InputBinding::AxisNegative { index: 2 })
    );
    let still = RawState {
        axes: vec![15_000, -15_999, 0],
        ..Default::default()
    };
    assert_eq!(detect_binding(&previous, &still), None);
}

#[test]
fn axis_already_past_threshold_is_not_learned() {
    let previous = RawState {
        axes: vec![17_000],
        ..Default::default()
    };
    let current = RawState {
        axes: vec![30_000],
        ..Default::default()
    };
    assert_eq!(detect_binding(&previous, &current), None);
}

#[test]
fn learns_hat_direction() {
    let previous = RawState {
        hats: vec![HatDirection::Up],
        ..Default::default()
    };
    let current = RawState {
        hats: vec![HatDirection::RightUp],
        ..Default::default()
    };
    assert_eq!(
        detect_binding(&previous, &current),
        Some(InputBinding::Hat {
            index: 0,
            direction: HatDirection::RightUp
        })
    );
    let centred = RawState {
        hats: vec![HatDirection::Centered],
        ..Default::default()
    };
    assert_eq!(detect_binding(&previous, &centred), None);
}

#[test]
fn buttons_take_priority_over_axes_and_hats() {
    let previous = RawState {
        buttons: vec![false],
        axes: vec![0],
        hats: vec![HatDirection::Centered],
    };
    let current = RawState {
        buttons: vec![true],
        axes: vec![30_000],
        hats: vec![HatDirection::Down],
    };
    assert_eq!(
        detect_binding(&previous, &current),
        Some(InputBinding::Button { index: 0 })
    );
}

fn normalized(value: i16) -> f32 {
    if value < 0 {
        value as f32 / 32_768.0
    } else {
        value as f32 / 32_767.0
    }
}

#[test]
fn axis_press_thresholds_match_normalized_positions() {
    for value in i16::MIN..=i16::MAX {
        let n = normalized(value);
        assert_eq!(value >= BUTTON_AXIS_POSITIVE, n > 0.55, "value {value}");
        assert_eq!(value <= BUTTON_AXIS_NEGATIVE, n < -0.55, "value {value}");
    }
}

#[test]
fn binding_pressed_reads_each_kind() {
    let raw = RawState {
        axes: vec![18_022, -18_023, 18_021],
        buttons: vec![true, false],
        hats: vec![HatDirection::LeftDown],
    };
    let pressed = |binding| binding_pressed(&MappingEntry::new(OutputControl::A, binding), &raw);
    assert!(!pressed(InputBinding::Unmapped));
    assert!(pressed(InputBinding::Button { index: 0 }));
    assert!(!pressed(InputBinding::Button { index: 1 }));
    assert!(!pressed(InputBinding::Button { index: 7 }));
    assert!(pressed(InputBinding::AxisPositive { index: 0 }));
    assert!(!pressed(InputBinding::AxisPositive { index: 2 }));
    assert!(pressed(InputBinding::AxisNegative { index: 1 }));
    assert!(!pressed(InputBinding::AxisNegative { index: 0 }));
    assert!(!pressed(InputBinding::AxisPositive { index: 9 }));
    assert!(pressed(InputBinding::Hat {
        index: 0,
        direction: HatDirection::Left
    }));
    assert!(pressed(InputBinding::Hat {
        index: 0,
        direction: HatDirection::Down
    }));
    assert!(!pressed(InputBinding::Hat {
        index: 0,
        direction: HatDirection::Up
    }));
    assert!(!pressed(InputBinding::Hat {
        index: 3,
        direction: HatDirection::Up
    }));
}

#[test]
fn report_buttons_follow_the_profile() {
    let mut profile = ControllerProfile::default_for("guid".to_string());
    profile.clear_binding(OutputControl::B);
    let raw = RawState {
        axes: vec![],
        buttons: vec![true, true, false, true],
        hats: vec![HatDirection::RightUp],
    };
    let flags = report_buttons(&profile, &raw);
    let controls = OutputControl::buttons();
    assert_eq!(flags.len(), controls.len());
    let down: Vec<OutputControl> = controls
        .iter()
        .zip(flags.iter())
        .filter(|(_, on)| **on)
        .map(|(c, _)| *c)
        .collect();
    assert_eq!(
        down,
        vec![
            OutputControl::A,
            OutputControl::Y,
            OutputControl::DpadUp,
            OutputControl::DpadRight
        ]
    );
}

#[test]
fn guide_is_never_forwarded() {
    let profile = ControllerProfile::default_for("guid".to_string());
    let raw = RawState {
        axes: vec![],
        buttons: vec![false; 12].into_iter().enumerate().map(|(i, _)| i == 8).collect(),
        hats: vec![],
    };
    let guide = profile.entry(OutputControl::Guide).unwrap();
    assert!(binding_pressed(guide, &raw));
    let flags = report_buttons(&profile, &raw);
    assert!(flags.iter().all(|on| !on));
}
