use x360ce::model::{
    default_deadzone, default_saturation, ControllerProfile, HatDirection, InputBinding,
    MappingEntry, OutputControl, RawState,
};

#[test]
fn hat_labels_and_diagonals() {
    assert_eq!(HatDirection::Centered.label(), "Centered");
    assert_eq!(HatDirection::RightUp.label(), "Up + Right");
    assert_eq!(HatDirection::LeftDown.label(), "Down + Left");
    assert!(HatDirection::RightUp.contains(HatDirection::Up));
    assert!(HatDirection::RightUp.contains(HatDirection::Right));
    assert!(!HatDirection::RightUp.contains(HatDirection::Left));
    assert!(HatDirection::LeftDown.contains(HatDirection::Down));
    assert!(HatDirection::Up.contains(HatDirection::Up));
    assert!(!HatDirection::Centered.contains(HatDirection::Up));
    assert!(HatDirection::Centered.contains(HatDirection::Centered));
    assert!(HatDirection::RightUp.contains(HatDirection::RightUp));
    assert!(!HatDirection::Up.contains(HatDirection::RightUp));
}

#[test]
fn binding_labels_are_one_based() {
    assert_eq!(InputBinding::Unmapped.label(), "Not mapped");
    assert_eq!(InputBinding::Button { index: 0 }.label(), "Button 1");
    assert_eq!(InputBinding::AxisPositive { index: 9 }.label(), "Axis 10 +");
    assert_eq!(InputBinding::AxisNegative { index: 2 }.label(), "Axis 3 -");
    assert_eq!(
        InputBinding::Hat {
            index: 1,
            direction: HatDirection::LeftUp
        }
        .label(),
        "Hat 2 Up + Left"
    );
    assert_eq!(
        InputBinding::Button { index: 4_294_967_294 }.label(),
        "Button 4294967295"
    );
}

#[test]
fn output_control_groups_and_labels() {
    assert_eq!(OutputControl::buttons().len(), 15);
    assert_eq!(OutputControl::analogs().len(), 6);
    assert_eq!(OutputControl::LeftThumb.label(), "Left stick click");
    assert_eq!(OutputControl::DpadLeft.label(), "D-pad left");
    assert!(OutputControl::RightStickY.is_axis());
    assert!(!OutputControl::LeftTrigger.is_axis());
    assert!(OutputControl::LeftTrigger.is_trigger());
    assert!(!OutputControl::A.is_trigger());
}

#[test]
fn new_entries_invert_vertical_sticks() {
    let y = MappingEntry::new(OutputControl::LeftStickY, InputBinding::Unmapped);
    assert!(y.invert);
    assert!(MappingEntry::new(OutputControl::RightStickY, InputBinding::Unmapped).invert);
    let x = MappingEntry::new(OutputControl::LeftStickX, InputBinding::Unmapped);
    assert!(!x.invert);
    assert!(!x.centered_axis);
    assert_eq!(f32::from_bits(x.deadzone_bits), 0.12);
    assert_eq!(f32::from_bits(x.saturation_bits), 1.0);
    assert_eq!(default_deadzone(), 0.12f32.to_bits());
    assert_eq!(default_saturation(), 1.0f32.to_bits());
}

#[test]
fn default_profile_maps_every_control_once() {
    let profile = ControllerProfile::default_for("abc".to_string());
    assert_eq!(profile.name, "Default profile");
    assert_eq!(profile.device_guid, "abc");
    assert_eq!(profile.entries.len(), 21);
    for control in OutputControl::buttons()
        .into_iter()
        .chain(OutputControl::analogs())
    {
        let entry = profile.entry(control).expect("mapped");
        assert_ne!(entry.binding, InputBinding::Unmapped);
        assert_eq!(profile.entries.iter().filter(|e| e.control == control).count(), 1);
    }
    assert_eq!(
        profile.entry(OutputControl::DpadRight).unwrap().binding,
        InputBinding::Hat {
            index: 0,
            direction: HatDirection::Right
        }
    );
    assert_eq!(
        profile.entry(OutputControl::RightTrigger).unwrap().binding,
        InputBinding::AxisPositive { index: 5 }
    );
}

#[test]
fn entry_mut_creates_missing_entries_once() {
    let mut profile = ControllerProfile {
        name: "p".to_string(),
        device_guid: "g".to_string(),
        entries: vec![],
    };
    assert!(profile.entry(OutputControl::A).is_none());
    profile.entry_mut(OutputControl::A).binding = InputBinding::Button { index: 3 };
    profile.entry_mut(OutputControl::A).invert = true;
    assert_eq!(profile.entries.len(), 1);
    let entry = profile.entry(OutputControl::A).unwrap();
    assert_eq!(entry.binding, InputBinding::Button { index: 3 });
    assert!(entry.invert);
    assert_eq!(profile.position(OutputControl::A), Some(0));
    assert_eq!(profile.position(OutputControl::B), None);
}

#[test]
fn first_entry_governs_a_control() {
    let profile = ControllerProfile {
        name: "p".to_string(),
        device_guid: "g".to_string(),
        entries: vec![
            MappingEntry::new(OutputControl::B, InputBinding::Button { index: 1 }),
            MappingEntry::new(OutputControl::A, InputBinding::Button { index: 5 }),
            MappingEntry::new(OutputControl::A, InputBinding::Button { index: 6 }),
        ],
    };
    assert_eq!(
        profile.entry(OutputControl::A).unwrap().binding,
        InputBinding::Button { index: 5 }
    );
}

#[test]
fn learning_a_trigger_from_a_centred_axis_marks_it_split() {
    let mut profile = ControllerProfile::default_for(String::new());
    let baseline = RawState {
        axes: vec![0, 0, 0, 0, -7_999, -32_768],
        ..Default::default()
    };
    profile.learn_binding(
        OutputControl::LeftTrigger,
        InputBinding::AxisNegative { index: 4 },
        &baseline,
        true,
    );
    let entry = profile.entry(OutputControl::LeftTrigger).unwrap();
    assert_eq!(entry.binding, InputBinding::AxisNegative { index: 4 });
    assert!(entry.centered_axis);
    assert!(!entry.invert);
    profile.learn_binding(
        OutputControl::RightTrigger,
        InputBinding::AxisPositive { index: 5 },
        &baseline,
        false,
    );
    assert!(!profile.entry(OutputControl::RightTrigger).unwrap().centered_axis);
}

#[test]
fn learning_a_stick_axis_takes_the_output_direction() {
    let mut profile = ControllerProfile::default_for(String::new());
    profile.learn_binding(
        OutputControl::LeftStickY,
        InputBinding::AxisPositive { index: 7 },
        &RawState::default(),
        false,
    );
    let entry = profile.entry(OutputControl::LeftStickY).unwrap();
    assert!(!entry.invert);
    assert!(!entry.centered_axis);
    assert_eq!(entry.binding, InputBinding::AxisPositive { index: 7 });
    profile.learn_binding(
        OutputControl::A,
        InputBinding::Button { index: 2 },
        &RawState::default(),
        true,
    );
    assert!(!profile.entry(OutputControl::A).unwrap().invert);
}

#[test]
fn switching_axis_direction() {
    let mut profile = ControllerProfile::default_for(String::new());
    assert!(profile.set_axis_direction(OutputControl::LeftStickX, false));
    assert_eq!(
        profile.entry(OutputControl::LeftStickX).unwrap().binding,
        InputBinding::AxisNegative { index: 0 }
    );
    assert!(!profile.set_axis_direction(OutputControl::LeftStickX, false));
    assert!(!profile.set_axis_direction(OutputControl::A, false));
    assert_eq!(
        profile.entry(OutputControl::A).unwrap().binding,
        InputBinding::Button { index: 0 }
    );
    profile.clear_binding(OutputControl::LeftStickX);
    assert_eq!(
        profile.entry(OutputControl::LeftStickX).unwrap().binding,
        InputBinding::Unmapped
    );
    assert!(!profile.set_axis_direction(OutputControl::LeftStickX, true));
}

#[test]
fn control_labels_are_distinct_and_named() {
    let controls: Vec<OutputControl> = OutputControl::buttons()
        .into_iter()
        .chain(OutputControl::analogs())
        .collect();
    assert_eq!(controls.len(), 21);
    for (i, a) in controls.iter().enumerate() {
        assert!(!a.label().is_empty());
        for b in controls.iter().skip(i + 1) {
            assert_ne!(a.label(), b.label());
        }
    }
    assert_eq!(OutputControl::A.label(), "A");
    assert_eq!(OutputControl::LeftThumb.label(), "Left stick click");
    assert_eq!(OutputControl::DpadUp.label(), "D-pad up");
    assert_eq!(OutputControl::RightStickY.label(), "Right stick Y");
}
