use x360ce::engine::{
    guid_matches, has_activity, is_virtual_output, target_device_guid, CommandEffect,
    EngineCommand, EngineCore,
};
use x360ce::model::{ControllerProfile, DeviceDescriptor, HatDirection, RawState};

fn engine_at(now: u64) -> EngineCore {
    EngineCore::new(
        "guid".to_string(),
        ControllerProfile::default_for("guid".to_string()),
        true,
        true,
        true,
        now,
    )
}

#[test]
fn activity_needs_a_real_change() {
    let base = RawState {
        axes: vec![0, 1000],
        buttons: vec![false],
        hats: vec![HatDirection::Centered],
    };
    assert!(!has_activity(&base, &base));
    let small = RawState {
        axes: vec![1500, -500],
        ..base.clone()
    };
    assert!(!has_activity(&base, &small));
    let large = RawState {
        axes: vec![1501, 1000],
        ..base.clone()
    };
    assert!(has_activity(&base, &large));
    let pressed = RawState {
        buttons: vec![true],
        ..base.clone()
    };
    assert!(has_activity(&base, &pressed));
    let hat = RawState {
        hats: vec![HatDirection::Up],
        ..base.clone()
    };
    assert!(has_activity(&base, &hat));
    let extra_axis = RawState {
        axes: vec![0, 1000, 2000],
        ..base.clone()
    };
    assert!(has_activity(&base, &extra_axis));
    let extra_small_axis = RawState {
        axes: vec![0, 1000, -1500],
        ..base.clone()
    };
    assert!(!has_activity(&base, &extra_small_axis));
}

#[test]
fn virtual_controllers_are_hidden() {
    assert!(is_virtual_output("Xbox 360 Controller for Windows"));
    assert!(is_virtual_output("ViGEm Bus Target"));
    assert!(is_virtual_output("My VIRTUAL XBOX pad"));
    assert!(!is_virtual_output("Wireless Controller"));
    assert!(!is_virtual_output("Xbox 360 Controller"));
}

#[test]
fn device_target_falls_back_to_first() {
    let devices = vec![DeviceDescriptor {
        guid: "AA".to_string(),
        ..Default::default()
    }];
    let empty = String::new();
    assert_eq!(target_device_guid(&devices, &empty), Some(&"AA".to_string()));
    let chosen = "BB".to_string();
    assert_eq!(target_device_guid(&devices, &chosen), Some(&chosen));
    assert_eq!(target_device_guid(&Vec::new(), &empty), None);
    assert!(guid_matches("03000000aB", "03000000Ab"));
    assert!(!guid_matches("0300", "03000"));
}

#[test]
fn commands_reset_the_virtual_controller() {
    let mut c = engine_at(0);
    c.connect_succeeded();
    assert!(c.gamepad_connected);
    let effect = c.handle_command(EngineCommand::SelectDevice("other".to_string()), 50);
    assert_eq!(
        effect,
        CommandEffect::Continue {
            reopen_device: true,
            drop_gamepad: true
        }
    );
    assert_eq!(c.selected_guid, "other");
    assert!(!c.gamepad_connected);
    assert_eq!(c.next_connect_attempt_ms, 50);
    c.connect_succeeded();
    assert_eq!(
        c.handle_command(EngineCommand::SetEnabled(false), 60),
        CommandEffect::Continue {
            reopen_device: false,
            drop_gamepad: true
        }
    );
    assert!(!c.enabled && !c.gamepad_connected);
    assert_eq!(
        c.handle_command(EngineCommand::Refresh, 70),
        CommandEffect::Continue {
            reopen_device: false,
            drop_gamepad: false
        }
    );
    assert!(c.force_refresh);
    assert_eq!(
        c.handle_command(EngineCommand::Shutdown, 80),
        CommandEffect::Shutdown
    );
}

#[test]
fn enumeration_runs_every_two_seconds_or_on_request() {
    let mut c = engine_at(1000);
    assert!(c.enumeration_due(1000));
    assert!(!c.finish_enumeration(1000, true, true));
    assert!(!c.enumeration_due(2999));
    assert!(c.enumeration_due(3000));
    c.connect_succeeded();
    assert!(c.finish_enumeration(3000, true, false));
    assert!(!c.gamepad_connected);
    c.handle_command(EngineCommand::Refresh, 3001);
    assert!(c.enumeration_due(3001));
}

#[test]
fn activity_sequence_counts_changes() {
    let mut c = engine_at(0);
    let pressed = RawState {
        buttons: vec![true],
        ..Default::default()
    };
    assert!(c.observe(pressed.clone()));
    assert_eq!(c.sequence, 1);
    assert!(!c.observe(pressed));
    assert_eq!(c.sequence, 1);
    c.sequence = u64::MAX;
    assert!(c.observe(RawState::default()));
    assert_eq!(c.sequence, 0);
}

#[test]
fn failed_connection_waits_before_retrying() {
    let mut c = engine_at(0);
    assert!(c.should_connect(true, 0));
    assert!(!c.should_connect(false, 0));
    c.virtual_failed("no bus".to_string(), 100);
    assert_eq!(c.last_virtual_error.as_deref(), Some("no bus"));
    assert!(!c.should_connect(true, 2099));
    assert!(c.should_connect(true, 2100));
    c.connect_succeeded();
    assert!(!c.should_connect(true, 5000));
    assert!(c.last_virtual_error.is_none());
}

#[test]
fn missing_driver_is_reported_only_when_forwarding_is_wanted() {
    let mut c = EngineCore::new(
        String::new(),
        ControllerProfile::default_for(String::new()),
        true,
        true,
        false,
        0,
    );
    assert!(!c.forwarding_wanted(true));
    c.stop_forwarding(true);
    assert_eq!(
        c.last_virtual_error.as_deref(),
        Some("ViGEmBus driver is not installed.")
    );
    c.stop_forwarding(false);
    assert!(c.last_virtual_error.is_none());
    c.handle_command(EngineCommand::SetForwardingActive(false), 10);
    assert!(!c.forwarding_active);
}
