use x360ce::config::{
    app_name, data_dir, state_path, version_label, window_title, ProfileStore, SavedState,
};
use x360ce::config_file::{replace_next, replace_start, ConfigWriteError, ReplaceStep};
use x360ce::model::{ControllerProfile, InputBinding, OutputControl};

#[test]
fn names_and_titles() {
    assert_eq!(app_name(), "x360ce");
    assert_eq!(window_title(false, None, "1.0.0"), "x360ce v1.0.0");
    assert_eq!(window_title(false, Some("custom"), "1.0.0"), "x360ce v1.0.0");
    assert_eq!(window_title(true, None, "1.0.0"), "x360ce v1.0.0-dev");
    assert_eq!(window_title(true, Some("v1.0.0-dev+abc-dev"), "1.0.0"), "x360ce v1.0.0-dev+abc-dev");
    assert_eq!(window_title(true, Some("nightly"), "1.0.0"), "x360ce nightly-dev");
}

#[test]
fn version_labels() {
    assert_eq!(version_label(false, None, "0.1.0"), "v0.1.0");
    assert_eq!(version_label(true, None, "0.1.0"), "v0.1.0-dev");
    assert_eq!(version_label(true, Some("v0.2.0-dev"), "0.1.0"), "v0.2.0-dev");
    assert_eq!(version_label(true, Some(""), "0.1.0"), "-dev");
    assert_eq!(version_label(false, Some("v0.2.0-dev"), "0.1.0"), "v0.1.0");
}

#[test]
fn portable_data_folder() {
    assert_eq!(
        data_dir(None, Some(r"C:\Games\x360ce")).as_deref(),
        Some(r"C:\Games\x360ce\.x360ce-data")
    );
    assert_eq!(data_dir(None, Some("C:\\")).as_deref(), Some(r"C:\.x360ce-data"));
    assert_eq!(data_dir(Some(""), Some("D:/x")).as_deref(), Some("D:/x\\.x360ce-data"));
    assert_eq!(data_dir(Some(r"E:\data"), Some("D:/x")).as_deref(), Some(r"E:\data"));
    assert_eq!(data_dir(Some(r"E:\data"), None).as_deref(), Some(r"E:\data"));
    assert_eq!(data_dir(None, None), None);
    assert_eq!(
        state_path(None, Some(r"C:\Games\x360ce")).as_deref(),
        Some(r"C:\Games\x360ce\.x360ce-data\config.json")
    );
    assert_eq!(state_path(Some("E:/data/"), None).as_deref(), Some("E:/data/config.json"));
    assert_eq!(state_path(None, None), None);
}

#[test]
fn first_run_settings() {
    let state = SavedState::default();
    assert!(state.emulation_enabled);
    assert!(state.auto_tray_enabled);
    assert_eq!(state.auto_tray_idle_seconds, 60);
    assert_eq!(state.auto_tray_countdown_seconds, 10);
    assert!(state.forward_only_in_tray);
    assert!(state.block_game_bar_controller_button);
    assert!(!state.include_prereleases);
    assert!(!state.start_in_tray);
    assert_eq!(state.last_status, "Ready.");
    assert_eq!(state.profiles.len(), 0);
}

#[test]
fn profile_store_reads_back_writes() {
    let mut store = ProfileStore::new();
    store.insert("a".to_string(), ControllerProfile::default_for("a".to_string()));
    let mut b = ControllerProfile::default_for("b".to_string());
    b.name = "B".to_string();
    store.insert("b".to_string(), b);
    assert_eq!(store.len(), 2);
    assert_eq!(store.get("b").unwrap().name, "B");
    let mut b2 = ControllerProfile::default_for("b".to_string());
    b2.name = "B2".to_string();
    store.insert("b".to_string(), b2);
    assert_eq!(store.len(), 2);
    assert_eq!(store.get("b").unwrap().name, "B2");
    assert_eq!(store.get("a").unwrap().name, "Default profile");
    assert!(store.get("c").is_none());
    let (key, profile) = store.entry_at(0);
    assert_eq!(key, "a");
    assert_eq!(profile.device_guid, "a");
}

#[test]
fn profiles_follow_the_selected_device() {
    let mut state = SavedState::default();
    let fresh = state.current_profile();
    assert_eq!(fresh.name, "Default profile");
    assert_eq!(fresh.device_guid, "");
    assert!(state.select_device("pad-1".to_string()));
    assert!(!state.select_device("pad-1".to_string()));
    assert_eq!(state.profiles.len(), 1);
    let mut profile = state.current_profile();
    assert_eq!(profile.device_guid, "pad-1");
    profile.clear_binding(OutputControl::A);
    state.store_current_profile(profile);
    assert_eq!(
        state.current_profile().entry(OutputControl::A).unwrap().binding,
        InputBinding::Unmapped
    );
    assert!(state.select_device("pad-2".to_string()));
    assert_eq!(
        state.current_profile().entry(OutputControl::A).unwrap().binding,
        InputBinding::Button { index: 0 }
    );
    assert!(state.select_device("pad-1".to_string()));
    assert_eq!(
        state.current_profile().entry(OutputControl::A).unwrap().binding,
        InputBinding::Unmapped
    );
    state.ensure_current_profile();
    assert_eq!(state.profiles.len(), 2);
}

#[test]
fn output_is_isolated_while_configuring() {
    let mut state = SavedState::default();
    assert!(!state.forwarding_active(true));
    assert!(state.forwarding_active(false));
    state.forward_only_in_tray = false;
    assert!(state.forwarding_active(true));
}

#[test]
fn automatic_update_checks_hourly() {
    let mut state = SavedState::default();
    state.last_auto_update_check_unix_seconds = 10_000;
    assert!(!state.automatic_update_due(13_599, false, false));
    assert!(state.automatic_update_due(13_600, false, false));
    assert!(!state.automatic_update_due(13_600, true, false));
    assert!(!state.automatic_update_due(13_600, false, true));
    assert!(!state.automatic_update_due(5, false, false));
}

#[test]
fn settings_file_replacement_steps() {
    assert_eq!(replace_start(false, true), ReplaceStep::MoveIntoPlace);
    assert_eq!(replace_start(true, true), ReplaceStep::RemoveOldBackup);
    assert_eq!(replace_start(true, false), ReplaceStep::BackUpConfig);
    assert_eq!(
        replace_next(ReplaceStep::MoveIntoPlace, false),
        ReplaceStep::Failed(ConfigWriteError::MoveFailed)
    );
    assert_eq!(replace_next(ReplaceStep::RemoveOldBackup, false), ReplaceStep::BackUpConfig);
    assert_eq!(
        replace_next(ReplaceStep::BackUpConfig, false),
        ReplaceStep::Failed(ConfigWriteError::BackupFailed)
    );
    assert_eq!(replace_next(ReplaceStep::BackUpConfig, true), ReplaceStep::ReplaceConfig);
    assert_eq!(replace_next(ReplaceStep::ReplaceConfig, true), ReplaceStep::DropBackup);
    assert_eq!(replace_next(ReplaceStep::DropBackup, false), ReplaceStep::Done);
    assert_eq!(replace_next(ReplaceStep::ReplaceConfig, false), ReplaceStep::RestoreBackup);
    assert_eq!(
        replace_next(ReplaceStep::RestoreBackup, true),
        ReplaceStep::Failed(ConfigWriteError::ReplaceFailed)
    );
}
