use x360ce::model::ControllerProfile;
use x360ce::profile_io::{
    adopt_imported_profile, dialog_script, export_file_name, is_blank, powershell_single_quoted,
    powershell_single_quoted_path, sanitize_filename, DialogKind,
};

#[test]
fn file_names_are_sanitized() {
    assert_eq!(sanitize_filename("Default profile"), "Default-profile");
    assert_eq!(sanitize_filename("--My Pad!--"), "My-Pad");
    assert_eq!(sanitize_filename("***"), "mapping");
    assert_eq!(sanitize_filename(""), "mapping");
    assert_eq!(sanitize_filename("é_pad-2"), "_pad-2");
    assert_eq!(export_file_name("Default profile"), "Default-profile.x360ce.json");
}

#[test]
fn powershell_quoting() {
    assert_eq!(powershell_single_quoted("it's `here`"), "it''s ``here``");
    assert_eq!(powershell_single_quoted_path("C:\\it's `x`"), "C:\\it''s `x`");
}

#[test]
fn dialog_scripts() {
    let save = dialog_script(DialogKind::Save, "a'b.x360ce.json");
    assert!(save.contains("New-Object System.Windows.Forms.SaveFileDialog;"));
    assert!(save.contains("$dialog.FileName = 'a''b.x360ce.json';\n$dialog.OverwritePrompt = $true;\nif"));
    assert!(save.contains("$dialog.Filter = 'x360ce mapping (*.json)|*.json|JSON files (*.json)|*.json|All files (*.*)|*.*';"));
    let open = dialog_script(DialogKind::Open, "mapping.x360ce.json");
    assert!(open.starts_with("[Console]::OutputEncoding = [System.Text.UTF8Encoding]::new($false);\nAdd-Type -AssemblyName System.Windows.Forms;\n$dialog = New-Object System.Windows.Forms.OpenFileDialog;\n"));
    assert!(open.contains("$dialog.CheckFileExists = $true;"));
    assert!(open.ends_with("[Console]::Write($dialog.FileName)\n}"));
}

#[test]
fn imported_profiles_are_adopted() {
    let mut imported = ControllerProfile::default_for("elsewhere".to_string());
    imported.name = " \t ".to_string();
    let adopted = adopt_imported_profile(imported, "mine".to_string());
    assert_eq!(adopted.device_guid, "mine");
    assert_eq!(adopted.name, "Imported profile");
    assert_eq!(adopted.entries.len(), 21);
    let mut named = ControllerProfile::default_for("x".to_string());
    named.name = " Arcade ".to_string();
    assert_eq!(adopt_imported_profile(named, "mine".to_string()).name, " Arcade ");
    assert!(is_blank(""));
    assert!(is_blank("\u{3000}\n"));
    assert!(!is_blank(" a "));
}

#[test]
fn blank_means_white_space_for_every_character() {
    let mut buffer = [0u8; 4];
    for c in (0u32..=0x10FFFF).filter_map(char::from_u32) {
        assert_eq!(is_blank(c.encode_utf8(&mut buffer)), c.is_whitespace(), "{:?}", c);
    }
}
