use x360ce::startup::{registry_string_value, startup_command};

fn expected_bytes(text: &str) -> Vec<u8> {
    text.encode_utf16()
        .chain(Some(0))
        .flat_map(|unit| unit.to_le_bytes())
        .collect()
}

#[test]
fn startup_command_quotes_the_path() {
    assert_eq!(
        startup_command(r"C:\Games\x360ce\x360ce.exe"),
        "\"C:\\Games\\x360ce\\x360ce.exe\" --startup"
    );
    assert_eq!(startup_command(""), "\"\" --startup");
}

#[test]
fn registry_value_is_nul_terminated_utf16_le() {
    assert_eq!(registry_string_value("ab"), vec![0x61, 0, 0x62, 0, 0, 0]);
    assert_eq!(registry_string_value(""), vec![0, 0]);
}

#[test]
fn registry_value_encodes_wide_characters() {
    assert_eq!(registry_string_value("é"), vec![0xE9, 0, 0, 0]);
    assert_eq!(registry_string_value("€"), vec![0xAC, 0x20, 0, 0]);
    assert_eq!(
        registry_string_value("\u{1F600}"),
        vec![0x3D, 0xD8, 0x00, 0xDE, 0, 0]
    );
}

#[test]
fn registry_value_matches_std_encoding() {
    for text in [
        "\"C:\\Program Files\\x360ce\\x360ce.exe\" --startup",
        "Ünïcödé \u{10348} \u{FFFF} \u{10000} \u{10FFFF}",
    ] {
        assert_eq!(registry_string_value(text), expected_bytes(text));
    }
}
