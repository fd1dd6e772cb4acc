use spacebot_desktop::settings::{
    read_bool_inv, read_str_setting, settings_from_text, SettingValue, Settings, SettingsDoc,
};

fn object_with(entries: Vec<(&str, SettingValue)>) -> Settings {
    let mut s = Settings::empty_object();
    for (k, v) in entries {
        s.set(k, v);
    }
    s
}

fn entry_count(s: &Settings) -> usize {
    match s.doc() {
        SettingsDoc::Object(e) => e.len(),
        _ => 0,
    }
}

#[test]
fn null_settings_give_defaults() {
    let s = Settings::null();
    assert_eq!(s.target_url(), "http://localhost:19898");
    assert_eq!(s.umbrel_password(), "");
    assert!(s.toggle_shortcut_state());
    assert_eq!(s.toggle_shortcut_key(), "Alt+Space");
    assert!(s.recording_shortcut_state());
    assert_eq!(s.recording_shortcut_key(), "Alt+Shift+Space");
}

#[test]
fn target_url_reads_back() {
    let mut s = Settings::null();
    s.set_target_url("http://umbrel.local:19898");
    assert_eq!(s.target_url(), "http://umbrel.local:19898");
    assert!(matches!(s.doc(), SettingsDoc::Object(_)));
    s.set_target_url("http://other");
    assert_eq!(s.target_url(), "http://other");
    assert_eq!(entry_count(&s), 1);
}

#[test]
fn umbrel_password_reads_back_and_empty_removes() {
    let mut s = object_with(vec![("server_url", SettingValue::Text("http://x".to_string()))]);
    s.set_umbrel_password("hunter2");
    assert_eq!(s.umbrel_password(), "hunter2");
    assert_eq!(entry_count(&s), 2);
    s.set_umbrel_password("");
    assert_eq!(s.umbrel_password(), "");
    assert_eq!(entry_count(&s), 1);
    assert!(s.get("umbrel_password").is_none());
    assert_eq!(s.target_url(), "http://x");
}

#[test]
fn empty_password_on_null_stays_null() {
    let mut s = Settings::null();
    s.set_umbrel_password("");
    assert!(matches!(s.doc(), SettingsDoc::Null));
}

#[test]
fn shortcut_settings_read_back() {
    let mut s = Settings::null();
    s.set_toggle_shortcut(false, "Ctrl+Space");
    assert!(!s.toggle_shortcut_state());
    assert_eq!(s.toggle_shortcut_key(), "Ctrl+Space");
    assert!(matches!(s.get("voice_shortcut_disabled"), Some(SettingValue::Flag(true))));
    s.set_recording_shortcut(true, "Alt+R");
    assert!(s.recording_shortcut_state());
    assert_eq!(s.recording_shortcut_key(), "Alt+R");
    assert!(matches!(s.get("voice_recording_disabled"), Some(SettingValue::Flag(false))));
    assert!(!s.toggle_shortcut_state());
    assert_eq!(s.target_url(), "http://localhost:19898");
}

#[test]
fn bool_inv_reads_flags_inverted_and_defaults_otherwise() {
    let s = object_with(vec![
        ("on", SettingValue::Flag(false)),
        ("off", SettingValue::Flag(true)),
        ("text", SettingValue::Text("true".to_string())),
        ("num", SettingValue::Other("1".to_string())),
    ]);
    assert!(read_bool_inv(&s, "on", false));
    assert!(!read_bool_inv(&s, "off", true));
    assert!(read_bool_inv(&s, "text", true));
    assert!(!read_bool_inv(&s, "text", false));
    assert!(read_bool_inv(&s, "num", true));
    assert!(!read_bool_inv(&s, "missing", false));
}

#[test]
fn str_setting_reads_strings_only() {
    let s = object_with(vec![
        ("a", SettingValue::Text("x".to_string())),
        ("b", SettingValue::Flag(true)),
        ("c", SettingValue::Other("[1,2]".to_string())),
    ]);
    assert_eq!(read_str_setting(&s, "a", "d"), "x");
    assert_eq!(read_str_setting(&s, "b", "d"), "d");
    assert_eq!(read_str_setting(&s, "c", "d"), "d");
    assert_eq!(read_str_setting(&s, "z", "d"), "d");
}

#[test]
fn non_object_documents_hold_no_keys() {
    let s = Settings::other("[1, 2]".to_string());
    assert!(!s.accepts_keys());
    assert!(s.get("server_url").is_none());
    assert_eq!(s.target_url(), "http://localhost:19898");
    let mut s = s;
    s.remove("server_url");
    assert!(matches!(s.doc(), SettingsDoc::Other(j) if j == "[1, 2]"));
    assert!(Settings::null().accepts_keys());
    assert!(Settings::empty_object().accepts_keys());
}

#[test]
fn set_replaces_existing_entry() {
    let mut s = object_with(vec![("k", SettingValue::Flag(true))]);
    s.set("k", SettingValue::Text("v".to_string()));
    assert_eq!(entry_count(&s), 1);
    assert!(matches!(s.get("k"), Some(SettingValue::Text(t)) if t == "v"));
    s.remove("k");
    assert_eq!(entry_count(&s), 0);
    s.remove("k");
    assert_eq!(entry_count(&s), 0);
}

#[test]
fn each_write_leaves_other_settings_alone() {
    let mut s = Settings::null();
    s.set_target_url("http://t");
    s.set_umbrel_password("pw");
    s.set_toggle_shortcut(false, "Ctrl+T");
    s.set_recording_shortcut(false, "Ctrl+R");
    s.set_umbrel_password("other");
    assert_eq!(s.target_url(), "http://t");
    assert!(!s.toggle_shortcut_state());
    assert_eq!(s.toggle_shortcut_key(), "Ctrl+T");
    assert!(!s.recording_shortcut_state());
    assert_eq!(s.recording_shortcut_key(), "Ctrl+R");
    s.set_target_url("http://u");
    assert_eq!(s.umbrel_password(), "other");
    s.set_toggle_shortcut(true, "Alt+Space");
    assert_eq!(s.recording_shortcut_key(), "Ctrl+R");
    assert_eq!(s.target_url(), "http://u");
    assert_eq!(entry_count(&s), 6);
}

#[test]
fn unknown_entries_survive_writes() {
    let mut s = object_with(vec![("theme", SettingValue::Other("{\"a\":1}".to_string()))]);
    s.set_target_url("http://t");
    s.set_umbrel_password("");
    assert!(matches!(s.get("theme"), Some(SettingValue::Other(j)) if j == "{\"a\":1}"));
    assert_eq!(entry_count(&s), 2);
}

#[test]
fn settings_text_is_read_as_json() {
    let s = settings_from_text(Some("{\"server_url\": \"http://t\", \"voice_shortcut_disabled\": true, \"n\": 1.5}"));
    assert_eq!(s.target_url(), "http://t");
    assert!(!s.toggle_shortcut_state());
    assert!(matches!(s.get("n"), Some(SettingValue::Other(j)) if j == "1.5"));
    assert_eq!(entry_count(&s), 3);
}

#[test]
fn missing_or_bad_text_reads_as_null() {
    assert!(matches!(settings_from_text(None).doc(), SettingsDoc::Null));
    assert!(matches!(settings_from_text(Some("{not json")).doc(), SettingsDoc::Null));
    assert!(matches!(settings_from_text(Some("null")).doc(), SettingsDoc::Null));
    assert!(matches!(settings_from_text(Some("[1, 2]")).doc(), SettingsDoc::Other(j) if j == "[1,2]"));
    assert!(!settings_from_text(Some("7")).accepts_keys());
}

#[test]
fn settings_are_written_as_pretty_json() {
    let mut s = Settings::null();
    assert_eq!(s.to_json_text(), "null");
    s.set_target_url("http://localhost:19898");
    assert_eq!(s.to_json_text(), "{\n  \"server_url\": \"http://localhost:19898\"\n}");
    let s = settings_from_text(Some("{\"b\": [1, {\"c\": null}], \"a\": false}"));
    assert_eq!(s.to_json_text(), "{\n  \"a\": false,\n  \"b\": [\n    1,\n    {\n      \"c\": null\n    }\n  ]\n}");
}
