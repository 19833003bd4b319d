use bewegung::settings::{
    group_settings, json_document, language_file_url, transform_settings, SettingRow, SettingText, SettingValue,
};

fn row(g: Option<&str>, a: Option<&str>, v: i32) -> SettingRow<i32> {
    SettingRow { group: g.map(|s| s.to_string()), attribute: a.map(|s| s.to_string()), value: v }
}

#[test]
fn settings_group_by_group_and_attribute() {
    let g = group_settings(vec![
        row(Some("Map"), Some("Zoom"), 3),
        row(None, Some("Lang"), 1),
        row(Some("Map"), None, 7),
        row(Some("Map"), Some("Zoom"), 5),
    ]);
    assert_eq!(g.len(), 2);
    assert_eq!(g.key_at(0), "General");
    let map = g.get("Map").unwrap();
    assert_eq!(map.get("Zoom"), Some(&5));
    assert_eq!(map.get("Unknown"), Some(&7));
    assert_eq!(g.get("General").unwrap().get("Lang"), Some(&1));
}

#[test]
fn structured_setting_values_are_read_as_json() {
    let rows = vec![
        SettingText { attribute: "A".into(), group: "G".into(), value: "{\"k\": 1}".into() },
        SettingText { attribute: "B".into(), group: "G".into(), value: "[1,2".into() },
        SettingText { attribute: "C".into(), group: "H".into(), value: "plain".into() },
    ];
    let t = transform_settings(&rows);
    let g = t.get("G").unwrap();
    match g.get("A") {
        Some(SettingValue::Json(v)) => assert_eq!(v["k"].as_i64(), Some(1)),
        _ => panic!("json expected"),
    }
    assert!(matches!(g.get("B"), Some(SettingValue::Text(s)) if s == "[1,2"));
    assert!(matches!(t.get("H").unwrap().get("C"), Some(SettingValue::Text(s)) if s == "plain"));
}

#[test]
fn translation_files_live_under_static_languages() {
    assert_eq!(language_file_url("de.json"), "static/languages/de.json");
}

#[test]
fn settings_documents_equal_what_serde_json_reads() {
    let rows = vec![
        SettingText { attribute: "Color".into(), group: "Theme".into(), value: "blue".into() },
        SettingText { attribute: "Map".into(), group: "Other".into(), value: r#"{"z":1}"#.into() },
        SettingText { attribute: "Bad".into(), group: "Other".into(), value: "[oops".into() },
        SettingText { attribute: "List".into(), group: "Other".into(), value: "[1, \"a\"]".into() },
        SettingText { attribute: "Num".into(), group: "Other".into(), value: "42".into() },
    ];
    let t = transform_settings(&rows);
    assert!(matches!(t.get("Theme").unwrap().get("Color"), Some(SettingValue::Text(s)) if s == "blue"));
    let other = t.get("Other").unwrap();
    let expected_map: serde_json::Value = serde_json::from_str(r#"{"z":1}"#).unwrap();
    let expected_list: serde_json::Value = serde_json::from_str("[1, \"a\"]").unwrap();
    assert!(matches!(other.get("Map"), Some(SettingValue::Json(v)) if *v == expected_map));
    assert!(matches!(other.get("List"), Some(SettingValue::Json(v)) if *v == expected_list));
    assert!(matches!(other.get("Bad"), Some(SettingValue::Text(s)) if s == "[oops"));
    // A number that does not start with `{` or `[` stays text.
    assert!(matches!(other.get("Num"), Some(SettingValue::Text(s)) if s == "42"));
    assert!(transform_settings(&vec![]).len() == 0);
}

#[test]
fn json_document_reads_json_only() {
    let expected: serde_json::Value = serde_json::from_str(r#"{"a":[1,2]}"#).unwrap();
    assert_eq!(json_document(r#"{"a":[1,2]}"#), Some(expected));
    assert_eq!(json_document("{oops"), None);
}
