use xfce4_terminal::accelerators::contract_lines;
use xfce4_terminal::fields::{find_char, has_prefix, read_u32, split_text};
use xfce4_terminal::paths::{path_basename, text_path_basename};
use xfce4_terminal::preferences::{
    default_setting, legacy_value, legacy_writes, parse_definition, preference_definitions, value_valid,
    LegacyEntry, PreferenceDefinition, PreferenceKind, SettingValue,
};

const BELL: &str = "misc-bell\tboolean\tfalse\t\tMiscBell";
const LINES: &str = "scrolling-lines\tuint\t1000\t0:1048576\tScrollingLines";
const SCALE: &str = "cell-width-scale\tdouble\t1.0\t1.0:2.0\tCellWidthScale";
const BAR: &str = "scrolling-bar\tenum:TerminalScrollbar\tTERMINAL_SCROLLBAR_RIGHT\tTERMINAL_SCROLLBAR_NONE,TERMINAL_SCROLLBAR_LEFT,TERMINAL_SCROLLBAR_RIGHT\tScrollingBar";
const TITLE: &str = "title-initial\tstring\t<null>\t\tTitleInitial";

fn scrollbar_values() -> Vec<&'static str> {
    vec![
        "TERMINAL_SCROLLBAR_NONE",
        "TERMINAL_SCROLLBAR_LEFT",
        "TERMINAL_SCROLLBAR_RIGHT",
    ]
}

fn schema() -> Vec<PreferenceDefinition> {
    [BELL, LINES, SCALE, BAR, TITLE]
        .iter()
        .map(|line| parse_definition(line).expect("a definition line"))
        .collect()
}

fn entry(text: &str, number: u32, double_in_range: bool) -> Option<LegacyEntry> {
    Some(LegacyEntry {
        text: text.to_string(),
        number,
        double_in_range,
    })
}

#[test]
fn each_kind_of_definition_line_is_read() {
    assert_eq!(
        parse_definition(BELL),
        Some(PreferenceDefinition {
            name: "misc-bell",
            kind: PreferenceKind::Boolean,
            default: Some("false"),
            legacy_key: "MiscBell",
        })
    );
    assert_eq!(
        parse_definition(LINES).map(|d| d.kind),
        Some(PreferenceKind::Unsigned {
            minimum: 0,
            maximum: 1048576,
        })
    );
    assert_eq!(
        parse_definition(SCALE).map(|d| d.kind),
        Some(PreferenceKind::Double {
            minimum: "1.0",
            maximum: "2.0",
        })
    );
    assert_eq!(
        parse_definition(BAR).map(|d| d.kind),
        Some(PreferenceKind::Enumeration {
            gtype: "TerminalScrollbar",
            values: scrollbar_values(),
        })
    );
    let title = parse_definition(TITLE).expect("a string definition");
    assert_eq!(title.kind, PreferenceKind::String);
    assert_eq!(title.default, None);
    assert_eq!(title.legacy_key, "TitleInitial");
}

#[test]
fn malformed_definition_lines_are_refused() {
    assert_eq!(parse_definition("misc-bell\tboolean\tfalse\tMiscBell"), None);
    assert_eq!(parse_definition("misc-bell\tboolean\tfalse\t\tMiscBell\textra"), None);
    assert_eq!(parse_definition("misc-bell\tbool\tfalse\t\tMiscBell"), None);
    assert_eq!(parse_definition("lines\tuint\t1\t1024\tKey"), None);
    assert_eq!(parse_definition("lines\tuint\t1\tzero:1024\tKey"), None);
    assert_eq!(parse_definition("lines\tuint\t1\t0:4294967296\tKey"), None);
    assert_eq!(parse_definition("scale\tdouble\t1\t2.0\tKey"), None);
    assert!(parse_definition("lines\tuint\t1\t+0:4294967295\tKey").is_some());
}

#[test]
fn a_contract_is_read_line_by_line() {
    let contract = "misc-bell\tboolean\tfalse\t\tMiscBell\r\ntitle-initial\tstring\t<null>\t\tTitleInitial\n";
    let definitions = preference_definitions(contract);
    assert_eq!(definitions.len(), 2);
    assert_eq!(definitions[0].name, "misc-bell");
    assert_eq!(definitions[1].legacy_key, "TitleInitial");
    assert_eq!(contract_lines("a\r\nb\n\nc"), vec!["a", "b", "", "c"]);
    assert!(contract_lines("").is_empty());
}

#[test]
fn writes_are_checked_against_the_preference_kind() {
    let schema = schema();
    let lines = &schema[1].kind;
    assert!(value_valid(&schema[0].kind, &SettingValue::Boolean(false), false));
    assert!(!value_valid(&schema[0].kind, &SettingValue::Unsigned(1), false));
    assert!(value_valid(lines, &SettingValue::Unsigned(1048576), false));
    assert!(!value_valid(lines, &SettingValue::Unsigned(1048577), false));
    assert!(value_valid(&schema[2].kind, &SettingValue::Double("1.5".to_string()), true));
    assert!(!value_valid(&schema[2].kind, &SettingValue::Double("2.5".to_string()), false));
    let bar = &schema[3].kind;
    assert!(value_valid(
        bar,
        &SettingValue::Enumeration("TERMINAL_SCROLLBAR_LEFT".to_string()),
        false
    ));
    assert!(!value_valid(
        bar,
        &SettingValue::Enumeration("TERMINAL_SCROLLBAR_TOP".to_string()),
        false
    ));
    assert!(value_valid(&schema[4].kind, &SettingValue::String(None), false));
}

#[test]
fn legacy_texts_are_converted_by_kind() {
    let schema = schema();
    assert_eq!(legacy_value(&schema[0].kind, "FALSE", 0), SettingValue::Boolean(false));
    assert_eq!(legacy_value(&schema[0].kind, "false", 0), SettingValue::Boolean(true));
    assert_eq!(legacy_value(&schema[1].kind, "1234", 1234), SettingValue::Unsigned(1234));
    assert_eq!(
        legacy_value(&schema[2].kind, "1.25", 0),
        SettingValue::Double("1.25".to_string())
    );
    assert_eq!(
        legacy_value(&schema[3].kind, "TERMINAL_SCROLLBAR_LEFT", 0),
        SettingValue::Enumeration("TERMINAL_SCROLLBAR_LEFT".to_string())
    );
    assert_eq!(
        legacy_value(&schema[3].kind, "sideways", 0),
        SettingValue::Enumeration("TERMINAL_SCROLLBAR_NONE".to_string())
    );
    assert_eq!(
        legacy_value(&schema[4].kind, "Legacy title", 0),
        SettingValue::String(Some("Legacy title".to_string()))
    );
}

#[test]
fn an_invalid_legacy_value_is_skipped_without_stopping_later_keys() {
    let schema = schema();
    let entries = vec![
        None,
        entry("999999999", 999999999, false),
        entry("9.0", 0, false),
        entry("TERMINAL_SCROLLBAR_LEFT", 0, false),
        entry("After invalid value", 0, false),
    ];
    assert_eq!(
        legacy_writes(&schema, &entries),
        vec![
            (
                "scrolling-bar",
                SettingValue::Enumeration("TERMINAL_SCROLLBAR_LEFT".to_string())
            ),
            (
                "title-initial",
                SettingValue::String(Some("After invalid value".to_string()))
            ),
        ]
    );
}

#[test]
fn every_present_valid_legacy_key_is_written_in_order() {
    let schema = schema();
    let entries = vec![
        entry("FALSE", 0, false),
        entry("1234", 1234, false),
        entry("1.25", 0, true),
        entry("TERMINAL_SCROLLBAR_LEFT", 0, false),
        entry("Legacy title", 0, false),
    ];
    let writes = legacy_writes(&schema, &entries);
    let names: Vec<&str> = writes.iter().map(|(name, _)| *name).collect();
    assert_eq!(
        names,
        vec![
            "misc-bell",
            "scrolling-lines",
            "cell-width-scale",
            "scrolling-bar",
            "title-initial"
        ]
    );
    assert_eq!(writes[0].1, SettingValue::Boolean(false));
    assert_eq!(writes[1].1, SettingValue::Unsigned(1234));
    assert!(legacy_writes(&schema, &[None, None, None, None, None]).is_empty());
}

#[test]
fn unsigned_texts_are_read_within_u32() {
    assert_eq!(read_u32("0"), Some(0));
    assert_eq!(read_u32("+17"), Some(17));
    assert_eq!(read_u32("4294967295"), Some(u32::MAX));
    assert_eq!(read_u32("4294967296"), None);
    assert_eq!(read_u32(""), None);
    assert_eq!(read_u32("+"), None);
    assert_eq!(read_u32("12a"), None);
    assert_eq!(read_u32("-1"), None);
}

#[test]
fn texts_are_split_and_searched() {
    assert_eq!(split_text("a,,b", ','), vec!["a", "", "b"]);
    assert_eq!(split_text("", ','), vec![""]);
    assert_eq!(find_char("0:1:2", ':'), 1);
    assert_eq!(find_char("none", ':'), 4);
    assert!(has_prefix("enum:Mode", "enum:"));
    assert!(!has_prefix("enum", "enum:"));
}

#[test]
fn a_path_holding_a_nul_is_its_own_base_name() {
    assert_eq!(path_basename(b"/usr/bin/b\0sh"), b"/usr/bin/b\0sh".to_vec());
    assert_eq!(path_basename(b"/usr/bin/bash"), b"bash".to_vec());
    assert_eq!(text_path_basename("/tmp/a\0b/"), "/tmp/a\0b/");
    assert_eq!(text_path_basename("/tmp/dir/"), "dir");
}

#[test]
fn each_kind_reads_its_default() {
    let schema = schema();
    assert_eq!(default_setting(&schema[0]), SettingValue::Boolean(false));
    assert_eq!(default_setting(&schema[1]), SettingValue::Unsigned(1000));
    assert_eq!(default_setting(&schema[2]), SettingValue::Double("1.0".to_string()));
    assert_eq!(
        default_setting(&schema[3]),
        SettingValue::Enumeration("TERMINAL_SCROLLBAR_RIGHT".to_string())
    );
    assert_eq!(default_setting(&schema[4]), SettingValue::String(None));
    let on = parse_definition("misc-on\tboolean\ttrue\t\tMiscOn").expect("a definition");
    assert_eq!(default_setting(&on), SettingValue::Boolean(true));
    let text = parse_definition("title\tstring\tTerminal\t\tTitle").expect("a definition");
    assert_eq!(default_setting(&text), SettingValue::String(Some("Terminal".to_string())));
}
