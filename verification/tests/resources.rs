use xfce4_terminal::accelerators::definitions;
use xfce4_terminal::colors::name_order;
use xfce4_terminal::fields::unescape;
use xfce4_terminal::preferences::{config_home, parse_range};
use xfce4_terminal::accelerators::{path, AcceleratorDefinition, RELATIVE_PATH};
use xfce4_terminal::localization::{locale_dir, CHARSET, DEFAULT_LOCALE_DIR, GETTEXT_DOMAIN};
use xfce4_terminal::preferences::{
    legacy_boolean, legacy_enumeration, legacy_palette, legacy_source, LegacySource,
    PreferenceError,
};

#[test]
fn candidate_exposes_the_application_resource_constants() {
    assert_eq!(path(b"/tmp/config"), b"/tmp/config/xfce4/terminal/accels.scm".to_vec());
    assert_eq!(RELATIVE_PATH, "xfce4/terminal/accels.scm");
    assert_eq!(GETTEXT_DOMAIN, "xfce4-terminal");
    assert_eq!(CHARSET, "UTF-8");
    assert_eq!(DEFAULT_LOCALE_DIR, "/usr/local/share/locale");
}

#[test]
fn the_accelerator_file_lies_below_the_configuration_directory() {
    assert_eq!(path(b"/home/frank/.config"), b"/home/frank/.config/xfce4/terminal/accels.scm".to_vec());
    assert_eq!(path(b"/home/frank/.config/"), b"/home/frank/.config/xfce4/terminal/accels.scm".to_vec());
    assert_eq!(path(b""), b"xfce4/terminal/accels.scm".to_vec());
    let definition = AcceleratorDefinition { path: "<Actions>/terminal-window/close-tab", default_accelerator: "<control><shift>w" };
    assert_eq!(definition.clone(), definition);
}

#[test]
fn the_locale_directory_falls_back_to_the_default() {
    assert_eq!(locale_dir(None), "/usr/local/share/locale");
    assert_eq!(locale_dir(Some("/usr/share/locale")), "/usr/share/locale");
}

#[test]
fn only_a_new_channel_imports_a_legacy_file() {
    assert_eq!(legacy_source(true, true, true), None);
    assert_eq!(legacy_source(false, true, true), Some(LegacySource::Current));
    assert_eq!(legacy_source(false, false, true), Some(LegacySource::Old));
    assert_eq!(legacy_source(false, false, false), None);
}

#[test]
fn legacy_values_follow_the_terminalrc_spelling() {
    assert!(legacy_boolean("TRUE"));
    assert!(legacy_boolean("false"));
    assert!(legacy_boolean(""));
    assert!(!legacy_boolean("FALSE"));
    let values = ["TERMINAL_SCROLLBAR_RIGHT", "TERMINAL_SCROLLBAR_LEFT", "TERMINAL_SCROLLBAR_NONE"];
    assert_eq!(legacy_enumeration(&values, "TERMINAL_SCROLLBAR_LEFT"), "TERMINAL_SCROLLBAR_LEFT");
    assert_eq!(legacy_enumeration(&values, "sideways"), "TERMINAL_SCROLLBAR_RIGHT");
}

#[test]
fn an_old_palette_is_joined_with_semicolons() {
    let colors: Vec<Option<String>> = (0..16).map(|i| Some(format!("#0000{i:02x}"))).collect();
    let joined: Vec<String> = (0..16).map(|i| format!("#0000{i:02x}")).collect();
    assert_eq!(legacy_palette(&colors), Some(joined.join(";")));

    // Fifteen colors and a missing sixteenth leave a trailing separator.
    let mut fifteen = colors.clone();
    fifteen[15] = None;
    assert_eq!(legacy_palette(&fifteen), Some(format!("{};", joined[..15].join(";"))));

    // Reading stops at the first missing key.
    let mut gap = colors.clone();
    gap[3] = None;
    assert_eq!(legacy_palette(&gap), None);
    assert_eq!(legacy_palette(&[]), None);
    assert_eq!(PreferenceError("HOME is not set".to_owned()).message(), "HOME is not set");
}

#[test]
fn schemes_are_offered_by_name_keeping_equal_names_in_reading_order() {
    let names: Vec<String> = ["Tango", "Dark Pastels", "Tango", "Black on White", "", "Ä", "Z"]
        .iter()
        .map(|n| n.to_string())
        .collect();
    assert_eq!(name_order(&names), vec![4, 3, 1, 0, 2, 6, 5]);
    assert_eq!(name_order(&[]), Vec::<usize>::new());
    let mut sorted = names.clone();
    sorted.sort();
    let ordered: Vec<String> = name_order(&names).into_iter().map(|i| names[i].clone()).collect();
    assert_eq!(ordered, sorted);
}

#[test]
fn accelerator_definitions_are_read_one_per_line() {
    let read = definitions(
        "<Actions>/terminal-window/new-tab\t<control><shift>t\n<Actions>/terminal-window/close-tab\t\r\n<Actions>/x\ta\tb",
    );
    assert_eq!(read.len(), 3);
    assert_eq!(read[0].path, "<Actions>/terminal-window/new-tab");
    assert_eq!(read[0].default_accelerator, "<control><shift>t");
    assert_eq!(read[1].path, "<Actions>/terminal-window/close-tab");
    assert_eq!(read[1].default_accelerator, "");
    assert_eq!(read[2].path, "<Actions>/x");
    assert_eq!(read[2].default_accelerator, "a\tb");
    assert!(definitions("").is_empty());
    assert_eq!(definitions("p\td\n").len(), 1);
}

#[test]
fn scenario_fields_decode_their_escapes() {
    assert_eq!(unescape("-"), None);
    assert_eq!(unescape("").as_deref(), Some(""));
    assert_eq!(unescape("a\\nb\\rc\\td\\\\e").as_deref(), Some("a\nb\rc\td\\e"));
    assert_eq!(unescape("\\x").as_deref(), Some("\\x"));
    assert_eq!(unescape("end\\").as_deref(), Some("end\\"));
    assert_eq!(unescape("--").as_deref(), Some("--"));
}

#[test]
fn a_bounded_range_splits_at_its_first_colon() {
    assert_eq!(parse_range("0:1024"), ("0", "1024"));
    assert_eq!(parse_range("0.5:1:2"), ("0.5", "1:2"));
    assert_eq!(parse_range(":"), ("", ""));
}

#[test]
fn the_configuration_directory_prefers_an_absolute_xdg_path() {
    assert_eq!(config_home(Some(b"/xdg"), Some(b"/home/frank")), Ok(b"/xdg".to_vec()));
    assert_eq!(config_home(Some(b"relative"), Some(b"/home/frank")), Ok(b"/home/frank/.config".to_vec()));
    assert_eq!(config_home(None, Some(b"/home/frank/")), Ok(b"/home/frank/.config".to_vec()));
    assert_eq!(config_home(Some(b""), None), Err(PreferenceError("HOME is not set".to_owned())));
}
