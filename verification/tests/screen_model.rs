use xfce4_terminal::paths::{path_basename, text_path_basename};
use xfce4_terminal::screen::{self, TitleMode, UNTITLED};

#[test]
fn a_null_title_template_becomes_an_empty_string() {
    assert_eq!(screen::parse_title(None, 1, Some("/tmp"), None), "");
}

#[test]
fn session_id_directory_and_window_title_expand() {
    assert_eq!(
        screen::parse_title(
            Some("tab %# in %d (%D) — %w"),
            7,
            Some("/home/frank/xfce-rust"),
            Some("vim"),
        ),
        "tab 7 in xfce-rust (/home/frank/xfce-rust) — vim"
    );
}

#[test]
fn a_missing_window_title_uses_the_untitled_fallback() {
    assert_eq!(screen::parse_title(Some("%w"), 1, None, None), UNTITLED);
}

#[test]
fn an_unknown_percent_sequence_keeps_the_percent_and_the_next_character() {
    assert_eq!(
        screen::parse_title(Some("a%x%%d"), 1, Some("/tmp/dir"), None),
        "a%x%dir"
    );
}

#[test]
fn a_trailing_percent_is_kept() {
    assert_eq!(screen::parse_title(Some("done%"), 1, None, None), "done%");
}

#[test]
fn a_custom_title_ignores_the_dynamic_mode() {
    assert_eq!(
        screen::screen_title(
            Some("Custom %d"),
            None,
            "Terminal",
            TitleMode::Replace,
            3,
            Some("/var/tmp"),
            Some("ignored"),
        ),
        "Custom tmp"
    );
}

#[test]
fn replace_mode_prefers_the_window_title() {
    assert_eq!(
        screen::screen_title(None, None, "Terminal", TitleMode::Replace, 1, Some("/tmp"), Some("shell")),
        "shell"
    );
}

#[test]
fn replace_mode_falls_back_to_the_parsed_initial_title() {
    assert_eq!(
        screen::screen_title(None, Some("Init %d"), "Terminal", TitleMode::Replace, 1, Some("/tmp"), None),
        "Init tmp"
    );
}

#[test]
fn append_mode_joins_with_a_spaced_dash() {
    assert_eq!(
        screen::screen_title(None, None, "Terminal", TitleMode::Append, 1, Some("/tmp"), Some("shell")),
        "Terminal - shell"
    );
}

#[test]
fn prepend_mode_puts_the_window_title_first() {
    assert_eq!(
        screen::screen_title(None, None, "Terminal", TitleMode::Prepend, 1, Some("/tmp"), Some("shell")),
        "shell - Terminal"
    );
}

#[test]
fn hide_mode_keeps_only_the_initial_title() {
    assert_eq!(
        screen::screen_title(None, None, "Terminal %#", TitleMode::Hide, 9, Some("/tmp"), Some("shell")),
        "Terminal 9"
    );
}

#[test]
fn append_mode_without_a_window_title_returns_only_the_initial_title() {
    assert_eq!(
        screen::screen_title(None, None, "Terminal", TitleMode::Append, 1, Some("/tmp"), None),
        "Terminal"
    );
}

#[test]
fn text_is_unsafe_when_it_contains_a_newline_or_carriage_return() {
    assert!(!screen::is_text_unsafe(None));
    assert!(!screen::is_text_unsafe(Some("safe")));
    assert!(screen::is_text_unsafe(Some("line\n")));
    assert!(screen::is_text_unsafe(Some("line\r")));
    assert!(screen::is_text_unsafe(Some("a\nb\rc")));
}

// A directory URI arrives as the path GLib converts it to, or as `None`
// when it does not convert.
#[test]
fn a_stored_working_directory_is_kept_when_nothing_else_answers() {
    assert_eq!(
        screen::resolve_working_directory(Some("/stored"), None, None).as_deref(),
        Some("/stored")
    );
}

#[test]
fn a_directory_uri_replaces_the_stored_working_directory() {
    assert_eq!(
        screen::resolve_working_directory(Some("/stored"), Some(Some("/tmp/from-uri")), None)
            .as_deref(),
        Some("/tmp/from-uri")
    );
}

#[test]
fn a_directory_uri_that_cannot_be_converted_leaves_the_stored_directory() {
    assert_eq!(
        screen::resolve_working_directory(Some("/stored"), Some(None), None).as_deref(),
        Some("/stored")
    );
}

#[test]
fn a_process_cwd_is_used_only_when_no_directory_uri_is_present() {
    assert_eq!(
        screen::resolve_working_directory(Some("/stored"), None, Some("/proc/cwd")).as_deref(),
        Some("/proc/cwd")
    );
    assert_eq!(
        screen::resolve_working_directory(Some("/stored"), Some(Some("/tmp/from-uri")), Some("/proc/cwd"))
            .as_deref(),
        Some("/tmp/from-uri")
    );
    assert_eq!(
        screen::resolve_working_directory(None, Some(None), Some("/proc/cwd")),
        None
    );
}

#[test]
fn title_modes_round_trip_through_their_nicks() {
    for mode in [TitleMode::Replace, TitleMode::Prepend, TitleMode::Append, TitleMode::Hide] {
        assert_eq!(TitleMode::parse(mode.nick()), Some(mode));
    }
    assert_eq!(TitleMode::Prepend.nick(), "TERMINAL_TITLE_PREPEND");
    assert_eq!(TitleMode::parse("TERMINAL_TITLE_OTHER"), None);
    assert_eq!(TitleMode::parse(""), None);
}

#[test]
fn a_missing_directory_expands_to_nothing() {
    assert_eq!(screen::parse_title(Some("[%d|%D]"), 1, None, None), "[|]");
    assert_eq!(screen::parse_title(Some("%d"), 1, Some("/"), None), "/");
    assert_eq!(screen::parse_title(Some("%d"), 1, Some("/usr/"), None), "usr");
    assert_eq!(screen::parse_title(Some("%#"), 4294967295, None, None), "4294967295");
}

#[test]
fn base_names_follow_the_glib_rules() {
    assert_eq!(path_basename(b"/bin/"), b"bin".to_vec());
    assert_eq!(path_basename(b"/"), b"/".to_vec());
    assert_eq!(path_basename(b"///"), b"/".to_vec());
    assert_eq!(path_basename(b""), b".".to_vec());
    assert_eq!(path_basename(b"sh"), b"sh".to_vec());
    assert_eq!(path_basename(b"/usr/bin/zsh"), b"zsh".to_vec());
    assert_eq!(text_path_basename("/home/frank/xfce-rust"), "xfce-rust");
    assert_eq!(text_path_basename(""), ".");
    assert_eq!(text_path_basename("//"), "/");
    assert_eq!(text_path_basename("a/b//"), "b");
}

#[test]
fn a_template_without_percent_signs_is_kept() {
    assert_eq!(screen::parse_title(Some("plain — title"), 3, Some("/tmp"), Some("vim")), "plain — title");
}
