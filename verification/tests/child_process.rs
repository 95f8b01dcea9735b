use xfce4_terminal::child::{
    self, ChildCommandError, CommandPreferences, CommandSplitError, Toplevel, FALLBACK_SHELLS,
};

/// The shell the readable cases resolve to, so they hold on any host.
const SHELL: &str = "/bin/sh";

fn preferences(login_shell: bool, run_custom_command: bool, custom: &str) -> CommandPreferences {
    CommandPreferences {
        login_shell,
        run_custom_command,
        custom_command: custom.to_owned(),
    }
}

/// Splits at blanks, which is all the shell quoting the plain cases need.
fn blank_split(line: &str) -> Result<Vec<Vec<u8>>, CommandSplitError> {
    let words: Vec<Vec<u8>> = line
        .split([' ', '\t'])
        .filter(|w| !w.is_empty())
        .map(|w| w.as_bytes().to_vec())
        .collect();
    if words.is_empty() {
        Err(CommandSplitError::Empty)
    } else {
        Ok(words)
    }
}

fn spawn_argv_with(
    screen_command: Option<&[Vec<u8>]>,
    preferences: &CommandPreferences,
    split: Result<Vec<Vec<u8>>, CommandSplitError>,
) -> Result<Vec<String>, ChildCommandError> {
    child::child_command_with(screen_command, preferences, split, || {
        Ok(SHELL.as_bytes().to_vec())
    })
    .map(|command| {
        command
            .spawn_argv()
            .iter()
            .map(|argument| String::from_utf8_lossy(argument).into_owned())
            .collect()
    })
}

fn spawn_argv(
    screen_command: Option<&[Vec<u8>]>,
    preferences: &CommandPreferences,
) -> Result<Vec<String>, ChildCommandError> {
    let split = blank_split(&preferences.custom_command);
    spawn_argv_with(screen_command, preferences, split)
}

fn words(arguments: &[&str]) -> Vec<Vec<u8>> {
    arguments.iter().map(|a| a.as_bytes().to_vec()).collect()
}

fn owned(arguments: &[&str]) -> Vec<String> {
    arguments.iter().map(|a| a.to_string()).collect()
}

#[test]
fn a_plain_screen_starts_the_login_shell_under_its_own_name() {
    assert_eq!(spawn_argv(None, &preferences(false, false, "")), Ok(owned(&["/bin/sh", "sh"])));
}

#[test]
fn a_login_shell_gains_a_leading_dash_in_its_first_argument() {
    assert_eq!(spawn_argv(None, &preferences(true, false, "")), Ok(owned(&["/bin/sh", "-sh"])));
}

#[test]
fn the_custom_command_preference_keeps_only_its_arguments() {
    assert_eq!(
        spawn_argv(None, &preferences(false, true, "/bin/echo hello world")),
        Ok(owned(&["/bin/echo", "echo", "hello", "world"]))
    );
}

#[test]
fn a_custom_command_preference_also_gains_the_login_dash() {
    assert_eq!(
        spawn_argv(None, &preferences(true, true, "/bin/echo hello")),
        Ok(owned(&["/bin/echo", "-echo", "hello"]))
    );
}

#[test]
fn a_relative_custom_command_is_left_for_the_path_search() {
    assert_eq!(
        spawn_argv(None, &preferences(false, true, "echo")),
        Ok(owned(&["echo", "echo"]))
    );
}

#[test]
fn the_custom_command_preference_is_split_the_way_a_shell_would() {
    // The splits are GLib's answers for these command lines.
    assert_eq!(
        spawn_argv_with(
            None,
            &preferences(false, true, "echo \"double\" 'single' bare"),
            Ok(words(&["echo", "double", "single", "bare"])),
        ),
        Ok(owned(&["echo", "echo", "double", "single", "bare"]))
    );
    assert_eq!(
        spawn_argv_with(
            None,
            &preferences(false, true, "'quoted command' argument"),
            Ok(words(&["quoted command", "argument"])),
        ),
        Ok(owned(&["quoted command", "quoted command", "argument"]))
    );
    assert_eq!(
        spawn_argv_with(None, &preferences(false, true, "echo #comment"), Ok(words(&["echo"]))),
        Ok(owned(&["echo", "echo"]))
    );
}

#[test]
fn the_base_name_of_a_directory_like_command_drops_its_trailing_slash() {
    assert_eq!(spawn_argv(None, &preferences(false, true, "/bin/")), Ok(owned(&["/bin/", "bin"])));
    assert_eq!(spawn_argv(None, &preferences(true, true, "/bin/")), Ok(owned(&["/bin/", "-bin"])));
    assert_eq!(spawn_argv(None, &preferences(false, true, "/")), Ok(owned(&["/", "/"])));
    assert_eq!(spawn_argv(None, &preferences(true, true, "/")), Ok(owned(&["/", "-/"])));
}

#[test]
fn a_custom_command_preference_holding_no_words_is_refused() {
    for custom in ["", " ", "\t"] {
        assert_eq!(
            spawn_argv(None, &preferences(false, true, custom)),
            Err(ChildCommandError::EmptyCustomCommand),
            "custom command {custom:?}"
        );
    }
    assert_eq!(
        spawn_argv_with(None, &preferences(false, true, ""), Ok(Vec::new())),
        Err(ChildCommandError::EmptyCustomCommand)
    );
    assert_eq!(
        ChildCommandError::EmptyCustomCommand.message(),
        "Empty custom command in the terminal preferences"
    );
}

#[test]
fn an_unsplittable_custom_command_preference_reports_the_glib_message() {
    let message = "Text ended before matching quote was found for '. \
                   (The text was \u{201c}echo 'unbalanced\u{201d})";
    let error = spawn_argv_with(
        None,
        &preferences(false, true, "echo 'unbalanced"),
        Err(CommandSplitError::Malformed(message.to_owned())),
    )
    .expect_err("an unbalanced quote cannot be split");
    assert_eq!(error.message(), message);

    let message = "Text ended just after a \u{201c}\\\u{201d} character. \
                   (The text was \u{201c}echo \\\u{201d})";
    let error = spawn_argv_with(
        None,
        &preferences(false, true, "echo \\"),
        Err(CommandSplitError::Malformed(message.to_owned())),
    )
    .expect_err("a trailing escape cannot be split");
    assert_eq!(error.message(), message);
}

#[test]
fn the_custom_command_preference_is_ignored_unless_it_is_enabled() {
    assert_eq!(
        spawn_argv(None, &preferences(false, false, "/bin/echo ignored")),
        Ok(owned(&["/bin/sh", "sh"]))
    );
}

#[test]
fn a_screen_with_its_own_command_runs_it_unchanged() {
    let command = words(&["/bin/ls", "-l", "a b"]);
    assert_eq!(
        spawn_argv(Some(&command), &preferences(true, true, "/bin/echo unused")),
        Ok(owned(&["/bin/ls", "/bin/ls", "-l", "a b"]))
    );
}

#[test]
fn an_empty_screen_command_falls_back_to_the_preferences() {
    assert_eq!(spawn_argv(Some(&[]), &preferences(false, false, "")), Ok(owned(&["/bin/sh", "sh"])));
}

#[test]
fn a_screen_command_needs_no_login_shell_at_all() {
    let command = words(&["true"]);
    let resolved = child::child_command_with(
        Some(&command),
        &preferences(false, false, ""),
        Err(CommandSplitError::Empty),
        || Err(ChildCommandError::NoLoginShell),
    );
    assert_eq!(
        resolved.map(|command| command.spawn_argv()),
        Ok(vec![b"true".to_vec(), b"true".to_vec()])
    );
}

#[test]
fn the_spawn_request_names_its_first_argument_as_the_file() {
    let command = child::child_command_with(
        None,
        &preferences(false, false, ""),
        Err(CommandSplitError::Empty),
        || Ok(SHELL.as_bytes().to_vec()),
    )
    .expect("a fixed shell resolves");
    assert_eq!(command.command, b"/bin/sh".to_vec());
    assert_eq!(command.spawn_argv()[0], command.command);
    assert_eq!(child::SPAWN_TIMEOUT_MS, 30_000);
}

#[test]
fn the_fallback_shells_are_tried_in_the_frozen_order() {
    assert_eq!(
        FALLBACK_SHELLS,
        [
            "/bin/sh",
            "/bin/bash",
            "/usr/bin/bash",
            "/bin/dash",
            "/usr/bin/dash",
            "/bin/zsh",
            "/usr/bin/zsh",
            "/bin/tcsh",
            "/usr/bin/tcsh",
            "/bin/csh",
            "/usr/bin/csh",
            "/bin/ksh",
            "/usr/bin/ksh",
        ]
    );
}

#[test]
fn a_host_without_any_shell_reports_the_frozen_message() {
    assert_eq!(
        ChildCommandError::NoLoginShell.message(),
        "Unable to determine your login shell."
    );
    let candidates = child::login_shell_candidates(true, None, None);
    let none = vec![false; candidates.len()];
    assert_eq!(
        child::pick_login_shell(&candidates, &none),
        Err(ChildCommandError::NoLoginShell)
    );
}

#[test]
fn the_login_shell_is_looked_for_in_the_frozen_order() {
    let candidates = child::login_shell_candidates(true, Some(b"/opt/fish"), Some(b"/bin/bash"));
    assert_eq!(candidates.len(), 15);
    assert_eq!(candidates[0], b"/opt/fish".to_vec());
    assert_eq!(candidates[1], b"/bin/bash".to_vec());
    assert_eq!(candidates[2], b"/bin/sh".to_vec());
    assert_eq!(candidates[14], b"/usr/bin/ksh".to_vec());

    // A shell named by the environment is not trusted once privileges changed.
    let untrusted = child::login_shell_candidates(false, Some(b"/opt/fish"), None);
    assert_eq!(untrusted.len(), 13);
    assert_eq!(untrusted[0], b"/bin/sh".to_vec());

    let mut executable = vec![false; candidates.len()];
    executable[3] = true;
    executable[5] = true;
    assert_eq!(child::pick_login_shell(&candidates, &executable), Ok(b"/bin/bash".to_vec()));
}

fn inherited() -> Vec<(Vec<u8>, Vec<u8>)> {
    [
        ("HOME", "/home/frank"),
        ("COLUMNS", "80"),
        ("LINES", "24"),
        ("PATH", "/usr/bin:/bin"),
        ("WINDOWID", "12"),
        ("GNOME_DESKTOP_ICON", "x"),
        ("COLORTERM", "truecolor"),
        ("DISPLAY", ":0"),
        ("WAYLAND_DISPLAY", "wayland-1"),
        ("TERM", "xterm"),
        ("LANG", "C"),
        ("TERMINAL", "kept"),
    ]
    .iter()
    .map(|(n, v)| (n.as_bytes().to_vec(), v.as_bytes().to_vec()))
    .collect()
}

fn named(entry: &[u8], name: &str) -> bool {
    entry.starts_with(name.as_bytes()) && entry.get(name.len()) == Some(&b'=')
}

#[test]
fn the_child_environment_hides_the_variables_the_terminal_owns() {
    let environment = child::child_environment(&inherited(), &Toplevel::Unrealized);

    for hidden in [
        "COLUMNS",
        "LINES",
        "WINDOWID",
        "GNOME_DESKTOP_ICON",
        "DISPLAY",
        "WAYLAND_DISPLAY",
        "TERM",
    ] {
        assert!(
            !environment.iter().any(|entry| named(entry, hidden)),
            "{hidden} reached the child"
        );
    }
}

#[test]
fn the_child_environment_names_the_terminal_last() {
    let environment = child::child_environment(&inherited(), &Toplevel::Unrealized);
    assert_eq!(environment.last(), Some(&b"COLORTERM=xfce4-terminal".to_vec()));
    assert_eq!(environment.iter().filter(|entry| named(entry, "COLORTERM")).count(), 1);
}

#[test]
fn the_child_environment_keeps_the_inherited_variables_in_order() {
    let environment = child::child_environment(&inherited(), &Toplevel::Unrealized);
    let kept: Vec<Vec<u8>> = environment
        .iter()
        .filter(|entry| !named(entry, "COLORTERM"))
        .cloned()
        .collect();
    assert_eq!(
        kept,
        vec![
            b"HOME=/home/frank".to_vec(),
            b"PATH=/usr/bin:/bin".to_vec(),
            b"LANG=C".to_vec(),
            b"TERMINAL=kept".to_vec(),
        ]
    );
}

#[test]
fn a_realized_toplevel_adds_the_display_it_belongs_to() {
    let x11 = child::child_environment(
        &inherited(),
        &Toplevel::X11 {
            window: 2_097_156,
            display: ":100".to_owned(),
        },
    );
    assert_eq!(
        x11.iter().rev().take(3).collect::<Vec<_>>(),
        [
            &b"DISPLAY=:100".to_vec(),
            &b"WINDOWID=2097156".to_vec(),
            &b"COLORTERM=xfce4-terminal".to_vec(),
        ]
    );

    let wayland = child::child_environment(
        &inherited(),
        &Toplevel::Wayland {
            display: "wayland-0".to_owned(),
        },
    );
    assert_eq!(
        wayland.iter().rev().take(2).collect::<Vec<_>>(),
        [
            &b"WAYLAND_DISPLAY=wayland-0".to_vec(),
            &b"COLORTERM=xfce4-terminal".to_vec(),
        ]
    );

    let negative = child::child_environment(
        &[],
        &Toplevel::X11 {
            window: -5,
            display: String::new(),
        },
    );
    assert_eq!(negative[1], b"WINDOWID=-5".to_vec());
}
