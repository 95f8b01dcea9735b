use xfce4_terminal::cli::{
    color_table, format_launch_specs_bytes, help_text, parse_immediate, parse_launch, version_text,
    DynamicTitleMode, ImmediateAction, LaunchStep, OutsideAnswer, OutsideQuery, ParseError,
    TabSpec, Visibility, WindowSpec,
};

/// Answers the parser's questions the way the terminal would for plain
/// inputs: decimal integers, valid colors, and command lines split at spaces.
fn plain_answer(query: &OutsideQuery) -> OutsideAnswer {
    match query {
        OutsideQuery::ParseInteger(value) => {
            OutsideAnswer::Integer(String::from_utf8_lossy(value).trim().parse().unwrap_or(0))
        }
        OutsideQuery::CheckColor(_) => OutsideAnswer::Color(true),
        OutsideQuery::SplitCommand(value) => OutsideAnswer::Split(Ok(value
            .split(|b| *b == b' ')
            .filter(|w| !w.is_empty())
            .map(|w| w.to_vec())
            .collect())),
    }
}

fn launch_with(
    args: &[&[u8]],
    can_reuse_window: bool,
    answer: impl Fn(&OutsideQuery) -> OutsideAnswer,
) -> Result<Vec<WindowSpec>, ParseError> {
    let args: Vec<Vec<u8>> = args.iter().map(|a| a.to_vec()).collect();
    let mut answers = Vec::new();
    loop {
        match parse_launch(&args, can_reuse_window, &answers) {
            LaunchStep::Finished(result) => return result,
            LaunchStep::Ask(query) => answers.push(answer(&query)),
        }
    }
}

fn launch(args: &[&str], can_reuse_window: bool) -> Result<Vec<WindowSpec>, ParseError> {
    let bytes: Vec<&[u8]> = args.iter().map(|a| a.as_bytes()).collect();
    launch_with(&bytes, can_reuse_window, plain_answer)
}

fn text(error: ParseError) -> String {
    String::from_utf8_lossy(error.as_bytes()).into_owned()
}

fn some(value: &str) -> Option<Vec<u8>> {
    Some(value.as_bytes().to_vec())
}

#[test]
fn no_arguments_create_one_default_window_and_tab() {
    assert_eq!(launch(&[], false).unwrap(), vec![WindowSpec::default()]);
    assert_eq!(launch(&[], true).unwrap(), vec![WindowSpec::default()]);
}

#[test]
fn defaults_apply_only_where_a_specific_value_is_missing() {
    let windows = launch(
        &[
            "--default-display=:7",
            "--default-working-directory=/tmp",
            "--title=first",
            "--tab",
            "--working-directory=/var",
            "--window",
            "--display=:8",
        ],
        false,
    )
    .unwrap();

    assert_eq!(windows.len(), 2);
    assert_eq!(windows[0].display, some(":7"));
    assert_eq!(windows[0].tabs[0].directory, some("/tmp"));
    assert_eq!(windows[0].tabs[0].title, some("first"));
    assert_eq!(windows[0].tabs[1].directory, some("/var"));
    assert_eq!(windows[1].display, some(":8"));
    assert_eq!(windows[1].tabs[0].directory, some("/tmp"));
}

#[test]
fn first_tab_reuses_an_active_window_but_window_starts_a_new_one() {
    let windows = launch(&["--tab", "--title=reused", "--window", "--title=new"], true).unwrap();

    assert_eq!(windows.len(), 2);
    assert!(windows[0].reuse_last_window);
    assert_eq!(windows[0].tabs.len(), 1);
    assert_eq!(windows[0].tabs[0].title, some("reused"));
    assert_eq!(windows[1].tabs[0].title, some("new"));
}

#[test]
fn grouped_short_options_and_execute_match_the_c_rules() {
    let windows = launch(&["-HTgrouped", "-x", "printf", "%s", "hello"], false).unwrap();
    let tab = &windows[0].tabs[0];

    assert!(tab.hold);
    assert_eq!(tab.title, some("grouped"));
    assert_eq!(
        tab.command,
        Some(vec![b"printf".to_vec(), b"%s".to_vec(), b"hello".to_vec()])
    );

    let grouped_execute = launch(&["-Hx", "echo"], false).unwrap();
    assert!(grouped_execute[0].tabs[0].hold);
    assert_eq!(grouped_execute[0].tabs[0].command, Some(vec![b"echo".to_vec()]));
    assert!(launch(&["-xecho"], false).is_err());
}

#[test]
fn command_strings_use_glib_shell_syntax() {
    // The split is GLib's answer for this command line.
    let windows = launch_with(
        &[
            b"--command=printf '%s %s' \"hello world\" done",
            b"--dynamic-title-mode=before",
            b"--active-tab",
            b"--show-menubar",
        ],
        false,
        |query| match query {
            OutsideQuery::SplitCommand(line) => {
                assert_eq!(line.as_slice(), b"printf '%s %s' \"hello world\" done");
                OutsideAnswer::Split(Ok(vec![
                    b"printf".to_vec(),
                    b"%s %s".to_vec(),
                    b"hello world".to_vec(),
                    b"done".to_vec(),
                ]))
            }
            other => plain_answer(other),
        },
    )
    .unwrap();

    assert_eq!(
        windows[0].tabs[0].command,
        Some(vec![
            b"printf".to_vec(),
            b"%s %s".to_vec(),
            b"hello world".to_vec(),
            b"done".to_vec(),
        ])
    );
    assert_eq!(windows[0].tabs[0].dynamic_title_mode, DynamicTitleMode::Prepend);
    assert!(windows[0].tabs[0].active);
    assert_eq!(windows[0].menubar, Visibility::Show);
}

#[test]
fn invalid_zoom_and_unknown_options_report_reference_errors() {
    assert_eq!(
        text(launch(&["--zoom=8"], false).unwrap_err()),
        "Option \"--zoom\" requires specifying the zoom (-7 .. 7) as its parameter"
    );
    assert_eq!(
        text(launch(&["--wat"], false).unwrap_err()),
        "Unknown option \"--wat\""
    );
}

#[test]
fn tab_default_matches_the_reference() {
    assert_eq!(WindowSpec::default().tabs, vec![TabSpec::default()]);
}

#[test]
fn immediate_options_stop_at_execute_and_the_option_delimiter() {
    assert_eq!(
        parse_immediate(&["--disable-server", "-V"]).action,
        Some(ImmediateAction::Version)
    );
    assert_eq!(parse_immediate(&["-hV"]).action, Some(ImmediateAction::Help));
    assert!(!parse_immediate(&["-x", "--help"]).disable_server);
    assert_eq!(parse_immediate(&["-xecho", "--help"]).action, None);
    assert_eq!(parse_immediate(&["--", "--help"]).action, None);
}

#[test]
fn unknown_short_options_preserve_the_reference_argument_boundary() {
    let whole = launch_with(&["-é".as_bytes()], false, plain_answer).unwrap_err();
    assert_eq!(whole.as_bytes(), b"Unknown option \"-\xc3\xa9\"");
    let grouped = launch_with(&["-Hé".as_bytes()], false, plain_answer).unwrap_err();
    assert_eq!(grouped.as_bytes(), b"Unknown option \"-\xc3\"");
}

#[test]
fn reference_text_outputs_keep_the_public_command_name() {
    assert!(help_text().starts_with("Usage:\n  xfce4-terminal [OPTION...]\n\n"));
    assert!(help_text().ends_with(
        "See the xfce4-terminal man page for full explanation of the options above.\n\n"
    ));
    assert!(version_text("4.20").starts_with(
        "xfce4-terminal 1.2.0-dev-b5933b80 (Xfce 4.20)\n\nCopyright (c) 2003-2026\n"
    ));
    assert!(version_text("4.20").ends_with(
        "Please report bugs to <https://gitlab.xfce.org/apps/xfce4-terminal/-/issues>.\n"
    ));
    assert!(color_table().starts_with("       |          40m    41m    42m "));
    assert!(color_table().ends_with("\u{1b}[0m\n"));
}

#[test]
fn the_color_table_has_a_heading_and_eighteen_rows() {
    let table = color_table();
    let lines: Vec<&str> = table.lines().collect();
    assert_eq!(lines.len(), 19);
    assert_eq!(lines[0], "       |          40m    41m    42m    43m    44m    45m    46m    47m ");
    assert!(lines[1].starts_with("    0m |\u{1b}[0m    0m \u{1b}[0;40m    0m "));
    assert!(lines[3].starts_with("   30m |\u{1b}[30m   30m \u{1b}[30;40m   30m "));
    assert!(lines[11].starts_with(" 1;30m |\u{1b}[1;30m 1;30m \u{1b}[1;30;40m 1;30m "));
    assert!(lines[18].starts_with(" 1;37m |"));
}

#[test]
fn non_utf8_options_report_reference_bytes_without_panicking() {
    let error = launch_with(&[&[b'-', 0xff]], false, plain_answer).unwrap_err();
    assert_eq!(error.as_bytes(), b"Unknown option \"-\xff\"");
    let grouped = launch_with(&[&[b'-', b'H', 0xff]], false, plain_answer).unwrap_err();
    assert_eq!(grouped.as_bytes(), b"Unknown option \"-\xff\"");

    let launch = launch_with(&[b"-x", b"echo", &[0xff]], false, plain_answer).unwrap();
    let report = format_launch_specs_bytes(&launch);
    let needle: &[u8] = b"|command=2:4:echo:1:\xff";
    assert!(report.windows(needle.len()).any(|w| w == needle));

    let separate_title = launch_with(&[b"--title", &[0xff]], false, plain_answer).unwrap();
    let needle: &[u8] = b"|title=1:\xff";
    assert!(format_launch_specs_bytes(&separate_title)
        .windows(needle.len())
        .any(|w| w == needle));

    let inline_title =
        launch_with(&[&[b'-', b'-', b't', b'i', b't', b'l', b'e', b'=', 0xff]], false, plain_answer)
            .unwrap();
    assert!(format_launch_specs_bytes(&inline_title)
        .windows(needle.len())
        .any(|w| w == needle));

    let delimited = launch_with(&[b"--", &[b'-', 0xff]], false, plain_answer).unwrap();
    assert_eq!(delimited, vec![WindowSpec::default()]);
}

#[test]
fn the_default_window_is_reported_field_by_field() {
    assert_eq!(
        format_launch_specs_bytes(&[WindowSpec::default()]),
        b"W|display=-|geometry=-|role=-|workspace=-1|startup_id=-|sm_client_id=-|icon=-|font=-|drop_down=0|fullscreen=0|maximize=0|minimize=0|reuse_last_window=0|menubar=0|borders=0|toolbar=0|scrollbar=0|zoom=0\nT|command=-|directory=-|title=-|initial_title=-|color_text=-|color_bg=-|color_title=-|dynamic_title_mode=4|position=-1|hold=0|active=0\n".to_vec()
    );
    assert_eq!(format_launch_specs_bytes(&[]), Vec::<u8>::new());
}

#[test]
fn each_question_is_asked_until_it_is_answered() {
    let args = vec![b"--zoom=3".to_vec(), b"--workspace=2".to_vec()];
    match parse_launch(&args, false, &Vec::new()) {
        LaunchStep::Ask(OutsideQuery::ParseInteger(value)) => assert_eq!(value, b"3".to_vec()),
        other => panic!("unexpected {other:?}"),
    }
    match parse_launch(&args, false, &vec![OutsideAnswer::Integer(3)]) {
        LaunchStep::Ask(OutsideQuery::ParseInteger(value)) => assert_eq!(value, b"2".to_vec()),
        other => panic!("unexpected {other:?}"),
    }
    match parse_launch(&args, false, &vec![OutsideAnswer::Integer(3), OutsideAnswer::Integer(2)]) {
        LaunchStep::Finished(Ok(windows)) => {
            assert_eq!(windows[0].zoom, 3);
            assert_eq!(windows[0].workspace, 2);
        }
        other => panic!("unexpected {other:?}"),
    }
}

#[test]
fn an_unreadable_color_and_a_bad_split_are_reported() {
    let refused = launch_with(&[b"--color-bg=nonsense"], false, |query| match query {
        OutsideQuery::CheckColor(_) => OutsideAnswer::Color(false),
        other => plain_answer(other),
    })
    .unwrap_err();
    assert!(!refused.as_bytes().is_empty());

    let unsplittable = launch_with(&[b"-e", b"echo 'open"], false, |query| match query {
        OutsideQuery::SplitCommand(_) => OutsideAnswer::Split(Err(b"Text ended before matching quote was found for '.".to_vec())),
        other => plain_answer(other),
    })
    .unwrap_err();
    assert_eq!(unsplittable.as_bytes(), b"Text ended before matching quote was found for '.");
}

#[test]
fn each_refusal_names_its_reason() {
    assert_eq!(
        text(launch(&["-x"], false).unwrap_err()),
        "Option \"--execute/-x\" requires specifying the command to run on the rest of the command line separated from \"--execute/-x\""
    );
    assert_eq!(
        text(launch(&["--dynamic-title-mode=sideways"], false).unwrap_err()),
        "Invalid argument for option \"--dynamic-title-mode\": sideways"
    );
    assert_eq!(
        text(launch(&["--title"], false).unwrap_err()),
        "Option \"--title/-T\" requires specifying the title as its parameter"
    );
    let refused = launch_with(&[b"--color-text=nonsense"], false, |query| match query {
        OutsideQuery::CheckColor(_) => OutsideAnswer::Color(false),
        other => plain_answer(other),
    })
    .unwrap_err();
    assert_eq!(text(refused), "Unable to parse color: nonsense");
    assert_eq!(text(launch(&["-Hq"], false).unwrap_err()), "Unknown option \"-q\"");
    assert_eq!(text(launch(&["plain"], false).unwrap_err()), "Unknown option \"plain\"");
}

#[test]
fn dynamic_title_modes_ignore_letter_case() {
    for (value, mode) in [
        ("replace", DynamicTitleMode::Replace),
        ("BEFORE", DynamicTitleMode::Prepend),
        ("After", DynamicTitleMode::Append),
        ("none", DynamicTitleMode::Hide),
    ] {
        let argument = format!("--dynamic-title-mode={value}");
        let windows = launch(&[argument.as_str()], false).unwrap();
        assert_eq!(windows[0].tabs[0].dynamic_title_mode, mode);
    }
}

#[test]
fn separators_start_tabs_and_windows() {
    let windows = launch(&["--tab", "--tab", "--window", "--hide-borders", "--zoom=-7"], false).unwrap();
    assert_eq!(windows.len(), 2);
    assert_eq!(windows[0].tabs.len(), 3);
    assert_eq!(windows[1].tabs.len(), 1);
    assert_eq!(windows[1].borders, Visibility::Hide);
    assert_eq!(windows[1].zoom, -7);
    // A reusable window takes the first tab; the first leading --window is ignored.
    let reused = launch(&["--window", "--title=a"], true).unwrap();
    assert_eq!(reused.len(), 1);
    assert!(!reused[0].reuse_last_window);
}

#[test]
fn answers_beyond_those_asked_for_change_nothing() {
    let args = vec![b"--zoom=3".to_vec(), b"--tab".to_vec()];
    let needed = vec![OutsideAnswer::Integer(3)];
    let more = vec![OutsideAnswer::Integer(3), OutsideAnswer::Color(true), OutsideAnswer::Integer(9)];
    let first = match parse_launch(&args, false, &needed) {
        LaunchStep::Finished(result) => result,
        other => panic!("unexpected {other:?}"),
    };
    let second = match parse_launch(&args, false, &more) {
        LaunchStep::Finished(result) => result,
        other => panic!("unexpected {other:?}"),
    };
    assert_eq!(first, second);
    assert_eq!(first.unwrap()[0].tabs.len(), 2);
}

#[test]
fn every_finished_request_has_a_window_with_a_tab() {
    for args in [vec![], vec!["--window"], vec!["--tab", "--window", "--tab"], vec!["--", "--window"]] {
        for reuse in [false, true] {
            let windows = launch(&args, reuse).unwrap();
            assert!(!windows.is_empty());
            assert!(windows.iter().all(|w| !w.tabs.is_empty()));
        }
    }
}

#[test]
fn the_version_text_is_complete() {
    assert_eq!(
        version_text("4.18.1"),
        "xfce4-terminal 1.2.0-dev-b5933b80 (Xfce 4.18.1)\n\n\
Copyright (c) 2003-2026\n\
\tThe Xfce development team. All rights reserved.\n\n\
Written by Benedikt Meurer <benny@xfce.org>,\n\
Nick Schermer <nick@xfce.org>,\n\
Igor Zakharov <f2404@yandex.ru>,\n\
Sergios - Anestis Kefalidis <sergioskefalidis@gmail.com>.\n\n\
Please report bugs to <https://gitlab.xfce.org/apps/xfce4-terminal/-/issues>.\n"
    );
}

#[test]
fn the_color_table_is_complete() {
    assert_eq!(color_table(), "       |          40m    41m    42m    43m    44m    45m    46m    47m \n    0m |\u{1b}[0m    0m \u{1b}[0;40m    0m \u{1b}[0;41m    0m \u{1b}[0;42m    0m \u{1b}[0;43m    0m \u{1b}[0;44m    0m \u{1b}[0;45m    0m \u{1b}[0;46m    0m \u{1b}[0;47m    0m \u{1b}[0m\n    1m |\u{1b}[1m    1m \u{1b}[1;40m    1m \u{1b}[1;41m    1m \u{1b}[1;42m    1m \u{1b}[1;43m    1m \u{1b}[1;44m    1m \u{1b}[1;45m    1m \u{1b}[1;46m    1m \u{1b}[1;47m    1m \u{1b}[0m\n   30m |\u{1b}[30m   30m \u{1b}[30;40m   30m \u{1b}[30;41m   30m \u{1b}[30;42m   30m \u{1b}[30;43m   30m \u{1b}[30;44m   30m \u{1b}[30;45m   30m \u{1b}[30;46m   30m \u{1b}[30;47m   30m \u{1b}[0m\n   31m |\u{1b}[31m   31m \u{1b}[31;40m   31m \u{1b}[31;41m   31m \u{1b}[31;42m   31m \u{1b}[31;43m   31m \u{1b}[31;44m   31m \u{1b}[31;45m   31m \u{1b}[31;46m   31m \u{1b}[31;47m   31m \u{1b}[0m\n   32m |\u{1b}[32m   32m \u{1b}[32;40m   32m \u{1b}[32;41m   32m \u{1b}[32;42m   32m \u{1b}[32;43m   32m \u{1b}[32;44m   32m \u{1b}[32;45m   32m \u{1b}[32;46m   32m \u{1b}[32;47m   32m \u{1b}[0m\n   33m |\u{1b}[33m   33m \u{1b}[33;40m   33m \u{1b}[33;41m   33m \u{1b}[33;42m   33m \u{1b}[33;43m   33m \u{1b}[33;44m   33m \u{1b}[33;45m   33m \u{1b}[33;46m   33m \u{1b}[33;47m   33m \u{1b}[0m\n   34m |\u{1b}[34m   34m \u{1b}[34;40m   34m \u{1b}[34;41m   34m \u{1b}[34;42m   34m \u{1b}[34;43m   34m \u{1b}[34;44m   34m \u{1b}[34;45m   34m \u{1b}[34;46m   34m \u{1b}[34;47m   34m \u{1b}[0m\n   35m |\u{1b}[35m   35m \u{1b}[35;40m   35m \u{1b}[35;41m   35m \u{1b}[35;42m   35m \u{1b}[35;43m   35m \u{1b}[35;44m   35m \u{1b}[35;45m   35m \u{1b}[35;46m   35m \u{1b}[35;47m   35m \u{1b}[0m\n   36m |\u{1b}[36m   36m \u{1b}[36;40m   36m \u{1b}[36;41m   36m \u{1b}[36;42m   36m \u{1b}[36;43m   36m \u{1b}[36;44m   36m \u{1b}[36;45m   36m \u{1b}[36;46m   36m \u{1b}[36;47m   36m \u{1b}[0m\n   37m |\u{1b}[37m   37m \u{1b}[37;40m   37m \u{1b}[37;41m   37m \u{1b}[37;42m   37m \u{1b}[37;43m   37m \u{1b}[37;44m   37m \u{1b}[37;45m   37m \u{1b}[37;46m   37m \u{1b}[37;47m   37m \u{1b}[0m\n 1;30m |\u{1b}[1;30m 1;30m \u{1b}[1;30;40m 1;30m \u{1b}[1;30;41m 1;30m \u{1b}[1;30;42m 1;30m \u{1b}[1;30;43m 1;30m \u{1b}[1;30;44m 1;30m \u{1b}[1;30;45m 1;30m \u{1b}[1;30;46m 1;30m \u{1b}[1;30;47m 1;30m \u{1b}[0m\n 1;31m |\u{1b}[1;31m 1;31m \u{1b}[1;31;40m 1;31m \u{1b}[1;31;41m 1;31m \u{1b}[1;31;42m 1;31m \u{1b}[1;31;43m 1;31m \u{1b}[1;31;44m 1;31m \u{1b}[1;31;45m 1;31m \u{1b}[1;31;46m 1;31m \u{1b}[1;31;47m 1;31m \u{1b}[0m\n 1;32m |\u{1b}[1;32m 1;32m \u{1b}[1;32;40m 1;32m \u{1b}[1;32;41m 1;32m \u{1b}[1;32;42m 1;32m \u{1b}[1;32;43m 1;32m \u{1b}[1;32;44m 1;32m \u{1b}[1;32;45m 1;32m \u{1b}[1;32;46m 1;32m \u{1b}[1;32;47m 1;32m \u{1b}[0m\n 1;33m |\u{1b}[1;33m 1;33m \u{1b}[1;33;40m 1;33m \u{1b}[1;33;41m 1;33m \u{1b}[1;33;42m 1;33m \u{1b}[1;33;43m 1;33m \u{1b}[1;33;44m 1;33m \u{1b}[1;33;45m 1;33m \u{1b}[1;33;46m 1;33m \u{1b}[1;33;47m 1;33m \u{1b}[0m\n 1;34m |\u{1b}[1;34m 1;34m \u{1b}[1;34;40m 1;34m \u{1b}[1;34;41m 1;34m \u{1b}[1;34;42m 1;34m \u{1b}[1;34;43m 1;34m \u{1b}[1;34;44m 1;34m \u{1b}[1;34;45m 1;34m \u{1b}[1;34;46m 1;34m \u{1b}[1;34;47m 1;34m \u{1b}[0m\n 1;35m |\u{1b}[1;35m 1;35m \u{1b}[1;35;40m 1;35m \u{1b}[1;35;41m 1;35m \u{1b}[1;35;42m 1;35m \u{1b}[1;35;43m 1;35m \u{1b}[1;35;44m 1;35m \u{1b}[1;35;45m 1;35m \u{1b}[1;35;46m 1;35m \u{1b}[1;35;47m 1;35m \u{1b}[0m\n 1;36m |\u{1b}[1;36m 1;36m \u{1b}[1;36;40m 1;36m \u{1b}[1;36;41m 1;36m \u{1b}[1;36;42m 1;36m \u{1b}[1;36;43m 1;36m \u{1b}[1;36;44m 1;36m \u{1b}[1;36;45m 1;36m \u{1b}[1;36;46m 1;36m \u{1b}[1;36;47m 1;36m \u{1b}[0m\n 1;37m |\u{1b}[1;37m 1;37m \u{1b}[1;37;40m 1;37m \u{1b}[1;37;41m 1;37m \u{1b}[1;37;42m 1;37m \u{1b}[1;37;43m 1;37m \u{1b}[1;37;44m 1;37m \u{1b}[1;37;45m 1;37m \u{1b}[1;37;46m 1;37m \u{1b}[1;37;47m 1;37m \u{1b}[0m\n");
}

#[test]
fn a_described_window_is_reported_field_by_field() {
    let windows = launch(
        &["--title=t", "--zoom=-2", "-e", "a bc", "--show-menubar", "--hide-toolbar", "--workspace=12", "-H", "--active-tab"],
        false,
    )
    .unwrap();
    assert_eq!(
        String::from_utf8(format_launch_specs_bytes(&windows)).unwrap(),
        "W|display=-|geometry=-|role=-|workspace=12|startup_id=-|sm_client_id=-|icon=-|font=-|drop_down=0|fullscreen=0|maximize=0|minimize=0|reuse_last_window=0|menubar=1|borders=0|toolbar=2|scrollbar=0|zoom=-2\n\
T|command=2:1:a:2:bc|directory=-|title=1:t|initial_title=-|color_text=-|color_bg=-|color_title=-|dynamic_title_mode=4|position=-1|hold=1|active=1\n"
    );
}
