//! The launch parser: reads a request one argument at a time and asks the
//! caller for what only the caller can answer.

use vstd::prelude::*;
use vstd::string::StringSliceAdditionalSpecFns;

use crate::bytes::{bytes_equal, copy_bytes, copy_range, starts_with};
use super::edit::{add_window, change_current_tab, change_current_window, TabChange, WindowChange};
use super::rules::{
    answers_view, apply_flag, apply_value, args_view, execute_message, finished, initial_parser,
    launch, long_step, run, short_group_is_execute, short_step, step, tab_with_default,
    well_formed_windows, with_defaults, with_tab, with_window, FlagOption, LaunchStep, LongOption,
    OutsideAnswer, OutsideQuery, ParserModel, StepModel, ValueOption,
};
use super::types::{
    bytes_opt, tabs_view, TabSpec, windows_view, words_view, ParseError, TabModel,
    Visibility, WindowModel, WindowSpec,
};
use super::words::{
    execute_text, invalid_color_text, invalid_mode_text, long_option_of, requires_text,
    split_long_option, title_mode_of, unknown_short_text, unknown_text, window_part_of,
};

verus! {

struct Parser {
    windows: Vec<WindowSpec>,
    default_display: Option<Vec<u8>>,
    default_directory: Option<Vec<u8>>,
    can_reuse_window: bool,
    ignore_window_option: bool,
    index: usize,
    used: usize,
}

impl View for Parser {
    type V = ParserModel;

    closed spec fn view(&self) -> ParserModel {
        ParserModel {
            windows: windows_view(self.windows@),
            default_display: bytes_opt(self.default_display),
            default_directory: bytes_opt(self.default_directory),
            can_reuse_window: self.can_reuse_window,
            ignore_window_option: self.ignore_window_option,
            index: self.index as int,
            used: self.used as int,
        }
    }
}

enum Signal {
    Next,
    Stop,
    Fail(ParseError),
    Ask(OutsideQuery),
}

spec fn signal_matches(r: Signal, s: StepModel, after: ParserModel) -> bool {
    match s {
        StepModel::Next(n) => r is Next && after == n,
        StepModel::Stop(n) => r is Stop && after == n,
        StepModel::Fail(m) => r matches Signal::Fail(e) && e.message@ == m,
        StepModel::Ask(q) => r matches Signal::Ask(x) && x@ == q,
    }
}

fn fail(message: Vec<u8>) -> (r: Signal)
    ensures
        r matches Signal::Fail(e) && e.message@ == message@,
{
    Signal::Fail(ParseError { message })
}

fn copy_words(words: &Vec<Vec<u8>>) -> (c: Vec<Vec<u8>>)
    ensures
        words_view(c@) == words_view(words@),
{
    copy_words_from(words, 0)
}

fn copy_words_from(words: &Vec<Vec<u8>>, from: usize) -> (c: Vec<Vec<u8>>)
    requires
        from <= words@.len(),
    ensures
        words_view(c@) == words_view(words@).skip(from as int),
{
    let mut c: Vec<Vec<u8>> = Vec::new();
    let mut i: usize = from;
    while i < words.len()
        invariant
            from <= i <= words@.len(),
            words_view(c@) == words_view(words@).subrange(from as int, i as int),
        decreases words@.len() - i,
    {
        let w = copy_bytes(words[i].as_slice());
        let ghost prev = words_view(c@);
        c.push(w);
        i = i + 1;
        assert(words_view(c@) =~= prev.push(words@[i - 1]@));
        assert(words_view(words@).subrange(from as int, i as int) =~= words_view(words@).subrange(
            from as int,
            i - 1,
        ).push(words@[i - 1]@));
    }
    assert(words_view(words@).subrange(from as int, words@.len() as int) =~= words_view(words@).skip(
        from as int,
    ));
    c
}

fn with_tab_change(st: &mut Parser, change: TabChange)
    requires
        well_formed_windows(old(st)@.windows),
    ensures
        final(st)@ == with_tab(old(st)@, change@),
        well_formed_windows(final(st)@.windows),
{
    change_current_tab(&mut st.windows, change);
}

fn with_window_change(st: &mut Parser, change: WindowChange)
    requires
        well_formed_windows(old(st)@.windows),
    ensures
        final(st)@ == with_window(old(st)@, change@),
        well_formed_windows(final(st)@.windows),
{
    change_current_window(&mut st.windows, change);
}

/// Applies a value option whose value stands at `st.index`.
fn apply_value_exec(
    answers: &Vec<OutsideAnswer>,
    st: &mut Parser,
    option: ValueOption,
    value: Vec<u8>,
) -> (r: Signal)
    requires
        well_formed_windows(old(st)@.windows),
        old(st).index < usize::MAX,
    ensures
        signal_matches(r, apply_value(answers_view(answers@), old(st)@, option, value@), final(st)@),
        well_formed_windows(final(st)@.windows),
        r is Next ==> final(st).index == old(st).index + 1,
{
    reveal(apply_value);
    let ghost av = answers_view(answers@);
    match option {
        ValueOption::DefaultDisplay => {
            st.default_display = Some(value);
            st.index = st.index + 1;
            Signal::Next
        },
        ValueOption::DefaultDirectory => {
            st.default_directory = Some(value);
            st.index = st.index + 1;
            Signal::Next
        },
        ValueOption::Command => {
            if st.used < answers.len() {
                assert(av[st.used as int] == answers@[st.used as int]@);
                match &answers[st.used] {
                    OutsideAnswer::Split(Ok(words)) => {
                        let words = copy_words(words);
                        with_tab_change(st, TabChange::Command(words));
                        st.used = st.used + 1;
                        st.index = st.index + 1;
                        return Signal::Next;
                    },
                    OutsideAnswer::Split(Err(message)) => {
                        return fail(copy_bytes(message.as_slice()));
                    },
                    _ => {},
                }
            }
            Signal::Ask(OutsideQuery::SplitCommand(value))
        },
        ValueOption::WorkingDirectory => {
            with_tab_change(st, TabChange::Directory(value));
            st.index = st.index + 1;
            Signal::Next
        },
        ValueOption::Title => {
            with_tab_change(st, TabChange::Title(value));
            st.index = st.index + 1;
            Signal::Next
        },
        ValueOption::DynamicTitleMode => {
            match title_mode_of(value.as_slice()) {
                Some(mode) => {
                    with_tab_change(st, TabChange::Mode(mode));
                    st.index = st.index + 1;
                    Signal::Next
                },
                None => fail(invalid_mode_text(value.as_slice())),
            }
        },
        ValueOption::InitialTitle => {
            with_tab_change(st, TabChange::InitialTitle(value));
            st.index = st.index + 1;
            Signal::Next
        },
        ValueOption::ColorText | ValueOption::ColorBg => {
            if st.used < answers.len() {
                assert(av[st.used as int] == answers@[st.used as int]@);
                match &answers[st.used] {
                    OutsideAnswer::Color(true) => {
                        let change = match option {
                            ValueOption::ColorText => TabChange::ColorText(value),
                            _ => TabChange::ColorBg(value),
                        };
                        with_tab_change(st, change);
                        st.used = st.used + 1;
                        st.index = st.index + 1;
                        return Signal::Next;
                    },
                    OutsideAnswer::Color(false) => {
                        return fail(invalid_color_text(value.as_slice()));
                    },
                    _ => {},
                }
            }
            Signal::Ask(OutsideQuery::CheckColor(value))
        },
        ValueOption::Display => {
            with_window_change(st, WindowChange::Display(value));
            st.index = st.index + 1;
            Signal::Next
        },
        ValueOption::Geometry => {
            with_window_change(st, WindowChange::Geometry(value));
            st.index = st.index + 1;
            Signal::Next
        },
        ValueOption::Role => {
            with_window_change(st, WindowChange::Role(value));
            st.index = st.index + 1;
            Signal::Next
        },
        ValueOption::SmClientId => {
            with_window_change(st, WindowChange::SmClientId(value));
            st.index = st.index + 1;
            Signal::Next
        },
        ValueOption::StartupId => {
            with_window_change(st, WindowChange::StartupId(value));
            st.index = st.index + 1;
            Signal::Next
        },
        ValueOption::Font => {
            with_window_change(st, WindowChange::Font(value));
            st.index = st.index + 1;
            Signal::Next
        },
        ValueOption::Icon => {
            with_window_change(st, WindowChange::Icon(value));
            st.index = st.index + 1;
            Signal::Next
        },
        ValueOption::Workspace | ValueOption::Zoom => {
            if st.used < answers.len() {
                assert(av[st.used as int] == answers@[st.used as int]@);
                if let OutsideAnswer::Integer(n) = &answers[st.used] {
                    let n = *n;
                    match option {
                        ValueOption::Workspace => {
                            with_window_change(st, WindowChange::Workspace(n));
                        },
                        _ => {
                            if n < -7 || n > 7 {
                                return fail(requires_text(ValueOption::Zoom));
                            }
                            with_window_change(st, WindowChange::Zoom(n));
                        },
                    }
                    st.used = st.used + 1;
                    st.index = st.index + 1;
                    return Signal::Next;
                }
            }
            Signal::Ask(OutsideQuery::ParseInteger(value))
        },
        ValueOption::Class => {
            st.index = st.index + 1;
            Signal::Next
        },
    }
}

/// Applies an option that takes no value, standing at `st.index`.
fn apply_flag_exec(args: &Vec<Vec<u8>>, st: &mut Parser, flag: FlagOption) -> (r: Signal)
    requires
        well_formed_windows(old(st)@.windows),
        old(st).index < args@.len(),
    ensures
        signal_matches(r, apply_flag(args_view(args@), old(st)@, flag), final(st)@),
        well_formed_windows(final(st)@.windows),
        r is Next ==> final(st).index == old(st).index + 1,
{
    reveal(apply_flag);
    let n = args.len();
    assert(args_view(args@) =~= words_view(args@));
    match flag {
        FlagOption::Execute => {
            if st.index + 1 >= n {
                fail(execute_text())
            } else {
                let rest = copy_words_from(args, st.index + 1);
                with_tab_change(st, TabChange::Command(rest));
                Signal::Stop
            }
        },
        FlagOption::Hold => {
            with_tab_change(st, TabChange::Hold);
            st.index = st.index + 1;
            Signal::Next
        },
        FlagOption::ActiveTab => {
            with_tab_change(st, TabChange::Active);
            st.index = st.index + 1;
            Signal::Next
        },
        FlagOption::DropDown => {
            with_window_change(st, WindowChange::DropDown);
            st.index = st.index + 1;
            Signal::Next
        },
        FlagOption::Fullscreen => {
            with_window_change(st, WindowChange::Fullscreen);
            st.index = st.index + 1;
            Signal::Next
        },
        FlagOption::Maximize => {
            with_window_change(st, WindowChange::Maximize);
            st.index = st.index + 1;
            Signal::Next
        },
        FlagOption::Minimize => {
            with_window_change(st, WindowChange::Minimize);
            st.index = st.index + 1;
            Signal::Next
        },
        FlagOption::Tab => {
            if st.can_reuse_window {
                with_window_change(st, WindowChange::ReuseLastWindow);
                st.can_reuse_window = false;
            } else {
                with_window_change(st, WindowChange::AddTab);
            }
            st.index = st.index + 1;
            Signal::Next
        },
        FlagOption::Window => {
            if st.can_reuse_window && st.ignore_window_option {
                st.ignore_window_option = false;
                st.can_reuse_window = false;
            } else {
                st.can_reuse_window = false;
                add_window(&mut st.windows);
            }
            st.index = st.index + 1;
            Signal::Next
        },
        FlagOption::Ignored => {
            st.index = st.index + 1;
            Signal::Next
        },
    }
}

/// Reads the argument `--<long>` standing at `st.index`.
fn long_step_exec(
    args: &Vec<Vec<u8>>,
    answers: &Vec<OutsideAnswer>,
    st: &mut Parser,
    long: &[u8],
) -> (r: Signal)
    requires
        well_formed_windows(old(st)@.windows),
        old(st).index < args@.len(),
    ensures
        signal_matches(
            r,
            long_step(args_view(args@), answers_view(answers@), old(st)@, long@),
            final(st)@,
        ),
        well_formed_windows(final(st)@.windows),
        r is Next ==> old(st).index < final(st).index <= args@.len(),
{
    let n = args.len();
    let ghost av = args_view(args@);
    let (name, inline) = split_long_option(long);
    let show = "show-".as_bytes();
    let hide = "hide-".as_bytes();
    if inline.is_none() && starts_with(name.as_slice(), show) {
        let item = copy_range(name.as_slice(), show.len(), name.len());
        assert(item@ =~= name@.skip(show@.len() as int));
        if let Some(part) = window_part_of(item.as_slice()) {
            with_window_change(st, WindowChange::Show(part, Visibility::Show));
            st.index = st.index + 1;
            return Signal::Next;
        }
    }
    if inline.is_none() && starts_with(name.as_slice(), hide) {
        let item = copy_range(name.as_slice(), hide.len(), name.len());
        assert(item@ =~= name@.skip(hide@.len() as int));
        if let Some(part) = window_part_of(item.as_slice()) {
            with_window_change(st, WindowChange::Show(part, Visibility::Hide));
            st.index = st.index + 1;
            return Signal::Next;
        }
    }
    match long_option_of(name.as_slice()) {
        LongOption::Value(option) => {
            match inline {
                Some(value) => apply_value_exec(answers, st, option, value),
                None => {
                    if st.index + 1 < args.len() {
                        let value = copy_bytes(args[st.index + 1].as_slice());
                        assert(av[st.index + 1] == args@[st.index + 1]@);
                        st.index = st.index + 1;
                        apply_value_exec(answers, st, option, value)
                    } else {
                        fail(requires_text(option))
                    }
                },
            }
        },
        LongOption::Flag(flag) => {
            if inline.is_none() {
                apply_flag_exec(args, st, flag)
            } else {
                assert(av[st.index as int] == args@[st.index as int]@);
                fail(unknown_text(args[st.index].as_slice()))
            }
        },
        LongOption::Unknown => {
            assert(av[st.index as int] == args@[st.index as int]@);
            fail(unknown_text(args[st.index].as_slice()))
        },
    }
}

fn group_is_execute(argument: &[u8]) -> (r: bool)
    ensures
        r == short_group_is_execute(argument@),
{
    if argument.len() < 2 || argument[argument.len() - 1] != 120u8 {
        return false;
    }
    let mut i: usize = 1;
    while i < argument.len() - 1
        invariant
            argument@.len() >= 2,
            1 <= i <= argument@.len() - 1,
            forall|j: int| 1 <= j < i ==> argument@[j] == 72u8,
        decreases argument@.len() - 1 - i,
    {
        if argument[i] != 72u8 {
            return false;
        }
        i = i + 1;
    }
    true
}

/// Reads the group of short options standing at `st.index`.
fn short_step_exec(
    args: &Vec<Vec<u8>>,
    answers: &Vec<OutsideAnswer>,
    st: &mut Parser,
    argument: &[u8],
) -> (r: Signal)
    requires
        well_formed_windows(old(st)@.windows),
        old(st).index < args@.len(),
    ensures
        signal_matches(
            r,
            short_step(args_view(args@), answers_view(answers@), old(st)@, argument@, 1),
            final(st)@,
        ),
        well_formed_windows(final(st)@.windows),
        r is Next ==> old(st).index < final(st).index <= args@.len(),
{
    let n = args.len();
    let ghost av = args_view(args@);
    let ghost anv = answers_view(answers@);
    let ghost start = st@;
    let mut position: usize = 1;
    while position < argument.len()
        invariant
            1 <= position,
            n == args@.len(),
            av == args_view(args@),
            anv == answers_view(answers@),
            well_formed_windows(st@.windows),
            st.index == start.index,
            start == old(st)@,
            st.index < args@.len(),
            short_step(av, anv, start, argument@, 1) == short_step(av, anv, st@, argument@, position as int),
        decreases argument@.len() - position,
    {
        let c = argument[position];
        if c == 72u8 {
            with_tab_change(st, TabChange::Hold);
            position = position + 1;
        } else if c == 120u8 {
            if !group_is_execute(argument) || st.index + 1 >= n {
                assert(argument@[position as int] == 120u8);
                assert(short_step(av, anv, st@, argument@, position as int) == StepModel::Fail(execute_message()));
                return fail(execute_text());
            }
            assert(av =~= words_view(args@));
            let rest = copy_words_from(args, st.index + 1);
            with_tab_change(st, TabChange::Command(rest));
            return Signal::Stop;
        } else if c == 101u8 || c == 84u8 || c == 73u8 {
            let option = if c == 101u8 {
                ValueOption::Command
            } else if c == 84u8 {
                ValueOption::Title
            } else {
                ValueOption::Icon
            };
            if position + 1 < argument.len() {
                let value = copy_range(argument, position + 1, argument.len());
                assert(value@ =~= argument@.skip(position + 1));
                return apply_value_exec(answers, st, option, value);
            } else if st.index + 1 < n {
                let value = copy_bytes(args[st.index + 1].as_slice());
                assert(av[st.index + 1] == args@[st.index + 1]@);
                st.index = st.index + 1;
                return apply_value_exec(answers, st, option, value);
            } else {
                return fail(requires_text(option));
            }
        } else if position == 1 {
            return fail(unknown_text(argument));
        } else {
            return fail(unknown_short_text(argument, position));
        }
    }
    st.index = st.index + 1;
    Signal::Next
}

/// Reads the argument at `st.index`.
fn step_exec(args: &Vec<Vec<u8>>, answers: &Vec<OutsideAnswer>, st: &mut Parser) -> (r: Signal)
    requires
        well_formed_windows(old(st)@.windows),
        old(st).index < args@.len(),
    ensures
        signal_matches(r, step(args_view(args@), answers_view(answers@), old(st)@), final(st)@),
        well_formed_windows(final(st)@.windows),
        r is Next ==> old(st).index < final(st).index <= args@.len(),
{
    reveal(step);
    let ghost av = args_view(args@);
    let argument = args[st.index].as_slice();
    assert(av[st.index as int] == argument@);
    if bytes_equal(argument, "--".as_bytes()) {
        Signal::Stop
    } else if argument.len() < 2 || argument[0] != 45u8 {
        fail(unknown_text(argument))
    } else if argument[1] == 45u8 {
        let long = copy_range(argument, 2, argument.len());
        assert(long@ =~= argument@.skip(2));
        long_step_exec(args, answers, st, long.as_slice())
    } else {
        short_step_exec(args, answers, st, argument)
    }
}

fn copy_option(value: &Option<Vec<u8>>) -> (c: Option<Vec<u8>>)
    ensures
        bytes_opt(c) == bytes_opt(*value),
{
    match value {
        Some(v) => Some(copy_bytes(v.as_slice())),
        None => None,
    }
}

/// Gives a window and its tabs the defaults they did not set themselves.
fn fill_defaults(window: WindowSpec, display: &Option<Vec<u8>>, directory: &Option<Vec<u8>>) -> (w: WindowSpec)
    ensures
        w@ == with_defaults(window@, bytes_opt(*display), bytes_opt(*directory)),
{
    let mut window = window;
    let ghost given = window@;
    if window.display.is_none() {
        window.display = copy_option(display);
    }
    let mut tabs: Vec<TabSpec> = Vec::new();
    std::mem::swap(&mut tabs, &mut window.tabs);
    let ghost before = tabs_view(tabs@);
    let ghost dir = bytes_opt(*directory);
    let mut done: Vec<TabSpec> = Vec::new();
    while tabs.len() > 0
        invariant
            dir == bytes_opt(*directory),
            done@.len() + tabs@.len() == before.len(),
            tabs_view(tabs@) == before.skip(done@.len() as int),
            tabs_view(done@) == before.take(done@.len() as int).map_values(
                |t: TabModel| tab_with_default(t, dir),
            ),
        decreases tabs@.len(),
    {
        let ghost k = done@.len() as int;
        let ghost old_tabs = tabs@;
        let mut tab = tabs.remove(0);
        assert(tabs_view(old_tabs)[0] == before.skip(k)[0]);
        assert(tab@ == before[k]);
        assert(tabs@ =~= old_tabs.skip(1));
        assert(tabs_view(tabs@) =~= tabs_view(old_tabs).skip(1));
        if tab.directory.is_none() {
            tab.directory = copy_option(directory);
        }
        let ghost prev = tabs_view(done@);
        done.push(tab);
        assert(tabs_view(done@) =~= prev.push(tab_with_default(before[k], dir)));
        assert(before.take(k + 1) =~= before.take(k).push(before[k]));
        assert(tabs_view(tabs@) =~= before.skip(k + 1));
    }
    window.tabs = done;
    assert(before.take(before.len() as int) =~= before);
    assert(window@ =~= with_defaults(given, bytes_opt(*display), dir));
    window
}

/// The windows of a finished request, with the defaults filled in.
fn finish(st: Parser) -> (windows: Vec<WindowSpec>)
    ensures
        windows_view(windows@) == finished(st@),
{
    let ghost model = st@;
    let display = st.default_display;
    let directory = st.default_directory;
    let mut windows = st.windows;
    let ghost before = windows_view(windows@);
    let mut done: Vec<WindowSpec> = Vec::new();
    while windows.len() > 0
        invariant
            bytes_opt(display) == model.default_display,
            bytes_opt(directory) == model.default_directory,
            done@.len() + windows@.len() == before.len(),
            windows_view(windows@) == before.skip(done@.len() as int),
            windows_view(done@) == before.take(done@.len() as int).map_values(
                |w: WindowModel| with_defaults(w, model.default_display, model.default_directory),
            ),
        decreases windows@.len(),
    {
        let ghost k = done@.len() as int;
        let ghost old_windows = windows@;
        let window = windows.remove(0);
        assert(windows_view(old_windows)[0] == before.skip(k)[0]);
        assert(window@ == before[k]);
        assert(windows@ =~= old_windows.skip(1));
        assert(windows_view(windows@) =~= windows_view(old_windows).skip(1));
        let filled = fill_defaults(window, &display, &directory);
        let ghost prev = windows_view(done@);
        done.push(filled);
        assert(windows_view(done@) =~= prev.push(
            with_defaults(before[k], model.default_display, model.default_directory),
        ));
        assert(before.take(k + 1) =~= before.take(k).push(before[k]));
        assert(windows_view(windows@) =~= before.skip(k + 1));
    }
    assert(before.take(before.len() as int) =~= before);
    assert(windows_view(done@) =~= finished(model));
    done
}

/// Parses a launch request with the answers read so far.
///
/// The arguments are the process arguments after the program name, in their
/// own bytes. When the request needs an answer that `answers` does not yet
/// hold, the result asks for it; the caller answers and calls again with the
/// longer list. `can_reuse_window` says whether a running terminal offers its
/// last window to the first `--tab`.
pub fn parse_launch(args: &Vec<Vec<u8>>, can_reuse_window: bool, answers: &Vec<OutsideAnswer>) -> (r: LaunchStep)
    ensures
        r@ == launch(args_view(args@), can_reuse_window, answers_view(answers@)),
{
    let ghost av = args_view(args@);
    let ghost anv = answers_view(answers@);
    let mut windows: Vec<WindowSpec> = Vec::new();
    windows.push(WindowSpec::default());
    let mut st = Parser {
        windows,
        default_display: None,
        default_directory: None,
        can_reuse_window,
        ignore_window_option: true,
        index: 0,
        used: 0,
    };
    assert(st@ =~= initial_parser(can_reuse_window));
    while st.index < args.len()
        invariant
            av == args_view(args@),
            anv == answers_view(answers@),
            well_formed_windows(st@.windows),
            st.index <= args@.len(),
            run(av, anv, st@) == launch(av, can_reuse_window, anv),
        decreases args@.len() - st.index,
    {
        let signal = step_exec(args, answers, &mut st);
        match signal {
            Signal::Next => {},
            Signal::Stop => {
                return LaunchStep::Finished(Ok(finish(st)));
            },
            Signal::Fail(error) => {
                return LaunchStep::Finished(Err(error));
            },
            Signal::Ask(query) => {
                return LaunchStep::Ask(query);
            },
        }
    }
    LaunchStep::Finished(Ok(finish(st)))
}

} // verus!
