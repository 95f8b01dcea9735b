//! What the command line promises of every request, proved from its rules.

use vstd::prelude::*;
use vstd::string::StringSliceAdditionalSpecFns;

use super::immediate::immediate_from;
use super::rules::{
    apply_flag, apply_value, edit_current_tab, edit_current_window, finished, initial_parser,
    launch, long_option, run, short_group_is_execute, short_step, short_value_option, split_long,
    starts_with, step, tab_with_default, take_value, well_formed_windows, with_defaults, with_tab,
    AnswerModel, FlagOption, LaunchModel, LongOption, ParserModel, StepModel, TabEdit,
    ValueOption, WindowEdit,
};
use super::types::{default_window, ImmediateAction, TabModel, WindowModel};

verus! {

/// With no arguments a request describes one window with one tab, all at
/// their defaults, whether or not a window could be reused and whatever the
/// answers.
pub proof fn lemma_no_arguments_one_default_window(can_reuse_window: bool, answers: Seq<AnswerModel>)
    ensures
        launch(Seq::empty(), can_reuse_window, answers)
            == LaunchModel::Finished(Ok(seq![default_window()])),
{
    let w = default_window();
    assert(w.tabs.map_values(|t| tab_with_default(t, None)) =~= w.tabs);
    assert(with_defaults(w, None, None) =~= w);
    assert(seq![w].map_values(|v: WindowModel| with_defaults(v, None, None)) =~= seq![w]);
}

/// The defaults are applied after all windows and tabs are read, and only
/// where a window or tab set no value of its own: a window keeps its display
/// and gains the default display when it has none, a tab keeps its working
/// directory and gains the default one when it has none, and nothing else
/// changes.
pub proof fn lemma_defaults_fill_only_missing(st: ParserModel)
    ensures
        finished(st).len() == st.windows.len(),
        forall|i: int| 0 <= i < st.windows.len() ==> {
            let own = #[trigger] st.windows[i];
            let done = finished(st)[i];
            &&& done.display == (if own.display is Some { own.display } else { st.default_display })
            &&& WindowModel { display: own.display, tabs: own.tabs, ..done } == own
            &&& done.tabs.len() == own.tabs.len()
            &&& forall|j: int| 0 <= j < own.tabs.len() ==> {
                let tab = #[trigger] own.tabs[j];
                &&& done.tabs[j].directory == (if tab.directory is Some { tab.directory } else { st.default_directory })
                &&& super::types::TabModel { directory: tab.directory, ..done.tabs[j] } == tab
            }
        },
{
}

/// `-x` hands every later argument to the current tab unparsed and ends the
/// request there.
pub proof fn lemma_execute_takes_the_rest(args: Seq<Seq<u8>>, answers: Seq<AnswerModel>, st: ParserModel)
    requires
        0 <= st.index,
        st.index + 1 < args.len(),
        args[st.index] == seq![45u8, 120u8],
    ensures
        step(args, answers, st) == StepModel::Stop(with_tab(st, TabEdit::Command(args.skip(st.index + 1)))),
        run(args, answers, st) == LaunchModel::Finished(Ok(finished(
            with_tab(st, TabEdit::Command(args.skip(st.index + 1))),
        ))),
{
    reveal(step);
    reveal_strlit("--");
    broadcast use vstd::string::is_ascii_spec_bytes;
    assert(vstd::string::is_ascii("--"));
    assert("--".spec_bytes().len() == 2);
    assert("--".spec_bytes()[1] == 45u8);
    assert(args[st.index] != "--".spec_bytes());
    let argument = args[st.index];
    assert(short_group_is_execute(argument));
}

/// Nothing after the option delimiter `--` is read for an immediate action.
pub proof fn lemma_immediate_stops_at_delimiter(args: Seq<Seq<u8>>, k: int)
    requires
        0 <= k < args.len(),
        args[k] == "--".spec_bytes(),
    ensures
        immediate_from(args, 0, false) == immediate_from(args.take(k + 1), 0, false),
{
    lemma_immediate_prefix(args, k, 0, false);
}

proof fn lemma_immediate_prefix(args: Seq<Seq<u8>>, k: int, i: int, disable: bool)
    requires
        0 <= i <= k < args.len(),
        args[k] == "--".spec_bytes(),
    ensures
        immediate_from(args, i, disable) == immediate_from(args.take(k + 1), i, disable),
    decreases k - i,
{
    let prefix = args.take(k + 1);
    assert(prefix[i] == args[i]);
    if i < k {
        lemma_immediate_prefix(args, k, i + 1, disable || args[i] == "--disable-server".spec_bytes());
    }
}


/// `--execute` hands every later argument to the current tab unparsed and
/// ends the request there, as `-x` does.
pub proof fn lemma_long_execute_takes_the_rest(args: Seq<Seq<u8>>, answers: Seq<AnswerModel>, st: ParserModel)
    requires
        0 <= st.index,
        st.index + 1 < args.len(),
        args[st.index] == "--execute".spec_bytes(),
    ensures
        step(args, answers, st) == StepModel::Stop(with_tab(st, TabEdit::Command(args.skip(st.index + 1)))),
{
    reveal(step);
    reveal(apply_flag);
    let argument = args[st.index];
    let long = argument.skip(2);
    lemma_execute_literals(argument);
    lemma_execute_is_a_flag();
    assert(!(exists|i: int| 0 <= i < long.len() && long[i] == 61u8));
    assert(split_long(long) == (long, None::<Seq<u8>>));
}

proof fn lemma_execute_literals(argument: Seq<u8>)
    requires
        argument == "--execute".spec_bytes(),
    ensures
        argument.skip(2) == "execute".spec_bytes(),
        argument != "--".spec_bytes(),
        argument.len() >= 2 && argument[0] == 45u8 && argument[1] == 45u8,
        !starts_with(argument.skip(2), "show-".spec_bytes()),
        !starts_with(argument.skip(2), "hide-".spec_bytes()),
        forall|i: int| 0 <= i < argument.skip(2).len() ==> argument.skip(2)[i] != 61u8,
{
    reveal_strlit("--");
    reveal_strlit("--execute");
    reveal_strlit("execute");
    reveal_strlit("show-");
    reveal_strlit("hide-");
    broadcast use vstd::string::is_ascii_spec_bytes;
    assert(vstd::string::is_ascii("--"));
    assert(vstd::string::is_ascii("--execute"));
    assert(vstd::string::is_ascii("execute"));
    assert(vstd::string::is_ascii("show-"));
    assert(vstd::string::is_ascii("hide-"));
    assert(argument.skip(2) =~= "execute".spec_bytes());
    assert(argument.skip(2).take(5)[0] != "show-".spec_bytes()[0]);
    assert(argument.skip(2).take(5)[0] != "hide-".spec_bytes()[0]);
}

proof fn lemma_execute_is_a_flag()
    ensures
        long_option("execute".spec_bytes()) == LongOption::Flag(FlagOption::Execute),
{
    reveal(long_option);
    reveal_strlit("execute");
    reveal_strlit("default-display");
    reveal_strlit("default-working-directory");
    broadcast use vstd::string::is_ascii_spec_bytes;
    assert(vstd::string::is_ascii("execute"));
    assert(vstd::string::is_ascii("default-display"));
    assert(vstd::string::is_ascii("default-working-directory"));
    assert("execute".spec_bytes() != "default-display".spec_bytes());
    assert("execute".spec_bytes() != "default-working-directory".spec_bytes());
}


/// Whether every window's zoom lies within -7 .. 7.
pub open spec fn zooms_in_range(ws: Seq<WindowModel>) -> bool {
    forall|i: int| 0 <= i < ws.len() ==> -7 <= #[trigger] ws[i].zoom <= 7
}

/// Windows as a request may leave them: at least one, each with at least one
/// tab and a zoom within -7 .. 7.
pub open spec fn sound_windows(ws: Seq<WindowModel>) -> bool {
    well_formed_windows(ws) && zooms_in_range(ws)
}

/// Whether a step leaves the parser holding sound windows.
pub open spec fn keeps_shape(s: StepModel) -> bool {
    match s {
        StepModel::Next(n) => sound_windows(n.windows),
        StepModel::Stop(n) => sound_windows(n.windows),
        _ => true,
    }
}

/// Whether a window edit sets a zoom within -7 .. 7, if it sets one.
pub open spec fn zoom_edit_in_range(e: WindowEdit) -> bool {
    match e {
        WindowEdit::Zoom(n) => -7 <= n <= 7,
        _ => true,
    }
}

proof fn lemma_edits_keep_shape(ws: Seq<WindowModel>)
    requires
        sound_windows(ws),
    ensures
        forall|e: TabEdit| sound_windows(#[trigger] edit_current_tab(ws, e)),
        forall|e: WindowEdit| zoom_edit_in_range(e) ==> sound_windows(#[trigger] edit_current_window(ws, e)),
        sound_windows(ws.push(default_window())),
{
    assert forall|e: TabEdit| sound_windows(#[trigger] edit_current_tab(ws, e)) by {
        let out = edit_current_tab(ws, e);
        assert forall|i: int| 0 <= i < out.len() implies #[trigger] out[i].tabs.len() > 0 by {
            if i != ws.len() - 1 {
                assert(out[i] == ws[i]);
            }
        }
        assert forall|i: int| 0 <= i < out.len() implies -7 <= #[trigger] out[i].zoom <= 7 by {
            assert(-7 <= ws[i].zoom <= 7);
        }
    }
    assert forall|e: WindowEdit| zoom_edit_in_range(e) implies sound_windows(#[trigger] edit_current_window(ws, e)) by {
        let out = edit_current_window(ws, e);
        assert forall|i: int| 0 <= i < out.len() implies #[trigger] out[i].tabs.len() > 0 by {
            if i != ws.len() - 1 {
                assert(out[i] == ws[i]);
            } else {
                assert(ws[i].tabs.len() > 0);
            }
        }
        assert forall|i: int| 0 <= i < out.len() implies -7 <= #[trigger] out[i].zoom <= 7 by {
            assert(-7 <= ws[i].zoom <= 7);
        }
    }
    let more = ws.push(default_window());
    assert forall|i: int| 0 <= i < more.len() implies #[trigger] more[i].tabs.len() > 0 by {
        if i < ws.len() {
            assert(more[i] == ws[i]);
        }
    }
    assert forall|i: int| 0 <= i < more.len() implies -7 <= #[trigger] more[i].zoom <= 7 by {
        if i < ws.len() {
            assert(more[i] == ws[i]);
        }
    }
}

proof fn lemma_apply_value_keeps_shape(answers: Seq<AnswerModel>, st: ParserModel, option: ValueOption, value: Seq<u8>)
    requires
        sound_windows(st.windows),
    ensures
        keeps_shape(apply_value(answers, st, option, value)),
{
    reveal(apply_value);
    lemma_edits_keep_shape(st.windows);
}

proof fn lemma_apply_flag_keeps_shape(args: Seq<Seq<u8>>, st: ParserModel, flag: FlagOption)
    requires
        sound_windows(st.windows),
    ensures
        keeps_shape(apply_flag(args, st, flag)),
{
    reveal(apply_flag);
    lemma_edits_keep_shape(st.windows);
}

proof fn lemma_short_step_keeps_shape(
    args: Seq<Seq<u8>>,
    answers: Seq<AnswerModel>,
    st: ParserModel,
    argument: Seq<u8>,
    position: int,
)
    requires
        sound_windows(st.windows),
    ensures
        keeps_shape(short_step(args, answers, st, argument, position)),
    decreases argument.len() - position,
{
    lemma_edits_keep_shape(st.windows);
    if 1 <= position < argument.len() {
        let c = argument[position];
        if c == 72u8 {
            lemma_short_step_keeps_shape(args, answers, with_tab(st, TabEdit::Hold), argument, position + 1);
        } else if short_value_option(c) is Some {
            let option = short_value_option(c)->0;
            lemma_apply_value_keeps_shape(answers, st, option, argument.skip(position + 1));
            lemma_apply_value_keeps_shape(
                answers,
                ParserModel { index: st.index + 1, ..st },
                option,
                args[st.index + 1],
            );
        }
    }
}

proof fn lemma_step_keeps_shape(args: Seq<Seq<u8>>, answers: Seq<AnswerModel>, st: ParserModel)
    requires
        sound_windows(st.windows),
    ensures
        keeps_shape(step(args, answers, st)),
{
    reveal(step);
    let argument = args[st.index];
    lemma_edits_keep_shape(st.windows);
    lemma_short_step_keeps_shape(args, answers, st, argument, 1);
    let long = argument.skip(2);
    let (name, inline) = split_long(long);
    match long_option(name) {
        LongOption::Value(option) => match take_value(args, st.index, inline) {
            Some((value, at)) => lemma_apply_value_keeps_shape(answers, ParserModel { index: at, ..st }, option, value),
            None => {},
        },
        LongOption::Flag(flag) => lemma_apply_flag_keeps_shape(args, st, flag),
        LongOption::Unknown => {},
    }
}

proof fn lemma_run_keeps_shape(args: Seq<Seq<u8>>, answers: Seq<AnswerModel>, st: ParserModel)
    requires
        sound_windows(st.windows),
    ensures
        run(args, answers, st) matches LaunchModel::Finished(Ok(ws)) ==> sound_windows(ws),
    decreases args.len() - st.index,
{
    lemma_finished_keeps_shape(st);
    if 0 <= st.index < args.len() {
        lemma_step_keeps_shape(args, answers, st);
        match step(args, answers, st) {
            StepModel::Next(next) => {
                lemma_finished_keeps_shape(next);
                if st.index < next.index <= args.len() {
                    lemma_run_keeps_shape(args, answers, next);
                }
            },
            StepModel::Stop(stopped) => lemma_finished_keeps_shape(stopped),
            _ => {},
        }
    }
}

proof fn lemma_finished_keeps_shape(st: ParserModel)
    ensures
        sound_windows(st.windows) ==> well_formed_windows(finished(st)),
{
    if sound_windows(st.windows) {
        let out = finished(st);
        assert forall|i: int| 0 <= i < out.len() implies #[trigger] out[i].tabs.len() > 0 by {
            assert(st.windows[i].tabs.len() > 0);
        }
    }
}

/// A request that is read to its end describes at least one window, and every
/// window at least one tab.
pub proof fn lemma_every_window_has_a_tab(args: Seq<Seq<u8>>, can_reuse_window: bool, answers: Seq<AnswerModel>)
    ensures
        launch(args, can_reuse_window, answers) matches LaunchModel::Finished(Ok(ws)) ==> well_formed_windows(ws),
{
    lemma_request_windows_sound(args, can_reuse_window, answers);
}

proof fn lemma_request_windows_sound(args: Seq<Seq<u8>>, can_reuse_window: bool, answers: Seq<AnswerModel>)
    ensures
        launch(args, can_reuse_window, answers) matches LaunchModel::Finished(Ok(ws)) ==> sound_windows(ws),
{
    let st = initial_parser(can_reuse_window);
    assert(st.windows[0].tabs.len() > 0);
    assert(st.windows[0].zoom == 0);
    lemma_run_keeps_shape(args, answers, st);
}

/// The zoom of every window of a request that is read to its end lies within
/// -7 .. 7: a zoom outside that range is refused, and a window without one
/// keeps the default zoom.
pub proof fn lemma_zoom_in_range(args: Seq<Seq<u8>>, can_reuse_window: bool, answers: Seq<AnswerModel>)
    ensures
        launch(args, can_reuse_window, answers) matches LaunchModel::Finished(Ok(ws)) ==> zooms_in_range(ws),
{
    lemma_request_windows_sound(args, can_reuse_window, answers);
}

proof fn lemma_delimiter_bytes()
    ensures
        "--".spec_bytes() == seq![45u8, 45u8],
{
    reveal_strlit("--");
    broadcast use vstd::string::is_ascii_spec_bytes;
    assert(vstd::string::is_ascii("--"));
    assert("--".spec_bytes() =~= seq![45u8, 45u8]);
}

/// Whether `more` begins with `answers`.
pub open spec fn extends(more: Seq<AnswerModel>, answers: Seq<AnswerModel>) -> bool {
    answers.len() <= more.len() && more.take(answers.len() as int) == answers
}

proof fn lemma_answers_agree(answers: Seq<AnswerModel>, more: Seq<AnswerModel>, used: int)
    requires
        extends(more, answers),
        0 <= used < answers.len(),
    ensures
        more[used] == answers[used],
{
    assert(more.take(answers.len() as int)[used] == more[used]);
}

proof fn lemma_apply_value_stable(
    answers: Seq<AnswerModel>,
    more: Seq<AnswerModel>,
    st: ParserModel,
    option: ValueOption,
    value: Seq<u8>,
)
    requires
        extends(more, answers),
        !(apply_value(answers, st, option, value) is Ask),
    ensures
        apply_value(more, st, option, value) == apply_value(answers, st, option, value),
{
    reveal(apply_value);
    if 0 <= st.used < answers.len() {
        lemma_answers_agree(answers, more, st.used);
    }
}

proof fn lemma_short_step_stable(
    args: Seq<Seq<u8>>,
    answers: Seq<AnswerModel>,
    more: Seq<AnswerModel>,
    st: ParserModel,
    argument: Seq<u8>,
    position: int,
)
    requires
        extends(more, answers),
        !(short_step(args, answers, st, argument, position) is Ask),
    ensures
        short_step(args, more, st, argument, position) == short_step(args, answers, st, argument, position),
    decreases argument.len() - position,
{
    if 1 <= position < argument.len() {
        let c = argument[position];
        if c == 72u8 {
            lemma_short_step_stable(args, answers, more, with_tab(st, TabEdit::Hold), argument, position + 1);
        } else if c != 120u8 && short_value_option(c) is Some {
            let option = short_value_option(c)->0;
            if position + 1 < argument.len() {
                lemma_apply_value_stable(answers, more, st, option, argument.skip(position + 1));
            } else if st.index + 1 < args.len() {
                lemma_apply_value_stable(
                    answers,
                    more,
                    ParserModel { index: st.index + 1, ..st },
                    option,
                    args[st.index + 1],
                );
            }
        }
    }
}

proof fn lemma_step_stable(args: Seq<Seq<u8>>, answers: Seq<AnswerModel>, more: Seq<AnswerModel>, st: ParserModel)
    requires
        extends(more, answers),
        !(step(args, answers, st) is Ask),
    ensures
        step(args, more, st) == step(args, answers, st),
{
    reveal(step);
    let argument = args[st.index];
    lemma_delimiter_bytes();
    if argument.len() >= 2 && argument[0] == 45u8 && argument[1] != 45u8 {
        assert(argument != "--".spec_bytes());
        lemma_short_step_stable(args, answers, more, st, argument, 1);
    }
    let (name, inline) = split_long(argument.skip(2));
    match long_option(name) {
        LongOption::Value(option) => match take_value(args, st.index, inline) {
            Some((value, at)) => {
                let moved = ParserModel { index: at, ..st };
                if !(apply_value(answers, moved, option, value) is Ask) {
                    lemma_apply_value_stable(answers, more, moved, option, value);
                }
            },
            None => {},
        },
        _ => {},
    }
}

proof fn lemma_run_stable(args: Seq<Seq<u8>>, answers: Seq<AnswerModel>, more: Seq<AnswerModel>, st: ParserModel)
    requires
        extends(more, answers),
        run(args, answers, st) is Finished,
    ensures
        run(args, more, st) == run(args, answers, st),
    decreases args.len() - st.index,
{
    if 0 <= st.index < args.len() {
        lemma_step_stable(args, answers, more, st);
        match step(args, answers, st) {
            StepModel::Next(next) => {
                if st.index < next.index <= args.len() {
                    lemma_run_stable(args, answers, more, next);
                }
            },
            _ => {},
        }
    }
}

/// Answers are read in order and only as far as a request needs them: once a
/// request is read to its end, answering more questions than it asked changes
/// nothing.
pub proof fn lemma_more_answers_change_nothing(
    args: Seq<Seq<u8>>,
    can_reuse_window: bool,
    answers: Seq<AnswerModel>,
    more: Seq<AnswerModel>,
)
    requires
        extends(more, answers),
        launch(args, can_reuse_window, answers) is Finished,
    ensures
        launch(args, can_reuse_window, more) == launch(args, can_reuse_window, answers),
{
    lemma_run_stable(args, answers, more, initial_parser(can_reuse_window));
}

/// Whether an argument is neither an immediate option nor one that ends the
/// scan for them: not `--`, `--execute`, `--help`, `--version` or
/// `--color-table`, and no short group beginning with `x`, `h` or `V`.
pub open spec fn passes_immediate_scan(a: Seq<u8>) -> bool {
    &&& a != "--".spec_bytes()
    &&& a != "--execute".spec_bytes()
    &&& a != "--help".spec_bytes()
    &&& a != "--version".spec_bytes()
    &&& a != "--color-table".spec_bytes()
    &&& !(a.len() >= 2 && a[0] == 45u8 && (a[1] == 120u8 || a[1] == 104u8 || a[1] == 86u8))
}

proof fn lemma_scan_reaches(args: Seq<Seq<u8>>, i: int, k: int, disable: bool)
    requires
        0 <= i <= k < args.len(),
        forall|j: int| i <= j < k ==> passes_immediate_scan(#[trigger] args[j]),
        !passes_immediate_scan(args[k]),
    ensures
        immediate_from(args, i, disable).action == immediate_from(args, k, false).action,
    decreases k - i,
{
    if i < k {
        assert(passes_immediate_scan(args[i]));
        lemma_scan_reaches(args, i + 1, k, disable || args[i] == "--disable-server".spec_bytes());
    }
}

proof fn lemma_immediate_literals()
    ensures
        "--color-table".spec_bytes() != "--".spec_bytes(),
        "--color-table".spec_bytes() != "--execute".spec_bytes(),
        "--color-table".spec_bytes() != "--help".spec_bytes(),
        "--color-table".spec_bytes() != "--version".spec_bytes(),
        "--color-table".spec_bytes()[1] == 45u8,
        "--help".spec_bytes() != "--".spec_bytes(),
        "--help".spec_bytes() != "--execute".spec_bytes(),
        "--help".spec_bytes()[1] == 45u8,
        "--version".spec_bytes() != "--".spec_bytes(),
        "--version".spec_bytes() != "--execute".spec_bytes(),
        "--version".spec_bytes() != "--help".spec_bytes(),
        "--version".spec_bytes()[1] == 45u8,
        "--".spec_bytes() == seq![45u8, 45u8],
        "--execute".spec_bytes().len() > 2,
        "--execute".spec_bytes()[1] == 45u8,
{
    reveal_strlit("--");
    reveal_strlit("--execute");
    reveal_strlit("--help");
    reveal_strlit("--version");
    reveal_strlit("--color-table");
    broadcast use vstd::string::is_ascii_spec_bytes;
    assert(vstd::string::is_ascii("--"));
    assert(vstd::string::is_ascii("--execute"));
    assert(vstd::string::is_ascii("--help"));
    assert(vstd::string::is_ascii("--version"));
    assert(vstd::string::is_ascii("--color-table"));
    assert("--".spec_bytes() =~= seq![45u8, 45u8]);
    assert("--color-table".spec_bytes()[2] != "--execute".spec_bytes()[2]);
    assert("--color-table".spec_bytes()[2] != "--help".spec_bytes()[2]);
    assert("--color-table".spec_bytes()[2] != "--version".spec_bytes()[2]);
    assert("--help".spec_bytes()[2] != "--execute".spec_bytes()[2]);
    assert("--version".spec_bytes()[2] != "--execute".spec_bytes()[2]);
    assert("--version".spec_bytes()[2] != "--help".spec_bytes()[2]);
}

/// The immediate action is decided by the first argument the scan cannot pass:
/// `--color-table` asks for the color table, `--help` or a short group
/// beginning with `h` for the help, `--version` or a short group beginning
/// with `V` for the version, and `--`, `--execute` or a short group beginning
/// with `x` end the scan with no action. In particular a request whose first
/// argument is `--color-table` asks for the color table.
pub proof fn lemma_first_immediate_option_decides(args: Seq<Seq<u8>>, k: int)
    requires
        0 <= k < args.len(),
        forall|j: int| 0 <= j < k ==> passes_immediate_scan(#[trigger] args[j]),
    ensures
        args[k] == "--color-table".spec_bytes() ==> immediate_from(args, 0, false).action == Some(ImmediateAction::ColorTable),
        args[k] == "--help".spec_bytes() ==> immediate_from(args, 0, false).action == Some(ImmediateAction::Help),
        args[k] == "--version".spec_bytes() ==> immediate_from(args, 0, false).action == Some(ImmediateAction::Version),
        (args[k].len() >= 2 && args[k][0] == 45u8 && args[k][1] == 104u8)
            ==> immediate_from(args, 0, false).action == Some(ImmediateAction::Help),
        (args[k].len() >= 2 && args[k][0] == 45u8 && args[k][1] == 86u8)
            ==> immediate_from(args, 0, false).action == Some(ImmediateAction::Version),
        (args[k] == "--".spec_bytes() || args[k] == "--execute".spec_bytes()
            || (args[k].len() >= 2 && args[k][0] == 45u8 && args[k][1] == 120u8))
            ==> immediate_from(args, 0, false).action is None,
{
    lemma_immediate_literals();
    if !passes_immediate_scan(args[k]) {
        lemma_scan_reaches(args, 0, k, false);
    }
}

proof fn lemma_long_flag_step(
    args: Seq<Seq<u8>>,
    answers: Seq<AnswerModel>,
    st: ParserModel,
    name: Seq<u8>,
    flag: FlagOption,
)
    requires
        0 <= st.index < args.len(),
        args[st.index] != "--".spec_bytes(),
        args[st.index].len() >= 2,
        args[st.index][0] == 45u8,
        args[st.index][1] == 45u8,
        args[st.index].skip(2) == name,
        forall|i: int| 0 <= i < name.len() ==> name[i] != 61u8,
        !starts_with(name, "show-".spec_bytes()),
        !starts_with(name, "hide-".spec_bytes()),
        long_option(name) == LongOption::Flag(flag),
    ensures
        step(args, answers, st) == apply_flag(args, st, flag),
{
    reveal(step);
    assert(!(exists|i: int| 0 <= i < name.len() && name[i] == 61u8));
    assert(split_long(name) == (name, None::<Seq<u8>>));
}

#[verifier::spinoff_prover]
#[verifier::rlimit(50)]
proof fn lemma_drop_down_literals(argument: Seq<u8>)
    requires
        argument == "--drop-down".spec_bytes(),
    ensures
        argument != "--".spec_bytes(),
        argument.len() >= 2 && argument[0] == 45u8 && argument[1] == 45u8,
        argument.skip(2) == "drop-down".spec_bytes(),
        forall|i: int| 0 <= i < argument.skip(2).len() ==> argument.skip(2)[i] != 61u8,
        !starts_with(argument.skip(2), "show-".spec_bytes()),
        !starts_with(argument.skip(2), "hide-".spec_bytes()),
        long_option(argument.skip(2)) == LongOption::Flag(FlagOption::DropDown),
{
    reveal(long_option);
    reveal_strlit("--");
    reveal_strlit("--drop-down");
    reveal_strlit("active-tab");
    reveal_strlit("color-bg");
    reveal_strlit("color-text");
    reveal_strlit("command");
    reveal_strlit("default-display");
    reveal_strlit("default-working-directory");
    reveal_strlit("display");
    reveal_strlit("drop-down");
    reveal_strlit("dynamic-title-mode");
    reveal_strlit("execute");
    reveal_strlit("font");
    reveal_strlit("geometry");
    reveal_strlit("hide-");
    reveal_strlit("hold");
    reveal_strlit("icon");
    reveal_strlit("initial-title");
    reveal_strlit("role");
    reveal_strlit("show-");
    reveal_strlit("sm-client-id");
    reveal_strlit("startup-id");
    reveal_strlit("title");
    reveal_strlit("working-directory");
    reveal_strlit("workspace");
    broadcast use vstd::string::is_ascii_spec_bytes;
    assert(vstd::string::is_ascii("--"));
    assert(vstd::string::is_ascii("--drop-down"));
    assert(vstd::string::is_ascii("active-tab"));
    assert(vstd::string::is_ascii("color-bg"));
    assert(vstd::string::is_ascii("color-text"));
    assert(vstd::string::is_ascii("command"));
    assert(vstd::string::is_ascii("default-display"));
    assert(vstd::string::is_ascii("default-working-directory"));
    assert(vstd::string::is_ascii("display"));
    assert(vstd::string::is_ascii("drop-down"));
    assert(vstd::string::is_ascii("dynamic-title-mode"));
    assert(vstd::string::is_ascii("execute"));
    assert(vstd::string::is_ascii("font"));
    assert(vstd::string::is_ascii("geometry"));
    assert(vstd::string::is_ascii("hide-"));
    assert(vstd::string::is_ascii("hold"));
    assert(vstd::string::is_ascii("icon"));
    assert(vstd::string::is_ascii("initial-title"));
    assert(vstd::string::is_ascii("role"));
    assert(vstd::string::is_ascii("show-"));
    assert(vstd::string::is_ascii("sm-client-id"));
    assert(vstd::string::is_ascii("startup-id"));
    assert(vstd::string::is_ascii("title"));
    assert(vstd::string::is_ascii("working-directory"));
    assert(vstd::string::is_ascii("workspace"));
    assert(argument.skip(2) =~= "drop-down".spec_bytes());
    assert(argument.skip(2).take(5)[0] != "show-".spec_bytes()[0]);
    assert(argument.skip(2).take(5)[0] != "hide-".spec_bytes()[0]);
    assert("drop-down".spec_bytes() != "default-display".spec_bytes());
    assert("drop-down".spec_bytes() != "default-working-directory".spec_bytes());
    assert("drop-down".spec_bytes() != "execute".spec_bytes());
    assert("drop-down".spec_bytes() != "command".spec_bytes());
    assert("drop-down".spec_bytes() != "working-directory".spec_bytes());
    assert("drop-down".spec_bytes() != "title".spec_bytes());
    assert("drop-down".spec_bytes() != "dynamic-title-mode".spec_bytes());
    assert("drop-down".spec_bytes() != "initial-title".spec_bytes());
    assert("drop-down".spec_bytes() != "hold".spec_bytes());
    assert("drop-down".spec_bytes() != "active-tab".spec_bytes());
    assert("drop-down".spec_bytes() != "color-text".spec_bytes());
    assert("drop-down".spec_bytes() != "color-bg".spec_bytes());
    assert("drop-down".spec_bytes() != "display".spec_bytes());
    assert("drop-down".spec_bytes() != "geometry".spec_bytes());
    assert("drop-down".spec_bytes() != "role".spec_bytes());
    assert("drop-down".spec_bytes() != "sm-client-id".spec_bytes());
    assert("drop-down".spec_bytes() != "startup-id".spec_bytes());
    assert("drop-down".spec_bytes() != "font".spec_bytes());
    assert("drop-down".spec_bytes()[0] != "workspace".spec_bytes()[0]);
    assert("drop-down".spec_bytes() != "workspace".spec_bytes());
    assert("drop-down".spec_bytes() != "icon".spec_bytes());
}

#[verifier::spinoff_prover]
#[verifier::rlimit(50)]
proof fn lemma_fullscreen_literals(argument: Seq<u8>)
    requires
        argument == "--fullscreen".spec_bytes(),
    ensures
        argument != "--".spec_bytes(),
        argument.len() >= 2 && argument[0] == 45u8 && argument[1] == 45u8,
        argument.skip(2) == "fullscreen".spec_bytes(),
        forall|i: int| 0 <= i < argument.skip(2).len() ==> argument.skip(2)[i] != 61u8,
        !starts_with(argument.skip(2), "show-".spec_bytes()),
        !starts_with(argument.skip(2), "hide-".spec_bytes()),
        long_option(argument.skip(2)) == LongOption::Flag(FlagOption::Fullscreen),
{
    reveal(long_option);
    reveal_strlit("--");
    reveal_strlit("--fullscreen");
    reveal_strlit("active-tab");
    reveal_strlit("color-bg");
    reveal_strlit("color-text");
    reveal_strlit("command");
    reveal_strlit("default-display");
    reveal_strlit("default-working-directory");
    reveal_strlit("display");
    reveal_strlit("drop-down");
    reveal_strlit("dynamic-title-mode");
    reveal_strlit("execute");
    reveal_strlit("font");
    reveal_strlit("fullscreen");
    reveal_strlit("geometry");
    reveal_strlit("hide-");
    reveal_strlit("hold");
    reveal_strlit("icon");
    reveal_strlit("initial-title");
    reveal_strlit("role");
    reveal_strlit("show-");
    reveal_strlit("sm-client-id");
    reveal_strlit("startup-id");
    reveal_strlit("title");
    reveal_strlit("working-directory");
    reveal_strlit("workspace");
    broadcast use vstd::string::is_ascii_spec_bytes;
    assert(vstd::string::is_ascii("--"));
    assert(vstd::string::is_ascii("--fullscreen"));
    assert(vstd::string::is_ascii("active-tab"));
    assert(vstd::string::is_ascii("color-bg"));
    assert(vstd::string::is_ascii("color-text"));
    assert(vstd::string::is_ascii("command"));
    assert(vstd::string::is_ascii("default-display"));
    assert(vstd::string::is_ascii("default-working-directory"));
    assert(vstd::string::is_ascii("display"));
    assert(vstd::string::is_ascii("drop-down"));
    assert(vstd::string::is_ascii("dynamic-title-mode"));
    assert(vstd::string::is_ascii("execute"));
    assert(vstd::string::is_ascii("font"));
    assert(vstd::string::is_ascii("fullscreen"));
    assert(vstd::string::is_ascii("geometry"));
    assert(vstd::string::is_ascii("hide-"));
    assert(vstd::string::is_ascii("hold"));
    assert(vstd::string::is_ascii("icon"));
    assert(vstd::string::is_ascii("initial-title"));
    assert(vstd::string::is_ascii("role"));
    assert(vstd::string::is_ascii("show-"));
    assert(vstd::string::is_ascii("sm-client-id"));
    assert(vstd::string::is_ascii("startup-id"));
    assert(vstd::string::is_ascii("title"));
    assert(vstd::string::is_ascii("working-directory"));
    assert(vstd::string::is_ascii("workspace"));
    assert(argument.skip(2) =~= "fullscreen".spec_bytes());
    assert(argument.skip(2).take(5)[0] != "show-".spec_bytes()[0]);
    assert(argument.skip(2).take(5)[0] != "hide-".spec_bytes()[0]);
    assert("fullscreen".spec_bytes() != "default-display".spec_bytes());
    assert("fullscreen".spec_bytes() != "default-working-directory".spec_bytes());
    assert("fullscreen".spec_bytes() != "execute".spec_bytes());
    assert("fullscreen".spec_bytes() != "command".spec_bytes());
    assert("fullscreen".spec_bytes() != "working-directory".spec_bytes());
    assert("fullscreen".spec_bytes() != "title".spec_bytes());
    assert("fullscreen".spec_bytes() != "dynamic-title-mode".spec_bytes());
    assert("fullscreen".spec_bytes() != "initial-title".spec_bytes());
    assert("fullscreen".spec_bytes() != "hold".spec_bytes());
    assert("fullscreen".spec_bytes()[0] != "active-tab".spec_bytes()[0]);
    assert("fullscreen".spec_bytes() != "active-tab".spec_bytes());
    assert("fullscreen".spec_bytes()[0] != "color-text".spec_bytes()[0]);
    assert("fullscreen".spec_bytes() != "color-text".spec_bytes());
    assert("fullscreen".spec_bytes() != "color-bg".spec_bytes());
    assert("fullscreen".spec_bytes() != "display".spec_bytes());
    assert("fullscreen".spec_bytes() != "geometry".spec_bytes());
    assert("fullscreen".spec_bytes() != "role".spec_bytes());
    assert("fullscreen".spec_bytes() != "sm-client-id".spec_bytes());
    assert("fullscreen".spec_bytes()[0] != "startup-id".spec_bytes()[0]);
    assert("fullscreen".spec_bytes() != "startup-id".spec_bytes());
    assert("fullscreen".spec_bytes() != "font".spec_bytes());
    assert("fullscreen".spec_bytes() != "workspace".spec_bytes());
    assert("fullscreen".spec_bytes() != "icon".spec_bytes());
    assert("fullscreen".spec_bytes() != "drop-down".spec_bytes());
}

#[verifier::spinoff_prover]
#[verifier::rlimit(50)]
proof fn lemma_maximize_literals(argument: Seq<u8>)
    requires
        argument == "--maximize".spec_bytes(),
    ensures
        argument != "--".spec_bytes(),
        argument.len() >= 2 && argument[0] == 45u8 && argument[1] == 45u8,
        argument.skip(2) == "maximize".spec_bytes(),
        forall|i: int| 0 <= i < argument.skip(2).len() ==> argument.skip(2)[i] != 61u8,
        !starts_with(argument.skip(2), "show-".spec_bytes()),
        !starts_with(argument.skip(2), "hide-".spec_bytes()),
        long_option(argument.skip(2)) == LongOption::Flag(FlagOption::Maximize),
{
    reveal(long_option);
    reveal_strlit("--");
    reveal_strlit("--maximize");
    reveal_strlit("active-tab");
    reveal_strlit("color-bg");
    reveal_strlit("color-text");
    reveal_strlit("command");
    reveal_strlit("default-display");
    reveal_strlit("default-working-directory");
    reveal_strlit("display");
    reveal_strlit("drop-down");
    reveal_strlit("dynamic-title-mode");
    reveal_strlit("execute");
    reveal_strlit("font");
    reveal_strlit("fullscreen");
    reveal_strlit("geometry");
    reveal_strlit("hide-");
    reveal_strlit("hold");
    reveal_strlit("icon");
    reveal_strlit("initial-title");
    reveal_strlit("maximize");
    reveal_strlit("role");
    reveal_strlit("show-");
    reveal_strlit("sm-client-id");
    reveal_strlit("startup-id");
    reveal_strlit("title");
    reveal_strlit("working-directory");
    reveal_strlit("workspace");
    broadcast use vstd::string::is_ascii_spec_bytes;
    assert(vstd::string::is_ascii("--"));
    assert(vstd::string::is_ascii("--maximize"));
    assert(vstd::string::is_ascii("active-tab"));
    assert(vstd::string::is_ascii("color-bg"));
    assert(vstd::string::is_ascii("color-text"));
    assert(vstd::string::is_ascii("command"));
    assert(vstd::string::is_ascii("default-display"));
    assert(vstd::string::is_ascii("default-working-directory"));
    assert(vstd::string::is_ascii("display"));
    assert(vstd::string::is_ascii("drop-down"));
    assert(vstd::string::is_ascii("dynamic-title-mode"));
    assert(vstd::string::is_ascii("execute"));
    assert(vstd::string::is_ascii("font"));
    assert(vstd::string::is_ascii("fullscreen"));
    assert(vstd::string::is_ascii("geometry"));
    assert(vstd::string::is_ascii("hide-"));
    assert(vstd::string::is_ascii("hold"));
    assert(vstd::string::is_ascii("icon"));
    assert(vstd::string::is_ascii("initial-title"));
    assert(vstd::string::is_ascii("maximize"));
    assert(vstd::string::is_ascii("role"));
    assert(vstd::string::is_ascii("show-"));
    assert(vstd::string::is_ascii("sm-client-id"));
    assert(vstd::string::is_ascii("startup-id"));
    assert(vstd::string::is_ascii("title"));
    assert(vstd::string::is_ascii("working-directory"));
    assert(vstd::string::is_ascii("workspace"));
    assert(argument.skip(2) =~= "maximize".spec_bytes());
    assert(argument.skip(2).take(5)[0] != "show-".spec_bytes()[0]);
    assert(argument.skip(2).take(5)[0] != "hide-".spec_bytes()[0]);
    assert("maximize".spec_bytes() != "default-display".spec_bytes());
    assert("maximize".spec_bytes() != "default-working-directory".spec_bytes());
    assert("maximize".spec_bytes() != "execute".spec_bytes());
    assert("maximize".spec_bytes() != "command".spec_bytes());
    assert("maximize".spec_bytes() != "working-directory".spec_bytes());
    assert("maximize".spec_bytes() != "title".spec_bytes());
    assert("maximize".spec_bytes() != "dynamic-title-mode".spec_bytes());
    assert("maximize".spec_bytes() != "initial-title".spec_bytes());
    assert("maximize".spec_bytes() != "hold".spec_bytes());
    assert("maximize".spec_bytes() != "active-tab".spec_bytes());
    assert("maximize".spec_bytes() != "color-text".spec_bytes());
    assert("maximize".spec_bytes()[0] != "color-bg".spec_bytes()[0]);
    assert("maximize".spec_bytes() != "color-bg".spec_bytes());
    assert("maximize".spec_bytes() != "display".spec_bytes());
    assert("maximize".spec_bytes()[0] != "geometry".spec_bytes()[0]);
    assert("maximize".spec_bytes() != "geometry".spec_bytes());
    assert("maximize".spec_bytes() != "role".spec_bytes());
    assert("maximize".spec_bytes() != "sm-client-id".spec_bytes());
    assert("maximize".spec_bytes() != "startup-id".spec_bytes());
    assert("maximize".spec_bytes() != "font".spec_bytes());
    assert("maximize".spec_bytes() != "workspace".spec_bytes());
    assert("maximize".spec_bytes() != "icon".spec_bytes());
    assert("maximize".spec_bytes() != "drop-down".spec_bytes());
    assert("maximize".spec_bytes() != "fullscreen".spec_bytes());
}

#[verifier::spinoff_prover]
#[verifier::rlimit(50)]
proof fn lemma_minimize_literals(argument: Seq<u8>)
    requires
        argument == "--minimize".spec_bytes(),
    ensures
        argument != "--".spec_bytes(),
        argument.len() >= 2 && argument[0] == 45u8 && argument[1] == 45u8,
        argument.skip(2) == "minimize".spec_bytes(),
        forall|i: int| 0 <= i < argument.skip(2).len() ==> argument.skip(2)[i] != 61u8,
        !starts_with(argument.skip(2), "show-".spec_bytes()),
        !starts_with(argument.skip(2), "hide-".spec_bytes()),
        long_option(argument.skip(2)) == LongOption::Flag(FlagOption::Minimize),
{
    reveal(long_option);
    reveal_strlit("--");
    reveal_strlit("--minimize");
    reveal_strlit("active-tab");
    reveal_strlit("color-bg");
    reveal_strlit("color-text");
    reveal_strlit("command");
    reveal_strlit("default-display");
    reveal_strlit("default-working-directory");
    reveal_strlit("display");
    reveal_strlit("drop-down");
    reveal_strlit("dynamic-title-mode");
    reveal_strlit("execute");
    reveal_strlit("font");
    reveal_strlit("fullscreen");
    reveal_strlit("geometry");
    reveal_strlit("hide-");
    reveal_strlit("hold");
    reveal_strlit("icon");
    reveal_strlit("initial-title");
    reveal_strlit("maximize");
    reveal_strlit("minimize");
    reveal_strlit("role");
    reveal_strlit("show-");
    reveal_strlit("sm-client-id");
    reveal_strlit("startup-id");
    reveal_strlit("title");
    reveal_strlit("working-directory");
    reveal_strlit("workspace");
    broadcast use vstd::string::is_ascii_spec_bytes;
    assert(vstd::string::is_ascii("--"));
    assert(vstd::string::is_ascii("--minimize"));
    assert(vstd::string::is_ascii("active-tab"));
    assert(vstd::string::is_ascii("color-bg"));
    assert(vstd::string::is_ascii("color-text"));
    assert(vstd::string::is_ascii("command"));
    assert(vstd::string::is_ascii("default-display"));
    assert(vstd::string::is_ascii("default-working-directory"));
    assert(vstd::string::is_ascii("display"));
    assert(vstd::string::is_ascii("drop-down"));
    assert(vstd::string::is_ascii("dynamic-title-mode"));
    assert(vstd::string::is_ascii("execute"));
    assert(vstd::string::is_ascii("font"));
    assert(vstd::string::is_ascii("fullscreen"));
    assert(vstd::string::is_ascii("geometry"));
    assert(vstd::string::is_ascii("hide-"));
    assert(vstd::string::is_ascii("hold"));
    assert(vstd::string::is_ascii("icon"));
    assert(vstd::string::is_ascii("initial-title"));
    assert(vstd::string::is_ascii("maximize"));
    assert(vstd::string::is_ascii("minimize"));
    assert(vstd::string::is_ascii("role"));
    assert(vstd::string::is_ascii("show-"));
    assert(vstd::string::is_ascii("sm-client-id"));
    assert(vstd::string::is_ascii("startup-id"));
    assert(vstd::string::is_ascii("title"));
    assert(vstd::string::is_ascii("working-directory"));
    assert(vstd::string::is_ascii("workspace"));
    assert(argument.skip(2) =~= "minimize".spec_bytes());
    assert(argument.skip(2).take(5)[0] != "show-".spec_bytes()[0]);
    assert(argument.skip(2).take(5)[0] != "hide-".spec_bytes()[0]);
    assert("minimize".spec_bytes() != "default-display".spec_bytes());
    assert("minimize".spec_bytes() != "default-working-directory".spec_bytes());
    assert("minimize".spec_bytes() != "execute".spec_bytes());
    assert("minimize".spec_bytes() != "command".spec_bytes());
    assert("minimize".spec_bytes() != "working-directory".spec_bytes());
    assert("minimize".spec_bytes() != "title".spec_bytes());
    assert("minimize".spec_bytes() != "dynamic-title-mode".spec_bytes());
    assert("minimize".spec_bytes() != "initial-title".spec_bytes());
    assert("minimize".spec_bytes() != "hold".spec_bytes());
    assert("minimize".spec_bytes() != "active-tab".spec_bytes());
    assert("minimize".spec_bytes() != "color-text".spec_bytes());
    assert("minimize".spec_bytes()[0] != "color-bg".spec_bytes()[0]);
    assert("minimize".spec_bytes() != "color-bg".spec_bytes());
    assert("minimize".spec_bytes() != "display".spec_bytes());
    assert("minimize".spec_bytes()[0] != "geometry".spec_bytes()[0]);
    assert("minimize".spec_bytes() != "geometry".spec_bytes());
    assert("minimize".spec_bytes() != "role".spec_bytes());
    assert("minimize".spec_bytes() != "sm-client-id".spec_bytes());
    assert("minimize".spec_bytes() != "startup-id".spec_bytes());
    assert("minimize".spec_bytes() != "font".spec_bytes());
    assert("minimize".spec_bytes() != "workspace".spec_bytes());
    assert("minimize".spec_bytes() != "icon".spec_bytes());
    assert("minimize".spec_bytes() != "drop-down".spec_bytes());
    assert("minimize".spec_bytes() != "fullscreen".spec_bytes());
    assert("minimize".spec_bytes()[1] != "maximize".spec_bytes()[1]);
    assert("minimize".spec_bytes() != "maximize".spec_bytes());
}

/// Reading a window flag option sets exactly the field it names on the
/// current window and changes nothing else: `--maximize` sets `maximize`,
/// `--minimize` sets `minimize`, `--fullscreen` sets `fullscreen` and
/// `--drop-down` sets `drop_down`; the parser then reads the next argument.
pub proof fn lemma_window_flag_sets_its_field(args: Seq<Seq<u8>>, answers: Seq<AnswerModel>, st: ParserModel)
    requires
        0 <= st.index < args.len(),
    ensures
        args[st.index] == "--drop-down".spec_bytes() ==> step(args, answers, st) == StepModel::Next(ParserModel {
            index: st.index + 1,
            windows: st.windows.update(st.windows.len() - 1, WindowModel { drop_down: true, ..st.windows.last() }),
            ..st
        }),
        args[st.index] == "--fullscreen".spec_bytes() ==> step(args, answers, st) == StepModel::Next(ParserModel {
            index: st.index + 1,
            windows: st.windows.update(st.windows.len() - 1, WindowModel { fullscreen: true, ..st.windows.last() }),
            ..st
        }),
        args[st.index] == "--maximize".spec_bytes() ==> step(args, answers, st) == StepModel::Next(ParserModel {
            index: st.index + 1,
            windows: st.windows.update(st.windows.len() - 1, WindowModel { maximize: true, ..st.windows.last() }),
            ..st
        }),
        args[st.index] == "--minimize".spec_bytes() ==> step(args, answers, st) == StepModel::Next(ParserModel {
            index: st.index + 1,
            windows: st.windows.update(st.windows.len() - 1, WindowModel { minimize: true, ..st.windows.last() }),
            ..st
        }),
{
    reveal(apply_flag);
    let argument = args[st.index];
    if argument == "--drop-down".spec_bytes() {
        lemma_drop_down_literals(argument);
        lemma_long_flag_step(args, answers, st, argument.skip(2), FlagOption::DropDown);
    }
    if argument == "--fullscreen".spec_bytes() {
        lemma_fullscreen_literals(argument);
        lemma_long_flag_step(args, answers, st, argument.skip(2), FlagOption::Fullscreen);
    }
    if argument == "--maximize".spec_bytes() {
        lemma_maximize_literals(argument);
        lemma_long_flag_step(args, answers, st, argument.skip(2), FlagOption::Maximize);
    }
    if argument == "--minimize".spec_bytes() {
        lemma_minimize_literals(argument);
        lemma_long_flag_step(args, answers, st, argument.skip(2), FlagOption::Minimize);
    }
}

proof fn lemma_disable_server_from(args: Seq<Seq<u8>>, i: int, k: int, disable: bool)
    requires
        0 <= i <= k <= args.len(),
        forall|j: int| i <= j < k ==> passes_immediate_scan(#[trigger] args[j]),
        k == args.len() || !passes_immediate_scan(args[k]),
    ensures
        immediate_from(args, i, disable).disable_server
            == (disable || exists|j: int| i <= j < k && #[trigger] args[j] == "--disable-server".spec_bytes()),
    decreases k - i,
{
    lemma_immediate_literals();
    if i < k {
        assert(passes_immediate_scan(args[i]));
        lemma_disable_server_from(args, i + 1, k, disable || args[i] == "--disable-server".spec_bytes());
        if exists|j: int| i <= j < k && #[trigger] args[j] == "--disable-server".spec_bytes() {
            let j = choose|j: int| i <= j < k && #[trigger] args[j] == "--disable-server".spec_bytes();
            if j > i {
                assert(i + 1 <= j < k && args[j] == "--disable-server".spec_bytes());
            }
        }
    }
}

/// `--disable-server` is remembered when it stands among the arguments read
/// before the scan for immediate options stops (at the end, at `--`,
/// `--execute` or `-x`, or at an action), and only then.
pub proof fn lemma_disable_server_seen(args: Seq<Seq<u8>>, k: int)
    requires
        0 <= k <= args.len(),
        forall|j: int| 0 <= j < k ==> passes_immediate_scan(#[trigger] args[j]),
        k == args.len() || !passes_immediate_scan(args[k]),
    ensures
        immediate_from(args, 0, false).disable_server
            == exists|j: int| 0 <= j < k && #[trigger] args[j] == "--disable-server".spec_bytes(),
{
    lemma_disable_server_from(args, 0, k, false);
}

#[verifier::spinoff_prover]
#[verifier::rlimit(50)]
proof fn lemma_hold_literals(argument: Seq<u8>)
    requires
        argument == "--hold".spec_bytes(),
    ensures
        argument != "--".spec_bytes(),
        argument.len() >= 2 && argument[0] == 45u8 && argument[1] == 45u8,
        argument.skip(2) == "hold".spec_bytes(),
        forall|i: int| 0 <= i < argument.skip(2).len() ==> argument.skip(2)[i] != 61u8,
        !starts_with(argument.skip(2), "show-".spec_bytes()),
        !starts_with(argument.skip(2), "hide-".spec_bytes()),
        long_option(argument.skip(2)) == LongOption::Flag(FlagOption::Hold),
{
    reveal(long_option);
    reveal_strlit("--");
    reveal_strlit("--hold");
    reveal_strlit("command");
    reveal_strlit("default-display");
    reveal_strlit("default-working-directory");
    reveal_strlit("dynamic-title-mode");
    reveal_strlit("execute");
    reveal_strlit("hide-");
    reveal_strlit("hold");
    reveal_strlit("initial-title");
    reveal_strlit("show-");
    reveal_strlit("title");
    reveal_strlit("working-directory");
    broadcast use vstd::string::is_ascii_spec_bytes;
    assert(vstd::string::is_ascii("--"));
    assert(vstd::string::is_ascii("--hold"));
    assert(vstd::string::is_ascii("command"));
    assert(vstd::string::is_ascii("default-display"));
    assert(vstd::string::is_ascii("default-working-directory"));
    assert(vstd::string::is_ascii("dynamic-title-mode"));
    assert(vstd::string::is_ascii("execute"));
    assert(vstd::string::is_ascii("hide-"));
    assert(vstd::string::is_ascii("hold"));
    assert(vstd::string::is_ascii("initial-title"));
    assert(vstd::string::is_ascii("show-"));
    assert(vstd::string::is_ascii("title"));
    assert(vstd::string::is_ascii("working-directory"));
    assert(argument.skip(2) =~= "hold".spec_bytes());
    assert(argument.skip(2).len() < "show-".spec_bytes().len());
    assert("hold".spec_bytes() != "default-display".spec_bytes());
    assert("hold".spec_bytes() != "default-working-directory".spec_bytes());
    assert("hold".spec_bytes() != "execute".spec_bytes());
    assert("hold".spec_bytes() != "command".spec_bytes());
    assert("hold".spec_bytes() != "working-directory".spec_bytes());
    assert("hold".spec_bytes() != "title".spec_bytes());
    assert("hold".spec_bytes() != "dynamic-title-mode".spec_bytes());
    assert("hold".spec_bytes() != "initial-title".spec_bytes());
}

#[verifier::spinoff_prover]
#[verifier::rlimit(50)]
proof fn lemma_active_literals(argument: Seq<u8>)
    requires
        argument == "--active-tab".spec_bytes(),
    ensures
        argument != "--".spec_bytes(),
        argument.len() >= 2 && argument[0] == 45u8 && argument[1] == 45u8,
        argument.skip(2) == "active-tab".spec_bytes(),
        forall|i: int| 0 <= i < argument.skip(2).len() ==> argument.skip(2)[i] != 61u8,
        !starts_with(argument.skip(2), "show-".spec_bytes()),
        !starts_with(argument.skip(2), "hide-".spec_bytes()),
        long_option(argument.skip(2)) == LongOption::Flag(FlagOption::ActiveTab),
{
    reveal(long_option);
    reveal_strlit("--");
    reveal_strlit("--active-tab");
    reveal_strlit("active-tab");
    reveal_strlit("command");
    reveal_strlit("default-display");
    reveal_strlit("default-working-directory");
    reveal_strlit("dynamic-title-mode");
    reveal_strlit("execute");
    reveal_strlit("hide-");
    reveal_strlit("hold");
    reveal_strlit("initial-title");
    reveal_strlit("show-");
    reveal_strlit("title");
    reveal_strlit("working-directory");
    broadcast use vstd::string::is_ascii_spec_bytes;
    assert(vstd::string::is_ascii("--"));
    assert(vstd::string::is_ascii("--active-tab"));
    assert(vstd::string::is_ascii("active-tab"));
    assert(vstd::string::is_ascii("command"));
    assert(vstd::string::is_ascii("default-display"));
    assert(vstd::string::is_ascii("default-working-directory"));
    assert(vstd::string::is_ascii("dynamic-title-mode"));
    assert(vstd::string::is_ascii("execute"));
    assert(vstd::string::is_ascii("hide-"));
    assert(vstd::string::is_ascii("hold"));
    assert(vstd::string::is_ascii("initial-title"));
    assert(vstd::string::is_ascii("show-"));
    assert(vstd::string::is_ascii("title"));
    assert(vstd::string::is_ascii("working-directory"));
    assert(argument.skip(2) =~= "active-tab".spec_bytes());
    assert(argument.skip(2).take(5)[0] != "show-".spec_bytes()[0]);
    assert(argument.skip(2).take(5)[0] != "hide-".spec_bytes()[0]);
    assert("active-tab".spec_bytes() != "default-display".spec_bytes());
    assert("active-tab".spec_bytes() != "default-working-directory".spec_bytes());
    assert("active-tab".spec_bytes() != "execute".spec_bytes());
    assert("active-tab".spec_bytes() != "command".spec_bytes());
    assert("active-tab".spec_bytes() != "working-directory".spec_bytes());
    assert("active-tab".spec_bytes() != "title".spec_bytes());
    assert("active-tab".spec_bytes() != "dynamic-title-mode".spec_bytes());
    assert("active-tab".spec_bytes() != "initial-title".spec_bytes());
    assert("active-tab".spec_bytes() != "hold".spec_bytes());
}

/// Reading a tab flag option sets exactly the field it names on the current
/// tab of the current window and changes nothing else: `--hold` sets `hold`
/// and `--active-tab` sets `active`; the parser then reads the next argument.
pub proof fn lemma_tab_flag_sets_its_field(args: Seq<Seq<u8>>, answers: Seq<AnswerModel>, st: ParserModel)
    requires
        0 <= st.index < args.len(),
    ensures
        args[st.index] == "--hold".spec_bytes() ==> step(args, answers, st) == StepModel::Next(ParserModel {
            index: st.index + 1,
            windows: st.windows.update(st.windows.len() - 1, WindowModel {
                tabs: st.windows.last().tabs.update(
                    st.windows.last().tabs.len() - 1,
                    TabModel { hold: true, ..st.windows.last().tabs.last() },
                ),
                ..st.windows.last()
            }),
            ..st
        }),
        args[st.index] == "--active-tab".spec_bytes() ==> step(args, answers, st) == StepModel::Next(ParserModel {
            index: st.index + 1,
            windows: st.windows.update(st.windows.len() - 1, WindowModel {
                tabs: st.windows.last().tabs.update(
                    st.windows.last().tabs.len() - 1,
                    TabModel { active: true, ..st.windows.last().tabs.last() },
                ),
                ..st.windows.last()
            }),
            ..st
        }),
{
    reveal(apply_flag);
    let argument = args[st.index];
    if argument == "--hold".spec_bytes() {
        lemma_hold_literals(argument);
        lemma_long_flag_step(args, answers, st, argument.skip(2), FlagOption::Hold);
    }
    if argument == "--active-tab".spec_bytes() {
        lemma_active_literals(argument);
        lemma_long_flag_step(args, answers, st, argument.skip(2), FlagOption::ActiveTab);
    }
}
} // verus!
