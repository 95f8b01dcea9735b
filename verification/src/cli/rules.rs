//! What a launch request means: the rules that turn an argument list into
//! window and tab specifications, stated one argument at a time.
//!
//! Three questions have answers the parser cannot give itself: how a command
//! string splits into words under shell quoting, what integer a numeric option
//! names, and whether a color is readable. The parser asks them in the order
//! it meets them and reads the answers positionally, so a launch request
//! together with the answers it was given has exactly one meaning.

use vstd::prelude::*;
use vstd::string::StringSliceAdditionalSpecFns;

use super::types::{
    default_tab, default_window, words_view, windows_view, DynamicTitleMode, ParseError, TabModel,
    Visibility, WindowModel, WindowSpec,
};

verus! {

/// A question the parser hands to the caller.
#[derive(Clone, Debug, PartialEq, Eq)]
pub enum OutsideQuery {
    /// Split a command line into words with shell quoting.
    SplitCommand(Vec<u8>),
    /// Read the leading integer of a value, as C `strtol` with base 0 does.
    ParseInteger(Vec<u8>),
    /// Decide whether a value names a color.
    CheckColor(Vec<u8>),
}

/// The caller's answer to one [`OutsideQuery`].
#[derive(Debug, PartialEq, Eq)]
pub enum OutsideAnswer {
    /// The words of a command line, or the message explaining why it does not split.
    Split(Result<Vec<Vec<u8>>, Vec<u8>>),
    /// The integer a value names.
    Integer(i32),
    /// Whether a value names a color.
    Color(bool),
}

/// Where parsing stands after the answers given so far.
#[derive(Debug)]
pub enum LaunchStep {
    /// The request was fully read.
    Finished(Result<Vec<WindowSpec>, ParseError>),
    /// The next answer the request needs.
    Ask(OutsideQuery),
}

pub enum QueryModel {
    SplitCommand(Seq<u8>),
    ParseInteger(Seq<u8>),
    CheckColor(Seq<u8>),
}

pub enum AnswerModel {
    Split(Result<Seq<Seq<u8>>, Seq<u8>>),
    Integer(i32),
    Color(bool),
}

pub enum LaunchModel {
    Finished(Result<Seq<WindowModel>, Seq<u8>>),
    Ask(QueryModel),
}

impl View for OutsideQuery {
    type V = QueryModel;

    open spec fn view(&self) -> QueryModel {
        match self {
            OutsideQuery::SplitCommand(v) => QueryModel::SplitCommand(v@),
            OutsideQuery::ParseInteger(v) => QueryModel::ParseInteger(v@),
            OutsideQuery::CheckColor(v) => QueryModel::CheckColor(v@),
        }
    }
}

impl View for OutsideAnswer {
    type V = AnswerModel;

    open spec fn view(&self) -> AnswerModel {
        match self {
            OutsideAnswer::Split(Ok(words)) => AnswerModel::Split(Ok(words_view(words@))),
            OutsideAnswer::Split(Err(message)) => AnswerModel::Split(Err(message@)),
            OutsideAnswer::Integer(n) => AnswerModel::Integer(*n),
            OutsideAnswer::Color(valid) => AnswerModel::Color(*valid),
        }
    }
}

impl View for LaunchStep {
    type V = LaunchModel;

    open spec fn view(&self) -> LaunchModel {
        match self {
            LaunchStep::Finished(Ok(windows)) => LaunchModel::Finished(Ok(windows_view(windows@))),
            LaunchStep::Finished(Err(error)) => LaunchModel::Finished(Err(error.message@)),
            LaunchStep::Ask(query) => LaunchModel::Ask(query@),
        }
    }
}

pub open spec fn args_view(args: Seq<Vec<u8>>) -> Seq<Seq<u8>> {
    args.map_values(|a: Vec<u8>| a@)
}

pub open spec fn answers_view(answers: Seq<OutsideAnswer>) -> Seq<AnswerModel> {
    answers.map_values(|a: OutsideAnswer| a@)
}

/// An option that takes a value.
#[derive(Clone, Copy, Debug, PartialEq, Eq, Structural)]
pub enum ValueOption {
    DefaultDisplay,
    DefaultDirectory,
    Command,
    WorkingDirectory,
    Title,
    DynamicTitleMode,
    InitialTitle,
    ColorText,
    ColorBg,
    Display,
    Geometry,
    Role,
    SmClientId,
    StartupId,
    Font,
    Workspace,
    Icon,
    Zoom,
    Class,
}

/// An option that takes no value.
#[derive(Clone, Copy, Debug, PartialEq, Eq, Structural)]
pub enum FlagOption {
    Execute,
    Hold,
    ActiveTab,
    DropDown,
    Fullscreen,
    Maximize,
    Minimize,
    Tab,
    Window,
    Ignored,
}

/// What a long option name stands for.
#[derive(Clone, Copy, Debug, PartialEq, Eq, Structural)]
pub enum LongOption {
    Value(ValueOption),
    Flag(FlagOption),
    Unknown,
}

/// A part of a window whose visibility `--show-*` and `--hide-*` set.
#[derive(Clone, Copy, Debug, PartialEq, Eq, Structural)]
pub enum WindowPart {
    Menubar,
    Borders,
    Toolbar,
    Scrollbar,
}

/// The long option a name (the text after `--` and before any `=`) selects.
#[verifier::opaque]
pub open spec fn long_option(name: Seq<u8>) -> LongOption {
    if name == "default-display".spec_bytes() {
        LongOption::Value(ValueOption::DefaultDisplay)
    } else if name == "default-working-directory".spec_bytes() {
        LongOption::Value(ValueOption::DefaultDirectory)
    } else if name == "execute".spec_bytes() {
        LongOption::Flag(FlagOption::Execute)
    } else if name == "command".spec_bytes() {
        LongOption::Value(ValueOption::Command)
    } else if name == "working-directory".spec_bytes() {
        LongOption::Value(ValueOption::WorkingDirectory)
    } else if name == "title".spec_bytes() {
        LongOption::Value(ValueOption::Title)
    } else if name == "dynamic-title-mode".spec_bytes() {
        LongOption::Value(ValueOption::DynamicTitleMode)
    } else if name == "initial-title".spec_bytes() {
        LongOption::Value(ValueOption::InitialTitle)
    } else if name == "hold".spec_bytes() {
        LongOption::Flag(FlagOption::Hold)
    } else if name == "active-tab".spec_bytes() {
        LongOption::Flag(FlagOption::ActiveTab)
    } else if name == "color-text".spec_bytes() {
        LongOption::Value(ValueOption::ColorText)
    } else if name == "color-bg".spec_bytes() {
        LongOption::Value(ValueOption::ColorBg)
    } else if name == "display".spec_bytes() {
        LongOption::Value(ValueOption::Display)
    } else if name == "geometry".spec_bytes() {
        LongOption::Value(ValueOption::Geometry)
    } else if name == "role".spec_bytes() {
        LongOption::Value(ValueOption::Role)
    } else if name == "sm-client-id".spec_bytes() {
        LongOption::Value(ValueOption::SmClientId)
    } else if name == "startup-id".spec_bytes() {
        LongOption::Value(ValueOption::StartupId)
    } else if name == "font".spec_bytes() {
        LongOption::Value(ValueOption::Font)
    } else if name == "workspace".spec_bytes() {
        LongOption::Value(ValueOption::Workspace)
    } else if name == "icon".spec_bytes() {
        LongOption::Value(ValueOption::Icon)
    } else if name == "drop-down".spec_bytes() {
        LongOption::Flag(FlagOption::DropDown)
    } else if name == "fullscreen".spec_bytes() {
        LongOption::Flag(FlagOption::Fullscreen)
    } else if name == "maximize".spec_bytes() {
        LongOption::Flag(FlagOption::Maximize)
    } else if name == "minimize".spec_bytes() {
        LongOption::Flag(FlagOption::Minimize)
    } else if name == "tab".spec_bytes() {
        LongOption::Flag(FlagOption::Tab)
    } else if name == "window".spec_bytes() {
        LongOption::Flag(FlagOption::Window)
    } else if name == "zoom".spec_bytes() {
        LongOption::Value(ValueOption::Zoom)
    } else if name == "class".spec_bytes() {
        LongOption::Value(ValueOption::Class)
    } else if name == "disable-server".spec_bytes() || name == "sync".spec_bytes()
        || name == "g-fatal-warnings".spec_bytes() {
        LongOption::Flag(FlagOption::Ignored)
    } else {
        LongOption::Unknown
    }
}

/// The window part a `--show-` or `--hide-` suffix names.
#[verifier::opaque]
pub open spec fn window_part(item: Seq<u8>) -> Option<WindowPart> {
    if item == "menubar".spec_bytes() {
        Some(WindowPart::Menubar)
    } else if item == "borders".spec_bytes() {
        Some(WindowPart::Borders)
    } else if item == "toolbar".spec_bytes() {
        Some(WindowPart::Toolbar)
    } else if item == "scrollbar".spec_bytes() {
        Some(WindowPart::Scrollbar)
    } else {
        None
    }
}

/// The option name an error about a value option quotes.
pub open spec fn value_option_label(option: ValueOption) -> &'static str {
    match option {
        ValueOption::DefaultDisplay => "--default-display",
        ValueOption::DefaultDirectory => "--default-working-directory",
        ValueOption::Command => "--command/-e",
        ValueOption::WorkingDirectory => "--working-directory",
        ValueOption::Title => "--title/-T",
        ValueOption::DynamicTitleMode => "--dynamic-title-mode",
        ValueOption::InitialTitle => "--initial-title",
        ValueOption::ColorText => "--color-text",
        ValueOption::ColorBg => "--color-bg",
        ValueOption::Display => "--display",
        ValueOption::Geometry => "--geometry",
        ValueOption::Role => "--role",
        ValueOption::SmClientId => "--sm-client-id",
        ValueOption::StartupId => "--startup-id",
        ValueOption::Font => "--font",
        ValueOption::Workspace => "--workspace",
        ValueOption::Icon => "--icon/-I",
        ValueOption::Zoom => "--zoom",
        ValueOption::Class => "--class",
    }
}

/// What an error about a missing value says the option needs.
pub open spec fn value_option_need(option: ValueOption) -> &'static str {
    match option {
        ValueOption::DefaultDisplay => "specifying the default X display as its parameter",
        ValueOption::DefaultDirectory => "specifying the default working directory as its parameter",
        ValueOption::Command => "specifying the command to run as its parameter",
        ValueOption::WorkingDirectory => "specifying the working directory as its parameter",
        ValueOption::Title => "specifying the title as its parameter",
        ValueOption::DynamicTitleMode => "specifying the dynamic title mode as its parameter",
        ValueOption::InitialTitle => "specifying the initial title as its parameter",
        ValueOption::ColorText => "specifying the color as its parameter",
        ValueOption::ColorBg => "specifying the color as its parameter",
        ValueOption::Display => "specifying the X display as its parameter",
        ValueOption::Geometry => "specifying the window geometry as its parameter",
        ValueOption::Role => "specifying the window role as its parameter",
        ValueOption::SmClientId => "specifying the unique session id as its parameter",
        ValueOption::StartupId => "specifying the startup id as its parameter",
        ValueOption::Font => "specifying the font name as its parameter",
        ValueOption::Workspace => "specifying the workspace number as its parameter",
        ValueOption::Icon => "specifying an icon name or filename as its parameter",
        ValueOption::Zoom => "specifying the zoom (-7 .. 7) as its parameter",
        ValueOption::Class => "specifying the class name as its parameter",
    }
}

/// `Option "<label>" requires <need>`: a value option is missing its value.
/// The zoom option reports the same text for a value outside -7 .. 7.
pub open spec fn requires_message(option: ValueOption) -> Seq<u8> {
    "Option \"".spec_bytes() + value_option_label(option).spec_bytes() + "\" requires ".spec_bytes()
        + value_option_need(option).spec_bytes()
}

/// The error for `-x` or `--execute` without a command after it.
pub open spec fn execute_message() -> Seq<u8> {
    "Option \"--execute/-x\" requires specifying the command to run on the rest of the command line separated from \"--execute/-x\"".spec_bytes()
}

/// `Unknown option "<argument>"`.
pub open spec fn unknown_message(argument: Seq<u8>) -> Seq<u8> {
    "Unknown option \"".spec_bytes() + argument + "\"".spec_bytes()
}

/// `Unknown option "-<c>"` for the byte of a short group the parser stopped at.
pub open spec fn unknown_short_message(argument: Seq<u8>, position: int) -> Seq<u8> {
    "Unknown option \"-".spec_bytes() + seq![argument[position]] + "\"".spec_bytes()
}

pub open spec fn invalid_mode_message(value: Seq<u8>) -> Seq<u8> {
    "Invalid argument for option \"--dynamic-title-mode\": ".spec_bytes() + value
}

pub open spec fn invalid_color_message(value: Seq<u8>) -> Seq<u8> {
    "Unable to parse color: ".spec_bytes() + value
}

pub open spec fn ascii_lower_byte(b: u8) -> u8 {
    if 65 <= b <= 90 { (b + 32) as u8 } else { b }
}

pub open spec fn ascii_lower(s: Seq<u8>) -> Seq<u8> {
    s.map_values(|b: u8| ascii_lower_byte(b))
}

/// The dynamic title mode a `--dynamic-title-mode` value names, compared
/// without regard to ASCII case.
pub open spec fn title_mode_value(value: Seq<u8>) -> Option<DynamicTitleMode> {
    let lower = ascii_lower(value);
    if lower == "replace".spec_bytes() {
        Some(DynamicTitleMode::Replace)
    } else if lower == "before".spec_bytes() {
        Some(DynamicTitleMode::Prepend)
    } else if lower == "after".spec_bytes() {
        Some(DynamicTitleMode::Append)
    } else if lower == "none".spec_bytes() {
        Some(DynamicTitleMode::Hide)
    } else {
        None
    }
}

/// A change to the tab the parser is describing.
pub enum TabEdit {
    Command(Seq<Seq<u8>>),
    Directory(Seq<u8>),
    Title(Seq<u8>),
    InitialTitle(Seq<u8>),
    ColorText(Seq<u8>),
    ColorBg(Seq<u8>),
    Mode(DynamicTitleMode),
    Hold,
    Active,
}

pub open spec fn edit_tab(t: TabModel, e: TabEdit) -> TabModel {
    match e {
        TabEdit::Command(c) => TabModel { command: Some(c), ..t },
        TabEdit::Directory(v) => TabModel { directory: Some(v), ..t },
        TabEdit::Title(v) => TabModel { title: Some(v), ..t },
        TabEdit::InitialTitle(v) => TabModel { initial_title: Some(v), ..t },
        TabEdit::ColorText(v) => TabModel { color_text: Some(v), ..t },
        TabEdit::ColorBg(v) => TabModel { color_bg: Some(v), ..t },
        TabEdit::Mode(m) => TabModel { dynamic_title_mode: m, ..t },
        TabEdit::Hold => TabModel { hold: true, ..t },
        TabEdit::Active => TabModel { active: true, ..t },
    }
}

/// A change to the window the parser is describing.
pub enum WindowEdit {
    Display(Seq<u8>),
    Geometry(Seq<u8>),
    Role(Seq<u8>),
    SmClientId(Seq<u8>),
    StartupId(Seq<u8>),
    Font(Seq<u8>),
    Icon(Seq<u8>),
    Workspace(i32),
    Zoom(i32),
    DropDown,
    Fullscreen,
    Maximize,
    Minimize,
    ReuseLastWindow,
    Show(WindowPart, Visibility),
    AddTab,
}

pub open spec fn edit_window(w: WindowModel, e: WindowEdit) -> WindowModel {
    match e {
        WindowEdit::Display(v) => WindowModel { display: Some(v), ..w },
        WindowEdit::Geometry(v) => WindowModel { geometry: Some(v), ..w },
        WindowEdit::Role(v) => WindowModel { role: Some(v), ..w },
        WindowEdit::SmClientId(v) => WindowModel { sm_client_id: Some(v), ..w },
        WindowEdit::StartupId(v) => WindowModel { startup_id: Some(v), ..w },
        WindowEdit::Font(v) => WindowModel { font: Some(v), ..w },
        WindowEdit::Icon(v) => WindowModel { icon: Some(v), ..w },
        WindowEdit::Workspace(n) => WindowModel { workspace: n, ..w },
        WindowEdit::Zoom(n) => WindowModel { zoom: n, ..w },
        WindowEdit::DropDown => WindowModel { drop_down: true, ..w },
        WindowEdit::Fullscreen => WindowModel { fullscreen: true, ..w },
        WindowEdit::Maximize => WindowModel { maximize: true, ..w },
        WindowEdit::Minimize => WindowModel { minimize: true, ..w },
        WindowEdit::ReuseLastWindow => WindowModel { reuse_last_window: true, ..w },
        WindowEdit::Show(WindowPart::Menubar, v) => WindowModel { menubar: v, ..w },
        WindowEdit::Show(WindowPart::Borders, v) => WindowModel { borders: v, ..w },
        WindowEdit::Show(WindowPart::Toolbar, v) => WindowModel { toolbar: v, ..w },
        WindowEdit::Show(WindowPart::Scrollbar, v) => WindowModel { scrollbar: v, ..w },
        WindowEdit::AddTab => WindowModel { tabs: w.tabs.push(default_tab()), ..w },
    }
}

/// Every window holds at least one tab, and there is at least one window.
pub open spec fn well_formed_windows(ws: Seq<WindowModel>) -> bool {
    &&& ws.len() > 0
    &&& forall|i: int| 0 <= i < ws.len() ==> #[trigger] ws[i].tabs.len() > 0
}

pub open spec fn edit_current_tab(ws: Seq<WindowModel>, e: TabEdit) -> Seq<WindowModel> {
    let w = ws.last();
    ws.update(
        ws.len() - 1,
        WindowModel { tabs: w.tabs.update(w.tabs.len() - 1, edit_tab(w.tabs.last(), e)), ..w },
    )
}

pub open spec fn edit_current_window(ws: Seq<WindowModel>, e: WindowEdit) -> Seq<WindowModel> {
    ws.update(ws.len() - 1, edit_window(ws.last(), e))
}

/// The parser's state between two arguments.
#[verifier::ext_equal]
pub struct ParserModel {
    pub windows: Seq<WindowModel>,
    pub default_display: Option<Seq<u8>>,
    pub default_directory: Option<Seq<u8>>,
    pub can_reuse_window: bool,
    pub ignore_window_option: bool,
    /// The argument to read next.
    pub index: int,
    /// How many answers have been read.
    pub used: int,
}

pub open spec fn initial_parser(can_reuse_window: bool) -> ParserModel {
    ParserModel {
        windows: seq![default_window()],
        default_display: None,
        default_directory: None,
        can_reuse_window,
        ignore_window_option: true,
        index: 0,
        used: 0,
    }
}

pub open spec fn with_tab(st: ParserModel, e: TabEdit) -> ParserModel {
    ParserModel { windows: edit_current_tab(st.windows, e), ..st }
}

pub open spec fn with_window(st: ParserModel, e: WindowEdit) -> ParserModel {
    ParserModel { windows: edit_current_window(st.windows, e), ..st }
}

pub open spec fn advanced(st: ParserModel) -> ParserModel {
    ParserModel { index: st.index + 1, ..st }
}

/// The outcome of reading one argument.
pub enum StepModel {
    /// Reading goes on with the next argument.
    Next(ParserModel),
    /// Reading ends here, successfully.
    Stop(ParserModel),
    /// The request is refused with this message.
    Fail(Seq<u8>),
    /// The request needs this answer before it can go on.
    Ask(QueryModel),
}

/// The value of an option: the text after `=` when there is one, otherwise the
/// next argument, with the index of the argument that held it.
pub open spec fn take_value(args: Seq<Seq<u8>>, index: int, inline: Option<Seq<u8>>) -> Option<(Seq<u8>, int)> {
    match inline {
        Some(v) => Some((v, index)),
        None => if index + 1 < args.len() { Some((args[index + 1], index + 1)) } else { None },
    }
}

/// The answer at the next position, when it is of the kind asked for.
pub open spec fn answer_split(answers: Seq<AnswerModel>, used: int) -> Option<Result<Seq<Seq<u8>>, Seq<u8>>> {
    if 0 <= used < answers.len() {
        match answers[used] {
            AnswerModel::Split(r) => Some(r),
            _ => None,
        }
    } else {
        None
    }
}

pub open spec fn answer_integer(answers: Seq<AnswerModel>, used: int) -> Option<i32> {
    if 0 <= used < answers.len() {
        match answers[used] {
            AnswerModel::Integer(n) => Some(n),
            _ => None,
        }
    } else {
        None
    }
}

pub open spec fn answer_color(answers: Seq<AnswerModel>, used: int) -> Option<bool> {
    if 0 <= used < answers.len() {
        match answers[used] {
            AnswerModel::Color(b) => Some(b),
            _ => None,
        }
    } else {
        None
    }
}

/// Applies a value option whose value stands at `st.index`; reading goes on
/// after that argument.
#[verifier::opaque]
pub open spec fn apply_value(
    answers: Seq<AnswerModel>,
    st: ParserModel,
    option: ValueOption,
    value: Seq<u8>,
) -> StepModel {
    match option {
        ValueOption::DefaultDisplay => StepModel::Next(
            advanced(ParserModel { default_display: Some(value), ..st }),
        ),
        ValueOption::DefaultDirectory => StepModel::Next(
            advanced(ParserModel { default_directory: Some(value), ..st }),
        ),
        ValueOption::Command => match answer_split(answers, st.used) {
            None => StepModel::Ask(QueryModel::SplitCommand(value)),
            Some(Err(message)) => StepModel::Fail(message),
            Some(Ok(words)) => StepModel::Next(
                advanced(ParserModel { used: st.used + 1, ..with_tab(st, TabEdit::Command(words)) }),
            ),
        },
        ValueOption::WorkingDirectory => StepModel::Next(advanced(with_tab(st, TabEdit::Directory(value)))),
        ValueOption::Title => StepModel::Next(advanced(with_tab(st, TabEdit::Title(value)))),
        ValueOption::DynamicTitleMode => match title_mode_value(value) {
            Some(mode) => StepModel::Next(advanced(with_tab(st, TabEdit::Mode(mode)))),
            None => StepModel::Fail(invalid_mode_message(value)),
        },
        ValueOption::InitialTitle => StepModel::Next(advanced(with_tab(st, TabEdit::InitialTitle(value)))),
        ValueOption::ColorText => match answer_color(answers, st.used) {
            None => StepModel::Ask(QueryModel::CheckColor(value)),
            Some(false) => StepModel::Fail(invalid_color_message(value)),
            Some(true) => StepModel::Next(
                advanced(ParserModel { used: st.used + 1, ..with_tab(st, TabEdit::ColorText(value)) }),
            ),
        },
        ValueOption::ColorBg => match answer_color(answers, st.used) {
            None => StepModel::Ask(QueryModel::CheckColor(value)),
            Some(false) => StepModel::Fail(invalid_color_message(value)),
            Some(true) => StepModel::Next(
                advanced(ParserModel { used: st.used + 1, ..with_tab(st, TabEdit::ColorBg(value)) }),
            ),
        },
        ValueOption::Display => StepModel::Next(advanced(with_window(st, WindowEdit::Display(value)))),
        ValueOption::Geometry => StepModel::Next(advanced(with_window(st, WindowEdit::Geometry(value)))),
        ValueOption::Role => StepModel::Next(advanced(with_window(st, WindowEdit::Role(value)))),
        ValueOption::SmClientId => StepModel::Next(advanced(with_window(st, WindowEdit::SmClientId(value)))),
        ValueOption::StartupId => StepModel::Next(advanced(with_window(st, WindowEdit::StartupId(value)))),
        ValueOption::Font => StepModel::Next(advanced(with_window(st, WindowEdit::Font(value)))),
        ValueOption::Icon => StepModel::Next(advanced(with_window(st, WindowEdit::Icon(value)))),
        ValueOption::Workspace => match answer_integer(answers, st.used) {
            None => StepModel::Ask(QueryModel::ParseInteger(value)),
            Some(n) => StepModel::Next(
                advanced(ParserModel { used: st.used + 1, ..with_window(st, WindowEdit::Workspace(n)) }),
            ),
        },
        ValueOption::Zoom => match answer_integer(answers, st.used) {
            None => StepModel::Ask(QueryModel::ParseInteger(value)),
            Some(n) => if -7 <= n <= 7 {
                StepModel::Next(
                    advanced(ParserModel { used: st.used + 1, ..with_window(st, WindowEdit::Zoom(n)) }),
                )
            } else {
                StepModel::Fail(requires_message(ValueOption::Zoom))
            },
        },
        ValueOption::Class => StepModel::Next(advanced(st)),
    }
}

/// The words after the argument at `index`, which `-x` and `--execute` hand
/// to the tab unparsed.
pub open spec fn rest_after(args: Seq<Seq<u8>>, index: int) -> Seq<Seq<u8>> {
    args.skip(index + 1)
}

/// Applies an option that takes no value, standing at `st.index`.
#[verifier::opaque]
pub open spec fn apply_flag(args: Seq<Seq<u8>>, st: ParserModel, flag: FlagOption) -> StepModel {
    match flag {
        FlagOption::Execute => if st.index + 1 >= args.len() {
            StepModel::Fail(execute_message())
        } else {
            StepModel::Stop(with_tab(st, TabEdit::Command(rest_after(args, st.index))))
        },
        FlagOption::Hold => StepModel::Next(advanced(with_tab(st, TabEdit::Hold))),
        FlagOption::ActiveTab => StepModel::Next(advanced(with_tab(st, TabEdit::Active))),
        FlagOption::DropDown => StepModel::Next(advanced(with_window(st, WindowEdit::DropDown))),
        FlagOption::Fullscreen => StepModel::Next(advanced(with_window(st, WindowEdit::Fullscreen))),
        FlagOption::Maximize => StepModel::Next(advanced(with_window(st, WindowEdit::Maximize))),
        FlagOption::Minimize => StepModel::Next(advanced(with_window(st, WindowEdit::Minimize))),
        FlagOption::Tab => if st.can_reuse_window {
            StepModel::Next(advanced(ParserModel {
                can_reuse_window: false,
                ..with_window(st, WindowEdit::ReuseLastWindow)
            }))
        } else {
            StepModel::Next(advanced(with_window(st, WindowEdit::AddTab)))
        },
        FlagOption::Window => if st.can_reuse_window && st.ignore_window_option {
            StepModel::Next(advanced(ParserModel {
                can_reuse_window: false,
                ignore_window_option: false,
                ..st
            }))
        } else {
            StepModel::Next(advanced(ParserModel {
                can_reuse_window: false,
                windows: st.windows.push(default_window()),
                ..st
            }))
        },
        FlagOption::Ignored => StepModel::Next(advanced(st)),
    }
}

pub open spec fn starts_with(s: Seq<u8>, prefix: Seq<u8>) -> bool {
    prefix.len() <= s.len() && s.take(prefix.len() as int) == prefix
}

/// The position of the first `=` in a long option, if any.
pub open spec fn first_equals(s: Seq<u8>) -> Option<int> {
    if exists|i: int| 0 <= i < s.len() && s[i] == 61u8 {
        Some(choose|i: int| 0 <= i < s.len() && s[i] == 61u8 && forall|j: int| 0 <= j < i ==> s[j] != 61u8)
    } else {
        None
    }
}

/// A long option split into its name and the value after the first `=`.
pub open spec fn split_long(long: Seq<u8>) -> (Seq<u8>, Option<Seq<u8>>) {
    match first_equals(long) {
        Some(i) => (long.take(i), Some(long.skip(i + 1))),
        None => (long, None),
    }
}

/// Reads the argument `--<long>` standing at `st.index`.
pub open spec fn long_step(
    args: Seq<Seq<u8>>,
    answers: Seq<AnswerModel>,
    st: ParserModel,
    long: Seq<u8>,
) -> StepModel {
    let (name, inline) = split_long(long);
    let show = "show-".spec_bytes();
    let hide = "hide-".spec_bytes();
    if inline is None && starts_with(name, show) && window_part(name.skip(show.len() as int)) is Some {
        StepModel::Next(advanced(with_window(
            st,
            WindowEdit::Show(window_part(name.skip(show.len() as int))->0, Visibility::Show),
        )))
    } else if inline is None && starts_with(name, hide) && window_part(name.skip(hide.len() as int)) is Some {
        StepModel::Next(advanced(with_window(
            st,
            WindowEdit::Show(window_part(name.skip(hide.len() as int))->0, Visibility::Hide),
        )))
    } else {
        match long_option(name) {
            LongOption::Value(option) => match take_value(args, st.index, inline) {
                None => StepModel::Fail(requires_message(option)),
                Some((value, at)) => apply_value(answers, ParserModel { index: at, ..st }, option, value),
            },
            LongOption::Flag(flag) => if inline is None {
                apply_flag(args, st, flag)
            } else {
                StepModel::Fail(unknown_message(args[st.index]))
            },
            LongOption::Unknown => StepModel::Fail(unknown_message(args[st.index])),
        }
    }
}

/// Whether a short group is some `H`s followed by a final `x`.
pub open spec fn short_group_is_execute(argument: Seq<u8>) -> bool {
    &&& argument.len() >= 2
    &&& argument.last() == 120u8
    &&& forall|i: int| 1 <= i < argument.len() - 1 ==> argument[i] == 72u8
}

/// The value option a short option letter stands for.
pub open spec fn short_value_option(c: u8) -> Option<ValueOption> {
    if c == 101u8 {
        Some(ValueOption::Command)
    } else if c == 84u8 {
        Some(ValueOption::Title)
    } else if c == 73u8 {
        Some(ValueOption::Icon)
    } else {
        None
    }
}

/// Reads a group of short options from `position` on.
pub open spec fn short_step(
    args: Seq<Seq<u8>>,
    answers: Seq<AnswerModel>,
    st: ParserModel,
    argument: Seq<u8>,
    position: int,
) -> StepModel
    decreases argument.len() - position,
{
    if position >= argument.len() || position < 1 {
        StepModel::Next(advanced(st))
    } else {
        let c = argument[position];
        if c == 72u8 {
            short_step(args, answers, with_tab(st, TabEdit::Hold), argument, position + 1)
        } else if c == 120u8 {
            if !short_group_is_execute(argument) || st.index + 1 >= args.len() {
                StepModel::Fail(execute_message())
            } else {
                StepModel::Stop(with_tab(st, TabEdit::Command(rest_after(args, st.index))))
            }
        } else if short_value_option(c) is Some {
            let option = short_value_option(c)->0;
            if position + 1 < argument.len() {
                apply_value(answers, st, option, argument.skip(position + 1))
            } else if st.index + 1 < args.len() {
                apply_value(answers, ParserModel { index: st.index + 1, ..st }, option, args[st.index + 1])
            } else {
                StepModel::Fail(requires_message(option))
            }
        } else if position == 1 {
            StepModel::Fail(unknown_message(argument))
        } else {
            StepModel::Fail(unknown_short_message(argument, position))
        }
    }
}

/// Reads the argument at `st.index`.
#[verifier::opaque]
pub open spec fn step(args: Seq<Seq<u8>>, answers: Seq<AnswerModel>, st: ParserModel) -> StepModel {
    let argument = args[st.index];
    if argument == "--".spec_bytes() {
        StepModel::Stop(st)
    } else if argument.len() < 2 || argument[0] != 45u8 {
        StepModel::Fail(unknown_message(argument))
    } else if argument[1] == 45u8 {
        long_step(args, answers, st, argument.skip(2))
    } else {
        short_step(args, answers, st, argument, 1)
    }
}

/// Fills in the defaults a window or tab did not set itself.
pub open spec fn with_defaults(
    w: WindowModel,
    display: Option<Seq<u8>>,
    directory: Option<Seq<u8>>,
) -> WindowModel {
    WindowModel {
        display: if w.display is None { display } else { w.display },
        tabs: w.tabs.map_values(|t: TabModel| tab_with_default(t, directory)),
        ..w
    }
}

/// A tab with the default working directory when it names none itself.
pub open spec fn tab_with_default(t: TabModel, directory: Option<Seq<u8>>) -> TabModel {
    TabModel { directory: if t.directory is None { directory } else { t.directory }, ..t }
}

pub open spec fn finished(st: ParserModel) -> Seq<WindowModel> {
    st.windows.map_values(|w: WindowModel| with_defaults(w, st.default_display, st.default_directory))
}

/// Reads the arguments from `st.index` on.
pub open spec fn run(args: Seq<Seq<u8>>, answers: Seq<AnswerModel>, st: ParserModel) -> LaunchModel
    decreases args.len() - st.index,
{
    if st.index >= args.len() || st.index < 0 {
        LaunchModel::Finished(Ok(finished(st)))
    } else {
        match step(args, answers, st) {
            StepModel::Next(next) => if st.index < next.index <= args.len() {
                run(args, answers, next)
            } else {
                LaunchModel::Finished(Ok(finished(next)))
            },
            StepModel::Stop(stopped) => LaunchModel::Finished(Ok(finished(stopped))),
            StepModel::Fail(message) => LaunchModel::Finished(Err(message)),
            StepModel::Ask(query) => LaunchModel::Ask(query),
        }
    }
}

/// What a launch request means, given the answers read so far.
pub open spec fn launch(args: Seq<Seq<u8>>, can_reuse_window: bool, answers: Seq<AnswerModel>) -> LaunchModel {
    run(args, answers, initial_parser(can_reuse_window))
}

} // verus!
