//! The values the command line describes: immediate actions and the window
//! and tab specifications of one launch request.

use vstd::prelude::*;

verus! {

/// A command that prints its answer and returns without starting a window.
#[derive(Clone, Copy, Debug, PartialEq, Eq, Structural)]
pub enum ImmediateAction {
    Help,
    Version,
    ColorTable,
}

/// The options read before any window or tab is described.
#[derive(Clone, Copy, Debug, PartialEq, Eq, Structural)]
pub struct ImmediateOptions {
    pub action: Option<ImmediateAction>,
    pub disable_server: bool,
}

/// Whether a window part is shown, hidden, or left to the preferences.
#[derive(Clone, Copy, Debug, PartialEq, Eq, Structural)]
pub enum Visibility {
    Default,
    Show,
    Hide,
}

/// How a tab combines its dynamic title with its initial title.
#[derive(Clone, Copy, Debug, PartialEq, Eq, Structural)]
pub enum DynamicTitleMode {
    Default,
    Replace,
    Prepend,
    Append,
    Hide,
}

/// The parsed settings of one tab. Every text keeps the bytes it was given.
#[derive(Clone, Debug, PartialEq, Eq)]
pub struct TabSpec {
    pub command: Option<Vec<Vec<u8>>>,
    pub directory: Option<Vec<u8>>,
    pub title: Option<Vec<u8>>,
    pub initial_title: Option<Vec<u8>>,
    pub color_text: Option<Vec<u8>>,
    pub color_bg: Option<Vec<u8>>,
    pub color_title: Option<Vec<u8>>,
    pub dynamic_title_mode: DynamicTitleMode,
    pub position: i32,
    pub hold: bool,
    pub active: bool,
}

/// The parsed settings of one window and its tabs.
#[derive(Clone, Debug, PartialEq, Eq)]
pub struct WindowSpec {
    pub tabs: Vec<TabSpec>,
    pub display: Option<Vec<u8>>,
    pub geometry: Option<Vec<u8>>,
    pub role: Option<Vec<u8>>,
    pub workspace: i32,
    pub startup_id: Option<Vec<u8>>,
    pub sm_client_id: Option<Vec<u8>>,
    pub icon: Option<Vec<u8>>,
    pub font: Option<Vec<u8>>,
    pub drop_down: bool,
    pub fullscreen: bool,
    pub maximize: bool,
    pub minimize: bool,
    pub reuse_last_window: bool,
    pub menubar: Visibility,
    pub borders: Visibility,
    pub toolbar: Visibility,
    pub scrollbar: Visibility,
    pub zoom: i32,
}

/// A rejected command line, with the message in the bytes it names.
#[derive(Clone, Debug, PartialEq, Eq)]
pub struct ParseError {
    pub message: Vec<u8>,
}

/// The mathematical value of a tab specification.
#[verifier::ext_equal]
pub struct TabModel {
    pub command: Option<Seq<Seq<u8>>>,
    pub directory: Option<Seq<u8>>,
    pub title: Option<Seq<u8>>,
    pub initial_title: Option<Seq<u8>>,
    pub color_text: Option<Seq<u8>>,
    pub color_bg: Option<Seq<u8>>,
    pub color_title: Option<Seq<u8>>,
    pub dynamic_title_mode: DynamicTitleMode,
    pub position: i32,
    pub hold: bool,
    pub active: bool,
}

/// The mathematical value of a window specification.
#[verifier::ext_equal]
pub struct WindowModel {
    pub tabs: Seq<TabModel>,
    pub display: Option<Seq<u8>>,
    pub geometry: Option<Seq<u8>>,
    pub role: Option<Seq<u8>>,
    pub workspace: i32,
    pub startup_id: Option<Seq<u8>>,
    pub sm_client_id: Option<Seq<u8>>,
    pub icon: Option<Seq<u8>>,
    pub font: Option<Seq<u8>>,
    pub drop_down: bool,
    pub fullscreen: bool,
    pub maximize: bool,
    pub minimize: bool,
    pub reuse_last_window: bool,
    pub menubar: Visibility,
    pub borders: Visibility,
    pub toolbar: Visibility,
    pub scrollbar: Visibility,
    pub zoom: i32,
}

pub open spec fn bytes_opt(value: Option<Vec<u8>>) -> Option<Seq<u8>> {
    match value {
        Some(v) => Some(v@),
        None => None,
    }
}

pub open spec fn words_view(words: Seq<Vec<u8>>) -> Seq<Seq<u8>> {
    words.map_values(|w: Vec<u8>| w@)
}

pub open spec fn words_opt(value: Option<Vec<Vec<u8>>>) -> Option<Seq<Seq<u8>>> {
    match value {
        Some(v) => Some(words_view(v@)),
        None => None,
    }
}

impl View for TabSpec {
    type V = TabModel;

    open spec fn view(&self) -> TabModel {
        TabModel {
            command: words_opt(self.command),
            directory: bytes_opt(self.directory),
            title: bytes_opt(self.title),
            initial_title: bytes_opt(self.initial_title),
            color_text: bytes_opt(self.color_text),
            color_bg: bytes_opt(self.color_bg),
            color_title: bytes_opt(self.color_title),
            dynamic_title_mode: self.dynamic_title_mode,
            position: self.position,
            hold: self.hold,
            active: self.active,
        }
    }
}

pub open spec fn tabs_view(tabs: Seq<TabSpec>) -> Seq<TabModel> {
    tabs.map_values(|t: TabSpec| t@)
}

impl View for WindowSpec {
    type V = WindowModel;

    open spec fn view(&self) -> WindowModel {
        WindowModel {
            tabs: tabs_view(self.tabs@),
            display: bytes_opt(self.display),
            geometry: bytes_opt(self.geometry),
            role: bytes_opt(self.role),
            workspace: self.workspace,
            startup_id: bytes_opt(self.startup_id),
            sm_client_id: bytes_opt(self.sm_client_id),
            icon: bytes_opt(self.icon),
            font: bytes_opt(self.font),
            drop_down: self.drop_down,
            fullscreen: self.fullscreen,
            maximize: self.maximize,
            minimize: self.minimize,
            reuse_last_window: self.reuse_last_window,
            menubar: self.menubar,
            borders: self.borders,
            toolbar: self.toolbar,
            scrollbar: self.scrollbar,
            zoom: self.zoom,
        }
    }
}

pub open spec fn windows_view(windows: Seq<WindowSpec>) -> Seq<WindowModel> {
    windows.map_values(|w: WindowSpec| w@)
}

/// The tab a fresh window or a `--tab` separator starts with.
pub open spec fn default_tab() -> TabModel {
    TabModel {
        command: None,
        directory: None,
        title: None,
        initial_title: None,
        color_text: None,
        color_bg: None,
        color_title: None,
        dynamic_title_mode: DynamicTitleMode::Default,
        position: -1i32,
        hold: false,
        active: false,
    }
}

/// The window a launch request starts with, holding one default tab.
pub open spec fn default_window() -> WindowModel {
    WindowModel {
        tabs: seq![default_tab()],
        display: None,
        geometry: None,
        role: None,
        workspace: -1i32,
        startup_id: None,
        sm_client_id: None,
        icon: None,
        font: None,
        drop_down: false,
        fullscreen: false,
        maximize: false,
        minimize: false,
        reuse_last_window: false,
        menubar: Visibility::Default,
        borders: Visibility::Default,
        toolbar: Visibility::Default,
        scrollbar: Visibility::Default,
        zoom: 0,
    }
}

impl Default for Visibility {
    fn default() -> (v: Self)
        ensures
            v == Visibility::Default,
    {
        Visibility::Default
    }
}

impl Default for DynamicTitleMode {
    fn default() -> (m: Self)
        ensures
            m == DynamicTitleMode::Default,
    {
        DynamicTitleMode::Default
    }
}

impl Default for ImmediateOptions {
    fn default() -> (o: Self)
        ensures
            o.action.is_none(),
            !o.disable_server,
    {
        ImmediateOptions { action: None, disable_server: false }
    }
}

impl Default for TabSpec {
    fn default() -> (t: Self)
        ensures
            t@ == default_tab(),
    {
        TabSpec {
            command: None,
            directory: None,
            title: None,
            initial_title: None,
            color_text: None,
            color_bg: None,
            color_title: None,
            dynamic_title_mode: DynamicTitleMode::Default,
            position: -1,
            hold: false,
            active: false,
        }
    }
}

impl Default for WindowSpec {
    fn default() -> (w: Self)
        ensures
            w@ == default_window(),
    {
        let mut tabs = Vec::new();
        tabs.push(TabSpec::default());
        let w = WindowSpec {
            tabs,
            display: None,
            geometry: None,
            role: None,
            workspace: -1,
            startup_id: None,
            sm_client_id: None,
            icon: None,
            font: None,
            drop_down: false,
            fullscreen: false,
            maximize: false,
            minimize: false,
            reuse_last_window: false,
            menubar: Visibility::Default,
            borders: Visibility::Default,
            toolbar: Visibility::Default,
            scrollbar: Visibility::Default,
            zoom: 0,
        };
        assert(w@.tabs =~= seq![default_tab()]);
        w
    }
}

impl ParseError {
    /// Returns the error text in the bytes of the command line it quotes.
    pub fn as_bytes(&self) -> (bytes: &[u8])
        ensures
            bytes@ == self.message@,
    {
        self.message.as_slice()
    }
}

} // verus!
