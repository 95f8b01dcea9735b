//! Changes to the window and tab a launch request is describing.

use vstd::prelude::*;

use super::rules::{
    edit_current_tab, edit_current_window, edit_tab, edit_window, well_formed_windows, TabEdit,
    WindowEdit, WindowPart,
};
use super::types::{
    tabs_view, windows_view, words_view, DynamicTitleMode, TabSpec, Visibility, WindowSpec,
};

verus! {

/// A change to the current tab, holding its values.
pub enum TabChange {
    Command(Vec<Vec<u8>>),
    Directory(Vec<u8>),
    Title(Vec<u8>),
    InitialTitle(Vec<u8>),
    ColorText(Vec<u8>),
    ColorBg(Vec<u8>),
    Mode(DynamicTitleMode),
    Hold,
    Active,
}

impl View for TabChange {
    type V = TabEdit;

    open spec fn view(&self) -> TabEdit {
        match self {
            TabChange::Command(c) => TabEdit::Command(words_view(c@)),
            TabChange::Directory(v) => TabEdit::Directory(v@),
            TabChange::Title(v) => TabEdit::Title(v@),
            TabChange::InitialTitle(v) => TabEdit::InitialTitle(v@),
            TabChange::ColorText(v) => TabEdit::ColorText(v@),
            TabChange::ColorBg(v) => TabEdit::ColorBg(v@),
            TabChange::Mode(m) => TabEdit::Mode(*m),
            TabChange::Hold => TabEdit::Hold,
            TabChange::Active => TabEdit::Active,
        }
    }
}

/// A change to the current window, holding its values.
pub enum WindowChange {
    Display(Vec<u8>),
    Geometry(Vec<u8>),
    Role(Vec<u8>),
    SmClientId(Vec<u8>),
    StartupId(Vec<u8>),
    Font(Vec<u8>),
    Icon(Vec<u8>),
    Workspace(i32),
    Zoom(i32),
    DropDown,
    Fullscreen,
    Maximize,
    Minimize,
    ReuseLastWindow,
    Show(WindowPart, Visibility),
    AddTab,
}

impl View for WindowChange {
    type V = WindowEdit;

    open spec fn view(&self) -> WindowEdit {
        match self {
            WindowChange::Display(v) => WindowEdit::Display(v@),
            WindowChange::Geometry(v) => WindowEdit::Geometry(v@),
            WindowChange::Role(v) => WindowEdit::Role(v@),
            WindowChange::SmClientId(v) => WindowEdit::SmClientId(v@),
            WindowChange::StartupId(v) => WindowEdit::StartupId(v@),
            WindowChange::Font(v) => WindowEdit::Font(v@),
            WindowChange::Icon(v) => WindowEdit::Icon(v@),
            WindowChange::Workspace(n) => WindowEdit::Workspace(*n),
            WindowChange::Zoom(n) => WindowEdit::Zoom(*n),
            WindowChange::DropDown => WindowEdit::DropDown,
            WindowChange::Fullscreen => WindowEdit::Fullscreen,
            WindowChange::Maximize => WindowEdit::Maximize,
            WindowChange::Minimize => WindowEdit::Minimize,
            WindowChange::ReuseLastWindow => WindowEdit::ReuseLastWindow,
            WindowChange::Show(part, v) => WindowEdit::Show(*part, *v),
            WindowChange::AddTab => WindowEdit::AddTab,
        }
    }
}

fn change_tab(tab: &mut TabSpec, change: TabChange)
    ensures
        final(tab)@ == edit_tab(old(tab)@, change@),
{
    match change {
        TabChange::Command(c) => tab.command = Some(c),
        TabChange::Directory(v) => tab.directory = Some(v),
        TabChange::Title(v) => tab.title = Some(v),
        TabChange::InitialTitle(v) => tab.initial_title = Some(v),
        TabChange::ColorText(v) => tab.color_text = Some(v),
        TabChange::ColorBg(v) => tab.color_bg = Some(v),
        TabChange::Mode(m) => tab.dynamic_title_mode = m,
        TabChange::Hold => tab.hold = true,
        TabChange::Active => tab.active = true,
    }
}

fn change_window(window: &mut WindowSpec, change: WindowChange)
    ensures
        final(window)@ == edit_window(old(window)@, change@),
{
    match change {
        WindowChange::Display(v) => window.display = Some(v),
        WindowChange::Geometry(v) => window.geometry = Some(v),
        WindowChange::Role(v) => window.role = Some(v),
        WindowChange::SmClientId(v) => window.sm_client_id = Some(v),
        WindowChange::StartupId(v) => window.startup_id = Some(v),
        WindowChange::Font(v) => window.font = Some(v),
        WindowChange::Icon(v) => window.icon = Some(v),
        WindowChange::Workspace(n) => window.workspace = n,
        WindowChange::Zoom(n) => window.zoom = n,
        WindowChange::DropDown => window.drop_down = true,
        WindowChange::Fullscreen => window.fullscreen = true,
        WindowChange::Maximize => window.maximize = true,
        WindowChange::Minimize => window.minimize = true,
        WindowChange::ReuseLastWindow => window.reuse_last_window = true,
        WindowChange::Show(WindowPart::Menubar, v) => window.menubar = v,
        WindowChange::Show(WindowPart::Borders, v) => window.borders = v,
        WindowChange::Show(WindowPart::Toolbar, v) => window.toolbar = v,
        WindowChange::Show(WindowPart::Scrollbar, v) => window.scrollbar = v,
        WindowChange::AddTab => {
            let ghost before = window.tabs@;
            window.tabs.push(TabSpec::default());
            assert(tabs_view(window.tabs@) =~= tabs_view(before).push(super::types::default_tab()));
        },
    }
}

/// Applies a change to the last tab of the last window.
pub fn change_current_tab(windows: &mut Vec<WindowSpec>, change: TabChange)
    requires
        well_formed_windows(windows_view(old(windows)@)),
    ensures
        windows_view(final(windows)@) == edit_current_tab(windows_view(old(windows)@), change@),
        well_formed_windows(windows_view(final(windows)@)),
{
    let ghost before = windows_view(windows@);
    assert(before[before.len() - 1].tabs.len() > 0);
    let mut window = windows.pop().unwrap();
    let ghost tabs_before = tabs_view(window.tabs@);
    let mut tab = window.tabs.pop().unwrap();
    change_tab(&mut tab, change);
    window.tabs.push(tab);
    assert(tabs_view(window.tabs@) =~= tabs_before.update(
        tabs_before.len() - 1,
        edit_tab(tabs_before.last(), change@),
    ));
    windows.push(window);
    let ghost after = windows_view(windows@);
    assert(after =~= edit_current_tab(before, change@));
    assert forall|i: int| 0 <= i < after.len() implies #[trigger] after[i].tabs.len() > 0 by {
        if i < after.len() - 1 {
            assert(after[i] == before[i]);
        }
    }
}

/// Applies a change to the last window.
pub fn change_current_window(windows: &mut Vec<WindowSpec>, change: WindowChange)
    requires
        well_formed_windows(windows_view(old(windows)@)),
    ensures
        windows_view(final(windows)@) == edit_current_window(windows_view(old(windows)@), change@),
        well_formed_windows(windows_view(final(windows)@)),
{
    let ghost before = windows_view(windows@);
    let mut window = windows.pop().unwrap();
    change_window(&mut window, change);
    windows.push(window);
    let ghost after = windows_view(windows@);
    assert(after =~= edit_current_window(before, change@));
    assert forall|i: int| 0 <= i < after.len() implies #[trigger] after[i].tabs.len() > 0 by {
        if i < after.len() - 1 {
            assert(after[i] == before[i]);
        } else {
            assert(before[i].tabs.len() > 0);
        }
    }
}

/// Starts a new window after the current one.
pub fn add_window(windows: &mut Vec<WindowSpec>)
    requires
        well_formed_windows(windows_view(old(windows)@)),
    ensures
        windows_view(final(windows)@) == windows_view(old(windows)@).push(super::types::default_window()),
        well_formed_windows(windows_view(final(windows)@)),
{
    let ghost before = windows_view(windows@);
    windows.push(WindowSpec::default());
    let ghost after = windows_view(windows@);
    assert(after =~= before.push(super::types::default_window()));
    assert forall|i: int| 0 <= i < after.len() implies #[trigger] after[i].tabs.len() > 0 by {
        if i < after.len() - 1 {
            assert(after[i] == before[i]);
        }
    }
}

} // verus!
