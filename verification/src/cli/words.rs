//! The vocabulary of the command line: option names, the texts of its error
//! messages, and the split of a long option at its first `=`.

use vstd::prelude::*;
use vstd::string::StringSliceAdditionalSpecFns;

use crate::bytes::{append_bytes, bytes_equal, copy_range};
use super::rules::{
    ascii_lower, ascii_lower_byte, execute_message, first_equals, invalid_color_message,
    invalid_mode_message, long_option, requires_message, split_long, title_mode_value,
    unknown_message, unknown_short_message, value_option_label, value_option_need, window_part,
    FlagOption, LongOption, ValueOption, WindowPart,
};
use super::types::DynamicTitleMode;

verus! {

fn label(option: ValueOption) -> (s: &'static str)
    ensures
        s@ == value_option_label(option)@,
{
    match option {
        ValueOption::DefaultDisplay => "--default-display",
        ValueOption::DefaultDirectory => "--default-working-directory",
        ValueOption::Command => "--command/-e",
        ValueOption::WorkingDirectory => "--working-directory",
        ValueOption::Title => "--title/-T",
        ValueOption::DynamicTitleMode => "--dynamic-title-mode",
        ValueOption::InitialTitle => "--initial-title",
        ValueOption::ColorText => "--color-text",
        ValueOption::ColorBg => "--color-bg",
        ValueOption::Display => "--display",
        ValueOption::Geometry => "--geometry",
        ValueOption::Role => "--role",
        ValueOption::SmClientId => "--sm-client-id",
        ValueOption::StartupId => "--startup-id",
        ValueOption::Font => "--font",
        ValueOption::Workspace => "--workspace",
        ValueOption::Icon => "--icon/-I",
        ValueOption::Zoom => "--zoom",
        ValueOption::Class => "--class",
    }
}

fn need(option: ValueOption) -> (s: &'static str)
    ensures
        s@ == value_option_need(option)@,
{
    match option {
        ValueOption::DefaultDisplay => "specifying the default X display as its parameter",
        ValueOption::DefaultDirectory => "specifying the default working directory as its parameter",
        ValueOption::Command => "specifying the command to run as its parameter",
        ValueOption::WorkingDirectory => "specifying the working directory as its parameter",
        ValueOption::Title => "specifying the title as its parameter",
        ValueOption::DynamicTitleMode => "specifying the dynamic title mode as its parameter",
        ValueOption::InitialTitle => "specifying the initial title as its parameter",
        ValueOption::ColorText => "specifying the color as its parameter",
        ValueOption::ColorBg => "specifying the color as its parameter",
        ValueOption::Display => "specifying the X display as its parameter",
        ValueOption::Geometry => "specifying the window geometry as its parameter",
        ValueOption::Role => "specifying the window role as its parameter",
        ValueOption::SmClientId => "specifying the unique session id as its parameter",
        ValueOption::StartupId => "specifying the startup id as its parameter",
        ValueOption::Font => "specifying the font name as its parameter",
        ValueOption::Workspace => "specifying the workspace number as its parameter",
        ValueOption::Icon => "specifying an icon name or filename as its parameter",
        ValueOption::Zoom => "specifying the zoom (-7 .. 7) as its parameter",
        ValueOption::Class => "specifying the class name as its parameter",
    }
}

/// The message for a value option that is missing its value.
pub fn requires_text(option: ValueOption) -> (m: Vec<u8>)
    ensures
        m@ == requires_message(option),
{
    let mut m: Vec<u8> = Vec::new();
    append_bytes(&mut m, "Option \"".as_bytes());
    append_bytes(&mut m, label(option).as_bytes());
    append_bytes(&mut m, "\" requires ".as_bytes());
    append_bytes(&mut m, need(option).as_bytes());
    m
}

pub fn execute_text() -> (m: Vec<u8>)
    ensures
        m@ == execute_message(),
{
    let mut m: Vec<u8> = Vec::new();
    append_bytes(
        &mut m,
        "Option \"--execute/-x\" requires specifying the command to run on the rest of the command line separated from \"--execute/-x\"".as_bytes(),
    );
    m
}

pub fn unknown_text(argument: &[u8]) -> (m: Vec<u8>)
    ensures
        m@ == unknown_message(argument@),
{
    let mut m: Vec<u8> = Vec::new();
    append_bytes(&mut m, "Unknown option \"".as_bytes());
    append_bytes(&mut m, argument);
    append_bytes(&mut m, "\"".as_bytes());
    m
}

pub fn unknown_short_text(argument: &[u8], position: usize) -> (m: Vec<u8>)
    requires
        position < argument@.len(),
    ensures
        m@ == unknown_short_message(argument@, position as int),
{
    let mut m: Vec<u8> = Vec::new();
    append_bytes(&mut m, "Unknown option \"-".as_bytes());
    m.push(argument[position]);
    append_bytes(&mut m, "\"".as_bytes());
    m
}

pub fn invalid_mode_text(value: &[u8]) -> (m: Vec<u8>)
    ensures
        m@ == invalid_mode_message(value@),
{
    let mut m: Vec<u8> = Vec::new();
    append_bytes(&mut m, "Invalid argument for option \"--dynamic-title-mode\": ".as_bytes());
    append_bytes(&mut m, value);
    m
}

pub fn invalid_color_text(value: &[u8]) -> (m: Vec<u8>)
    ensures
        m@ == invalid_color_message(value@),
{
    let mut m: Vec<u8> = Vec::new();
    append_bytes(&mut m, "Unable to parse color: ".as_bytes());
    append_bytes(&mut m, value);
    m
}

/// The long option a name selects.
pub fn long_option_of(name: &[u8]) -> (o: LongOption)
    ensures
        o == long_option(name@),
{
    reveal(long_option);
    if bytes_equal(name, "default-display".as_bytes()) {
        LongOption::Value(ValueOption::DefaultDisplay)
    } else if bytes_equal(name, "default-working-directory".as_bytes()) {
        LongOption::Value(ValueOption::DefaultDirectory)
    } else if bytes_equal(name, "execute".as_bytes()) {
        LongOption::Flag(FlagOption::Execute)
    } else if bytes_equal(name, "command".as_bytes()) {
        LongOption::Value(ValueOption::Command)
    } else if bytes_equal(name, "working-directory".as_bytes()) {
        LongOption::Value(ValueOption::WorkingDirectory)
    } else if bytes_equal(name, "title".as_bytes()) {
        LongOption::Value(ValueOption::Title)
    } else if bytes_equal(name, "dynamic-title-mode".as_bytes()) {
        LongOption::Value(ValueOption::DynamicTitleMode)
    } else if bytes_equal(name, "initial-title".as_bytes()) {
        LongOption::Value(ValueOption::InitialTitle)
    } else if bytes_equal(name, "hold".as_bytes()) {
        LongOption::Flag(FlagOption::Hold)
    } else if bytes_equal(name, "active-tab".as_bytes()) {
        LongOption::Flag(FlagOption::ActiveTab)
    } else if bytes_equal(name, "color-text".as_bytes()) {
        LongOption::Value(ValueOption::ColorText)
    } else if bytes_equal(name, "color-bg".as_bytes()) {
        LongOption::Value(ValueOption::ColorBg)
    } else if bytes_equal(name, "display".as_bytes()) {
        LongOption::Value(ValueOption::Display)
    } else if bytes_equal(name, "geometry".as_bytes()) {
        LongOption::Value(ValueOption::Geometry)
    } else if bytes_equal(name, "role".as_bytes()) {
        LongOption::Value(ValueOption::Role)
    } else if bytes_equal(name, "sm-client-id".as_bytes()) {
        LongOption::Value(ValueOption::SmClientId)
    } else if bytes_equal(name, "startup-id".as_bytes()) {
        LongOption::Value(ValueOption::StartupId)
    } else if bytes_equal(name, "font".as_bytes()) {
        LongOption::Value(ValueOption::Font)
    } else if bytes_equal(name, "workspace".as_bytes()) {
        LongOption::Value(ValueOption::Workspace)
    } else if bytes_equal(name, "icon".as_bytes()) {
        LongOption::Value(ValueOption::Icon)
    } else if bytes_equal(name, "drop-down".as_bytes()) {
        LongOption::Flag(FlagOption::DropDown)
    } else if bytes_equal(name, "fullscreen".as_bytes()) {
        LongOption::Flag(FlagOption::Fullscreen)
    } else if bytes_equal(name, "maximize".as_bytes()) {
        LongOption::Flag(FlagOption::Maximize)
    } else if bytes_equal(name, "minimize".as_bytes()) {
        LongOption::Flag(FlagOption::Minimize)
    } else if bytes_equal(name, "tab".as_bytes()) {
        LongOption::Flag(FlagOption::Tab)
    } else if bytes_equal(name, "window".as_bytes()) {
        LongOption::Flag(FlagOption::Window)
    } else if bytes_equal(name, "zoom".as_bytes()) {
        LongOption::Value(ValueOption::Zoom)
    } else if bytes_equal(name, "class".as_bytes()) {
        LongOption::Value(ValueOption::Class)
    } else if bytes_equal(name, "disable-server".as_bytes()) || bytes_equal(name, "sync".as_bytes())
        || bytes_equal(name, "g-fatal-warnings".as_bytes()) {
        LongOption::Flag(FlagOption::Ignored)
    } else {
        LongOption::Unknown
    }
}

/// The window part a `--show-` or `--hide-` suffix names.
pub fn window_part_of(item: &[u8]) -> (p: Option<WindowPart>)
    ensures
        p == window_part(item@),
{
    reveal(window_part);
    if bytes_equal(item, "menubar".as_bytes()) {
        Some(WindowPart::Menubar)
    } else if bytes_equal(item, "borders".as_bytes()) {
        Some(WindowPart::Borders)
    } else if bytes_equal(item, "toolbar".as_bytes()) {
        Some(WindowPart::Toolbar)
    } else if bytes_equal(item, "scrollbar".as_bytes()) {
        Some(WindowPart::Scrollbar)
    } else {
        None
    }
}

fn lower(s: &[u8]) -> (l: Vec<u8>)
    ensures
        l@ == ascii_lower(s@),
{
    let mut l: Vec<u8> = Vec::new();
    let mut i: usize = 0;
    while i < s.len()
        invariant
            i <= s@.len(),
            l@ == ascii_lower(s@.take(i as int)),
        decreases s@.len() - i,
    {
        let b = s[i];
        let c = if 65 <= b && b <= 90 { b + 32 } else { b };
        l.push(c);
        i = i + 1;
        assert(ascii_lower(s@.take(i as int)) =~= ascii_lower(s@.take(i - 1)).push(ascii_lower_byte(s@[i - 1])));
    }
    assert(s@.take(s@.len() as int) =~= s@);
    l
}

/// The dynamic title mode a value names.
pub fn title_mode_of(value: &[u8]) -> (m: Option<DynamicTitleMode>)
    ensures
        m == title_mode_value(value@),
{
    let l = lower(value);
    if bytes_equal(l.as_slice(), "replace".as_bytes()) {
        Some(DynamicTitleMode::Replace)
    } else if bytes_equal(l.as_slice(), "before".as_bytes()) {
        Some(DynamicTitleMode::Prepend)
    } else if bytes_equal(l.as_slice(), "after".as_bytes()) {
        Some(DynamicTitleMode::Append)
    } else if bytes_equal(l.as_slice(), "none".as_bytes()) {
        Some(DynamicTitleMode::Hide)
    } else {
        None
    }
}

/// Splits a long option at its first `=` into a name and an inline value.
pub fn split_long_option(long: &[u8]) -> (r: (Vec<u8>, Option<Vec<u8>>))
    ensures
        r.0@ == split_long(long@).0,
        match r.1 {
            Some(v) => split_long(long@).1 == Some(v@),
            None => split_long(long@).1 is None,
        },
{
    let mut i: usize = 0;
    while i < long.len()
        invariant
            i <= long@.len(),
            forall|j: int| 0 <= j < i ==> long@[j] != 61u8,
        decreases long@.len() - i,
    {
        if long[i] == 61u8 {
            let ghost s = long@;
            assert(0 <= i < s.len() && s[i as int] == 61u8);
            let ghost k = first_equals(s)->0;
            assert(0 <= k < s.len() && s[k] == 61u8 && forall|j: int| 0 <= j < k ==> s[j] != 61u8);
            assert(k == i as int) by {
                if k < i {
                    assert(s[k] != 61u8);
                }
                if k > i {
                    assert(s[i as int] != 61u8);
                }
            }
            let name = copy_range(long, 0, i);
            let value = copy_range(long, i + 1, long.len());
            assert(long@.subrange(0, i as int) =~= long@.take(i as int));
            assert(long@.subrange(i + 1, long@.len() as int) =~= long@.skip(i + 1));
            return (name, Some(value));
        }
        i = i + 1;
    }
    let name = copy_range(long, 0, long.len());
    assert(long@.subrange(0, long@.len() as int) =~= long@);
    (name, None)
}

} // verus!
