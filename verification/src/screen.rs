//! Screen state that does not need a running child: titles, the working
//! directory and paste safety, decided from preferences and the few values
//! the widget layer already knows.

use vstd::prelude::*;

pub use crate::screen_colors::{ColorInputs, ColorPlan, ColorReadability, ColorSource};
use crate::paths::{text_basename, text_path_basename};
use crate::text::{decimal, push_decimal};
use crate::fields::same_text;

verus! {

/// The C-locale spelling of the fallback window title.
pub const UNTITLED: &'static str = "Untitled";

/// How a dynamic window title combines with the initial title.
#[derive(Clone, Copy, Debug, PartialEq, Eq, Structural)]
pub enum TitleMode {
    Replace,
    Prepend,
    Append,
    Hide,
}

/// The enumeration nick of a mode.
pub open spec fn mode_nick(mode: TitleMode) -> &'static str {
    match mode {
        TitleMode::Replace => "TERMINAL_TITLE_REPLACE",
        TitleMode::Prepend => "TERMINAL_TITLE_PREPEND",
        TitleMode::Append => "TERMINAL_TITLE_APPEND",
        TitleMode::Hide => "TERMINAL_TITLE_HIDE",
    }
}

/// The mode a nick names.
pub open spec fn mode_named(name: Seq<char>) -> Option<TitleMode> {
    if name == "TERMINAL_TITLE_REPLACE"@ {
        Some(TitleMode::Replace)
    } else if name == "TERMINAL_TITLE_PREPEND"@ {
        Some(TitleMode::Prepend)
    } else if name == "TERMINAL_TITLE_APPEND"@ {
        Some(TitleMode::Append)
    } else if name == "TERMINAL_TITLE_HIDE"@ {
        Some(TitleMode::Hide)
    } else {
        None
    }
}

impl TitleMode {
    /// Parses the enumeration nick used in preferences.
    pub fn parse(name: &str) -> (mode: Option<TitleMode>)
        ensures
            mode == mode_named(name@),
    {
        if same_text(name, "TERMINAL_TITLE_REPLACE") {
            Some(TitleMode::Replace)
        } else if same_text(name, "TERMINAL_TITLE_PREPEND") {
            Some(TitleMode::Prepend)
        } else if same_text(name, "TERMINAL_TITLE_APPEND") {
            Some(TitleMode::Append)
        } else if same_text(name, "TERMINAL_TITLE_HIDE") {
            Some(TitleMode::Hide)
        } else {
            None
        }
    }

    /// Returns the enumeration nick.
    pub fn nick(self) -> (name: &'static str)
        ensures
            name == mode_nick(self),
    {
        match self {
            TitleMode::Replace => "TERMINAL_TITLE_REPLACE",
            TitleMode::Prepend => "TERMINAL_TITLE_PREPEND",
            TitleMode::Append => "TERMINAL_TITLE_APPEND",
            TitleMode::Hide => "TERMINAL_TITLE_HIDE",
        }
    }
}

/// What one `%` sequence of a title template stands for: `%#` the session
/// number, `%d` the base name of the working directory, `%D` the whole
/// directory (both nothing when there is none), `%w` the window title or
/// [`UNTITLED`].
pub open spec fn title_sequence(
    c: char,
    session_id: nat,
    working_directory: Option<Seq<char>>,
    vte_title: Option<Seq<char>>,
) -> Option<Seq<char>> {
    if c == '#' {
        Some(decimal(session_id))
    } else if c == 'd' {
        Some(match working_directory { Some(p) => text_basename(p), None => Seq::empty() })
    } else if c == 'D' {
        Some(match working_directory { Some(p) => p, None => Seq::empty() })
    } else if c == 'w' {
        Some(match vte_title { Some(t) => t, None => UNTITLED@ })
    } else {
        None
    }
}

/// The expansion of a title template from position `i` on. A `%` before an
/// unknown character stays and leaves that character to the walk, which is
/// how a doubled percent escapes; a trailing `%` stays.
pub open spec fn expand_title(
    t: Seq<char>,
    i: int,
    session_id: nat,
    working_directory: Option<Seq<char>>,
    vte_title: Option<Seq<char>>,
) -> Seq<char>
    decreases t.len() - i,
{
    if i < 0 || i >= t.len() {
        Seq::empty()
    } else if t[i] != '%' {
        seq![t[i]] + expand_title(t, i + 1, session_id, working_directory, vte_title)
    } else if i + 1 >= t.len() {
        seq!['%']
    } else {
        match title_sequence(t[i + 1], session_id, working_directory, vte_title) {
            Some(piece) => piece + expand_title(t, i + 2, session_id, working_directory, vte_title),
            None => seq!['%'] + expand_title(t, i + 1, session_id, working_directory, vte_title),
        }
    }
}

/// A title template expanded; no template gives the empty title.
pub open spec fn title_text(
    title: Option<Seq<char>>,
    session_id: nat,
    working_directory: Option<Seq<char>>,
    vte_title: Option<Seq<char>>,
) -> Seq<char> {
    match title {
        None => Seq::empty(),
        Some(t) => expand_title(t, 0, session_id, working_directory, vte_title),
    }
}

pub open spec fn opt_text(value: Option<&str>) -> Option<Seq<char>> {
    match value {
        Some(s) => Some(s@),
        None => None,
    }
}

/// Expands `%#`, `%d`, `%D`, and `%w` in a title template.
///
/// A missing template becomes an empty string. A missing window title becomes
/// [`UNTITLED`]. Unknown percent sequences keep the percent and leave the next
/// character for the normal walk.
pub fn parse_title(
    title: Option<&str>,
    session_id: u32,
    working_directory: Option<&str>,
    vte_title: Option<&str>,
) -> (expanded: String)
    ensures
        expanded@ == title_text(opt_text(title), session_id as nat, opt_text(working_directory), opt_text(vte_title)),
{
    let template = match title {
        None => {
            return String::new();
        },
        Some(t) => t,
    };
    let ghost wd = opt_text(working_directory);
    let ghost vt = opt_text(vte_title);
    let ghost sid = session_id as nat;
    let ghost whole = expand_title(template@, 0, sid, wd, vt);
    let len = template.unicode_len();
    let mut result = String::new();
    let mut i: usize = 0;
    assert(result@ + expand_title(template@, 0, sid, wd, vt) =~= whole);
    while i < len
        invariant
            len == template@.len(),
            i <= len,
            wd == opt_text(working_directory),
            vt == opt_text(vte_title),
            sid == session_id as nat,
            whole == expand_title(template@, 0, sid, wd, vt),
            result@ + expand_title(template@, i as int, sid, wd, vt) == whole,
        decreases len - i,
    {
        let ghost before = result@;
        let c = template.get_char(i);
        if c != '%' {
            result.push(c);
            i = i + 1;
            assert(result@ + expand_title(template@, i as int, sid, wd, vt) =~= whole);
        } else if i + 1 >= len {
            result.push('%');
            i = len;
            assert(result@ =~= whole);
        } else {
            let next = template.get_char(i + 1);
            if next == '#' {
                push_decimal(&mut result, session_id as u64);
                i = i + 2;
            } else if next == 'd' {
                match working_directory {
                    Some(path) => result.append(text_path_basename(path)),
                    None => {},
                }
                i = i + 2;
            } else if next == 'D' {
                match working_directory {
                    Some(path) => result.append(path),
                    None => {},
                }
                i = i + 2;
            } else if next == 'w' {
                match vte_title {
                    Some(t) => result.append(t),
                    None => result.append(UNTITLED),
                }
                i = i + 2;
            } else {
                result.push('%');
                i = i + 1;
            }
            assert(result@ + expand_title(template@, i as int, sid, wd, vt) =~= whole);
        }
    }
    assert(result@ =~= whole);
    result
}

/// The title a screen shows: a custom title wins over every dynamic mode;
/// otherwise the initial title (the screen's own, or the preference) combines
/// with the window title as the mode says.
pub open spec fn screen_title_text(
    custom_title: Option<Seq<char>>,
    initial_title: Option<Seq<char>>,
    preference_initial: Seq<char>,
    mode: TitleMode,
    session_id: nat,
    working_directory: Option<Seq<char>>,
    vte_title: Option<Seq<char>>,
) -> Seq<char> {
    if custom_title is Some {
        title_text(custom_title, session_id, working_directory, vte_title)
    } else {
        let source = match initial_title { Some(t) => t, None => preference_initial };
        let initial = title_text(Some(source), session_id, working_directory, vte_title);
        match vte_title {
            None => initial,
            Some(t) => match mode {
                TitleMode::Replace => t,
                TitleMode::Prepend => t + " - "@ + initial,
                TitleMode::Append => initial + " - "@ + t,
                TitleMode::Hide => initial,
            },
        }
    }
}

/// Builds the title a screen shows.
///
/// A custom title wins over every dynamic mode. Otherwise the initial title is
/// the screen's own override, or the preference when that override is missing.
pub fn screen_title(
    custom_title: Option<&str>,
    initial_title: Option<&str>,
    preference_initial: &str,
    mode: TitleMode,
    session_id: u32,
    working_directory: Option<&str>,
    vte_title: Option<&str>,
) -> (title: String)
    ensures
        title@ == screen_title_text(
            opt_text(custom_title),
            opt_text(initial_title),
            preference_initial@,
            mode,
            session_id as nat,
            opt_text(working_directory),
            opt_text(vte_title),
        ),
{
    if custom_title.is_some() {
        return parse_title(custom_title, session_id, working_directory, vte_title);
    }
    let source = match initial_title {
        Some(t) => t,
        None => preference_initial,
    };
    let initial = parse_title(Some(source), session_id, working_directory, vte_title);
    match vte_title {
        None => initial,
        Some(t) => match mode {
            TitleMode::Replace => String::from_str(t),
            TitleMode::Prepend => {
                let mut title = String::from_str(t);
                title.append(" - ");
                title.append(initial.as_str());
                title
            },
            TitleMode::Append => {
                let mut title = initial;
                title.append(" - ");
                title.append(t);
                title
            },
            TitleMode::Hide => initial,
        },
    }
}

pub open spec fn is_line_break(c: char) -> bool {
    c == '\n' || c == '\r'
}

/// Whether a text holds a line break.
pub open spec fn has_line_break(t: Seq<char>) -> bool {
    exists|i: int| 0 <= i < t.len() && #[trigger] is_line_break(t[i])
}

/// Whether paste text holds a line break.
pub open spec fn unsafe_text(text: Option<Seq<char>>) -> bool {
    match text {
        None => false,
        Some(t) => has_line_break(t),
    }
}

/// Returns whether paste text needs the unsafe-paste confirmation dialog.
pub fn is_text_unsafe(text: Option<&str>) -> (r: bool)
    ensures
        r == unsafe_text(opt_text(text)),
{
    let t = match text {
        None => {
            return false;
        },
        Some(t) => t,
    };
    let n = t.unicode_len();
    let mut i: usize = 0;
    while i < n
        invariant
            n == t@.len(),
            i <= n,
            opt_text(text) == Some(t@),
            forall|j: int| 0 <= j < i ==> !is_line_break(#[trigger] t@[j]),
        decreases n - i,
    {
        let c = t.get_char(i);
        if c == '\n' || c == '\r' {
            assert(is_line_break(t@[i as int]));


            return true;
        }
        i = i + 1;
    }
    false
}

/// The working directory a screen reports. `directory_uri` is what VTE knows
/// of the directory: `None` when it reports no URI, `Some(None)` when the URI
/// does not convert to a local path, `Some(Some(path))` when it does.
pub open spec fn working_directory_of(
    stored: Option<Seq<char>>,
    directory_uri: Option<Option<Seq<char>>>,
    process_cwd: Option<Seq<char>>,
) -> Option<Seq<char>> {
    match directory_uri {
        Some(Some(path)) => Some(path),
        Some(None) => stored,
        None => match process_cwd {
            Some(cwd) => Some(cwd),
            None => stored,
        },
    }
}

/// Resolves the working directory once the widget layer has asked VTE and the
/// process table.
///
/// A directory URI wins over a process cwd; one that does not convert to a
/// path keeps the stored value. Either answer replaces the stored value; when
/// both are missing the stored value is kept.
pub fn resolve_working_directory(
    stored: Option<&str>,
    directory_uri: Option<Option<&str>>,
    process_cwd: Option<&str>,
) -> (directory: Option<String>)
    ensures
        match directory {
            Some(d) => working_directory_of(
                opt_text(stored),
                match directory_uri { Some(u) => Some(opt_text(u)), None => None },
                opt_text(process_cwd),
            ) == Some(d@),
            None => working_directory_of(
                opt_text(stored),
                match directory_uri { Some(u) => Some(opt_text(u)), None => None },
                opt_text(process_cwd),
            ) is None,
        },
{
    match directory_uri {
        Some(Some(path)) => {
            return Some(String::from_str(path));
        },
        Some(None) => {},
        None => match process_cwd {
            Some(cwd) => {
                return Some(String::from_str(cwd));
            },
            None => {},
        },
    }
    match stored {
        Some(s) => Some(String::from_str(s)),
        None => None,
    }
}


/// Parsing a mode's nick gives the mode back.
pub proof fn lemma_nick_round_trip(mode: TitleMode)
    ensures
        mode_named(mode_nick(mode)@) == Some(mode),
{
    reveal_strlit("TERMINAL_TITLE_REPLACE");
    reveal_strlit("TERMINAL_TITLE_PREPEND");
    reveal_strlit("TERMINAL_TITLE_APPEND");
    reveal_strlit("TERMINAL_TITLE_HIDE");
    assert("TERMINAL_TITLE_REPLACE"@[15] != "TERMINAL_TITLE_PREPEND"@[15]);
    assert("TERMINAL_TITLE_REPLACE"@[15] != "TERMINAL_TITLE_APPEND"@[15]);
    assert("TERMINAL_TITLE_REPLACE"@.len() != "TERMINAL_TITLE_HIDE"@.len());
    assert("TERMINAL_TITLE_PREPEND"@.len() != "TERMINAL_TITLE_APPEND"@.len());
    assert("TERMINAL_TITLE_PREPEND"@.len() != "TERMINAL_TITLE_HIDE"@.len());
    assert("TERMINAL_TITLE_APPEND"@.len() != "TERMINAL_TITLE_HIDE"@.len());
}

/// A custom title wins over every dynamic mode: the title is the custom
/// template expanded, whatever the initial title, the preference and the
/// mode.
pub proof fn lemma_custom_title_wins(
    custom: Seq<char>,
    initial_title: Option<Seq<char>>,
    preference_initial: Seq<char>,
    mode: TitleMode,
    session_id: nat,
    working_directory: Option<Seq<char>>,
    vte_title: Option<Seq<char>>,
)
    ensures
        screen_title_text(Some(custom), initial_title, preference_initial, mode, session_id, working_directory, vte_title)
            == title_text(Some(custom), session_id, working_directory, vte_title),
{
}

/// Without a window title every mode shows the initial title alone.
pub proof fn lemma_no_window_title_shows_the_initial_title(
    initial_title: Option<Seq<char>>,
    preference_initial: Seq<char>,
    mode: TitleMode,
    session_id: nat,
    working_directory: Option<Seq<char>>,
)
    ensures
        screen_title_text(None, initial_title, preference_initial, mode, session_id, working_directory, None)
            == title_text(
                Some(match initial_title { Some(t) => t, None => preference_initial }),
                session_id,
                working_directory,
                None,
            ),
{
}

/// A template without a percent sign is its own expansion.
pub proof fn lemma_plain_template_is_unchanged(
    t: Seq<char>,
    session_id: nat,
    working_directory: Option<Seq<char>>,
    vte_title: Option<Seq<char>>,
)
    requires
        forall|i: int| 0 <= i < t.len() ==> t[i] != '%',
    ensures
        title_text(Some(t), session_id, working_directory, vte_title) == t,
{
    lemma_plain_suffix(t, 0, session_id, working_directory, vte_title);
    assert(t.skip(0) =~= t);
}

proof fn lemma_plain_suffix(
    t: Seq<char>,
    i: int,
    session_id: nat,
    working_directory: Option<Seq<char>>,
    vte_title: Option<Seq<char>>,
)
    requires
        0 <= i <= t.len(),
        forall|j: int| 0 <= j < t.len() ==> t[j] != '%',
    ensures
        expand_title(t, i, session_id, working_directory, vte_title) == t.skip(i),
    decreases t.len() - i,
{
    if i < t.len() {
        lemma_plain_suffix(t, i + 1, session_id, working_directory, vte_title);
        assert(t.skip(i) =~= seq![t[i]] + t.skip(i + 1));
    } else {
        assert(t.skip(i) =~= Seq::<char>::empty());
    }
}

/// A directory URI that converts wins over the process directory and the
/// stored one; the stored directory stays only when nothing else answers or
/// the URI does not convert.
pub proof fn lemma_directory_uri_wins(
    stored: Option<Seq<char>>,
    path: Seq<char>,
    process_cwd: Option<Seq<char>>,
)
    ensures
        working_directory_of(stored, Some(Some(path)), process_cwd) == Some(path),
        working_directory_of(stored, Some(None), process_cwd) == stored,
        working_directory_of(stored, None, None) == stored,
{
}

} // verus!
