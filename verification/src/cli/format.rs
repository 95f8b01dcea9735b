//! The byte format in which launch specifications are reported: one `W` line
//! per window followed by one `T` line per tab. A text is written with its
//! length before it, so any byte may stand in it.

use vstd::prelude::*;
use vstd::string::StringSliceAdditionalSpecFns;

use crate::bytes::{append_bytes, copy_bytes, decimal_bytes, push_decimal, push_signed_decimal, signed_decimal_bytes};
use super::types::{
    bytes_opt, tabs_view, windows_view, words_opt, DynamicTitleMode, TabModel, TabSpec,
    Visibility, WindowModel, WindowSpec,
};

verus! {

/// `|name=LEN:BYTES` for a text, `|name=-` for none.
#[verifier::opaque]
pub open spec fn text_field(name: Seq<u8>, value: Option<Seq<u8>>) -> Seq<u8> {
    match value {
        Some(v) => "|".spec_bytes() + name + "=".spec_bytes() + decimal_bytes(v.len()) + ":".spec_bytes() + v,
        None => "|".spec_bytes() + name + "=-".spec_bytes(),
    }
}

/// `|name=N` for a number.
#[verifier::opaque]
pub open spec fn number_field(name: Seq<u8>, n: int) -> Seq<u8> {
    "|".spec_bytes() + name + "=".spec_bytes() + signed_decimal_bytes(n)
}

pub open spec fn flag_number(b: bool) -> int {
    if b { 1 } else { 0 }
}

pub open spec fn visibility_number(v: Visibility) -> int {
    match v {
        Visibility::Default => 0,
        Visibility::Show => 1,
        Visibility::Hide => 2,
    }
}

pub open spec fn title_mode_number(m: DynamicTitleMode) -> int {
    match m {
        DynamicTitleMode::Replace => 0,
        DynamicTitleMode::Prepend => 1,
        DynamicTitleMode::Append => 2,
        DynamicTitleMode::Hide => 3,
        DynamicTitleMode::Default => 4,
    }
}

/// `:LEN:BYTES` for each word of a command, in order.
pub open spec fn words_text(words: Seq<Seq<u8>>) -> Seq<u8>
    decreases words.len(),
{
    if words.len() == 0 {
        Seq::empty()
    } else {
        let w = words.last();
        words_text(words.drop_last()) + ":".spec_bytes() + decimal_bytes(w.len()) + ":".spec_bytes() + w
    }
}

/// `|command=COUNT` and the words, or `|command=-` for none.
pub open spec fn command_field(command: Option<Seq<Seq<u8>>>) -> Seq<u8> {
    match command {
        Some(words) => "|command=".spec_bytes() + decimal_bytes(words.len()) + words_text(words),
        None => "|command=-".spec_bytes(),
    }
}

/// The `W` line of a window.
#[verifier::opaque]
pub open spec fn window_line(w: WindowModel) -> Seq<u8> {
    "W".spec_bytes()
        + text_field("display".spec_bytes(), w.display)
        + text_field("geometry".spec_bytes(), w.geometry)
        + text_field("role".spec_bytes(), w.role)
        + number_field("workspace".spec_bytes(), w.workspace as int)
        + text_field("startup_id".spec_bytes(), w.startup_id)
        + text_field("sm_client_id".spec_bytes(), w.sm_client_id)
        + text_field("icon".spec_bytes(), w.icon)
        + text_field("font".spec_bytes(), w.font)
        + number_field("drop_down".spec_bytes(), flag_number(w.drop_down))
        + number_field("fullscreen".spec_bytes(), flag_number(w.fullscreen))
        + number_field("maximize".spec_bytes(), flag_number(w.maximize))
        + number_field("minimize".spec_bytes(), flag_number(w.minimize))
        + number_field("reuse_last_window".spec_bytes(), flag_number(w.reuse_last_window))
        + number_field("menubar".spec_bytes(), visibility_number(w.menubar))
        + number_field("borders".spec_bytes(), visibility_number(w.borders))
        + number_field("toolbar".spec_bytes(), visibility_number(w.toolbar))
        + number_field("scrollbar".spec_bytes(), visibility_number(w.scrollbar))
        + number_field("zoom".spec_bytes(), w.zoom as int)
        + "\n".spec_bytes()
}

/// The `T` line of a tab.
#[verifier::opaque]
pub open spec fn tab_line(t: TabModel) -> Seq<u8> {
    "T".spec_bytes()
        + command_field(t.command)
        + text_field("directory".spec_bytes(), t.directory)
        + text_field("title".spec_bytes(), t.title)
        + text_field("initial_title".spec_bytes(), t.initial_title)
        + text_field("color_text".spec_bytes(), t.color_text)
        + text_field("color_bg".spec_bytes(), t.color_bg)
        + text_field("color_title".spec_bytes(), t.color_title)
        + number_field("dynamic_title_mode".spec_bytes(), title_mode_number(t.dynamic_title_mode))
        + number_field("position".spec_bytes(), t.position as int)
        + number_field("hold".spec_bytes(), flag_number(t.hold))
        + number_field("active".spec_bytes(), flag_number(t.active))
        + "\n".spec_bytes()
}

/// The lines of some tabs, in order.
pub open spec fn tabs_text(tabs: Seq<TabModel>) -> Seq<u8>
    decreases tabs.len(),
{
    if tabs.len() == 0 {
        Seq::empty()
    } else {
        tabs_text(tabs.drop_last()) + tab_line(tabs.last())
    }
}

/// A window's line followed by the lines of its tabs.
pub open spec fn window_text(w: WindowModel) -> Seq<u8> {
    window_line(w) + tabs_text(w.tabs)
}

/// The report of a launch request: each window's text, in order.
pub open spec fn launch_text(windows: Seq<WindowModel>) -> Seq<u8>
    decreases windows.len(),
{
    if windows.len() == 0 {
        Seq::empty()
    } else {
        launch_text(windows.drop_last()) + window_text(windows.last())
    }
}

fn push_text_field(out: &mut Vec<u8>, name: &str, value: &Option<Vec<u8>>)
    ensures
        final(out)@ == old(out)@ + text_field(name.spec_bytes(), bytes_opt(*value)),
{
    reveal(text_field);
    append_bytes(out, "|".as_bytes());
    append_bytes(out, name.as_bytes());
    match value {
        Some(v) => {
            append_bytes(out, "=".as_bytes());
            push_decimal(out, v.len() as u64);
            append_bytes(out, ":".as_bytes());
            append_bytes(out, v.as_slice());
        },
        None => {
            append_bytes(out, "=-".as_bytes());
        },
    }
    assert(out@ =~= old(out)@ + text_field(name.spec_bytes(), bytes_opt(*value)));
}

fn push_number_field(out: &mut Vec<u8>, name: &str, n: i32)
    ensures
        final(out)@ == old(out)@ + number_field(name.spec_bytes(), n as int),
{
    reveal(number_field);
    append_bytes(out, "|".as_bytes());
    append_bytes(out, name.as_bytes());
    append_bytes(out, "=".as_bytes());
    push_signed_decimal(out, n as i64);
    assert(out@ =~= old(out)@ + number_field(name.spec_bytes(), n as int));
}

fn flag_value(b: bool) -> (n: i32)
    ensures
        n == flag_number(b),
{
    if b { 1 } else { 0 }
}

fn visibility_value(v: Visibility) -> (n: i32)
    ensures
        n == visibility_number(v),
{
    match v {
        Visibility::Default => 0,
        Visibility::Show => 1,
        Visibility::Hide => 2,
    }
}

fn title_mode_value(m: DynamicTitleMode) -> (n: i32)
    ensures
        n == title_mode_number(m),
{
    match m {
        DynamicTitleMode::Replace => 0,
        DynamicTitleMode::Prepend => 1,
        DynamicTitleMode::Append => 2,
        DynamicTitleMode::Hide => 3,
        DynamicTitleMode::Default => 4,
    }
}

fn push_command_field(out: &mut Vec<u8>, command: &Option<Vec<Vec<u8>>>)
    ensures
        final(out)@ == old(out)@ + command_field(words_opt(*command)),
{
    match command {
        None => {
            append_bytes(out, "|command=-".as_bytes());
        },
        Some(words) => {
            let ghost view = words_opt(*command)->0;
            append_bytes(out, "|command=".as_bytes());
            push_decimal(out, words.len() as u64);
            let ghost head = out@;
            let mut i: usize = 0;
            while i < words.len()
                invariant
                    view == words@.map_values(|w: Vec<u8>| w@),
                    i <= words@.len(),
                    out@ == head + words_text(view.take(i as int)),
                decreases words@.len() - i,
            {
                let ghost before = out@;
                append_bytes(out, ":".as_bytes());
                push_decimal(out, words[i].len() as u64);
                append_bytes(out, ":".as_bytes());
                append_bytes(out, words[i].as_slice());
                i = i + 1;
                assert(view.take(i as int).drop_last() =~= view.take(i - 1));
                assert(out@ =~= head + words_text(view.take(i as int)));
            }
            assert(view.take(words@.len() as int) =~= view);
            assert(out@ =~= old(out)@ + command_field(words_opt(*command)));
        },
    }
}

fn tab_bytes(tab: &TabSpec) -> (line: Vec<u8>)
    ensures
        line@ == tab_line(tab@),
{
    reveal(tab_line);
    let mut out: Vec<u8> = copy_bytes("T".as_bytes());
    push_command_field(&mut out, &tab.command);
    push_text_field(&mut out, "directory", &tab.directory);
    push_text_field(&mut out, "title", &tab.title);
    push_text_field(&mut out, "initial_title", &tab.initial_title);
    push_text_field(&mut out, "color_text", &tab.color_text);
    push_text_field(&mut out, "color_bg", &tab.color_bg);
    push_text_field(&mut out, "color_title", &tab.color_title);
    push_number_field(&mut out, "dynamic_title_mode", title_mode_value(tab.dynamic_title_mode));
    push_number_field(&mut out, "position", tab.position);
    push_number_field(&mut out, "hold", flag_value(tab.hold));
    push_number_field(&mut out, "active", flag_value(tab.active));
    append_bytes(&mut out, "\n".as_bytes());
    out
}

fn window_bytes(window: &WindowSpec) -> (line: Vec<u8>)
    ensures
        line@ == window_line(window@),
{
    reveal(window_line);
    let mut out: Vec<u8> = copy_bytes("W".as_bytes());
    push_text_field(&mut out, "display", &window.display);
    push_text_field(&mut out, "geometry", &window.geometry);
    push_text_field(&mut out, "role", &window.role);
    push_number_field(&mut out, "workspace", window.workspace);
    push_text_field(&mut out, "startup_id", &window.startup_id);
    push_text_field(&mut out, "sm_client_id", &window.sm_client_id);
    push_text_field(&mut out, "icon", &window.icon);
    push_text_field(&mut out, "font", &window.font);
    push_number_field(&mut out, "drop_down", flag_value(window.drop_down));
    push_number_field(&mut out, "fullscreen", flag_value(window.fullscreen));
    push_number_field(&mut out, "maximize", flag_value(window.maximize));
    push_number_field(&mut out, "minimize", flag_value(window.minimize));
    push_number_field(&mut out, "reuse_last_window", flag_value(window.reuse_last_window));
    push_number_field(&mut out, "menubar", visibility_value(window.menubar));
    push_number_field(&mut out, "borders", visibility_value(window.borders));
    push_number_field(&mut out, "toolbar", visibility_value(window.toolbar));
    push_number_field(&mut out, "scrollbar", visibility_value(window.scrollbar));
    push_number_field(&mut out, "zoom", window.zoom);
    append_bytes(&mut out, "\n".as_bytes());
    out
}

/// Reports launch specifications in the byte format above.
pub fn format_launch_specs_bytes(windows: &[WindowSpec]) -> (output: Vec<u8>)
    ensures
        output@ == launch_text(windows_view(windows@)),
{
    let ghost all = windows_view(windows@);
    let mut output: Vec<u8> = Vec::new();
    let mut i: usize = 0;
    while i < windows.len()
        invariant
            all == windows_view(windows@),
            i <= windows@.len(),
            output@ == launch_text(all.take(i as int)),
        decreases windows@.len() - i,
    {
        let window = &windows[i];
        let ghost before = output@;
        let line = window_bytes(window);
        append_bytes(&mut output, line.as_slice());
        let ghost tabs = tabs_view(window.tabs@);
        let ghost head = output@;
        let mut j: usize = 0;
        while j < window.tabs.len()
            invariant
                tabs == tabs_view(window.tabs@),
                j <= window.tabs@.len(),
                output@ == head + tabs_text(tabs.take(j as int)),
            decreases window.tabs@.len() - j,
        {
            let tab_line_bytes = tab_bytes(&window.tabs[j]);
            append_bytes(&mut output, tab_line_bytes.as_slice());
            j = j + 1;
            assert(tabs.take(j as int).drop_last() =~= tabs.take(j - 1));
            assert(output@ =~= head + tabs_text(tabs.take(j as int)));
        }
        assert(tabs.take(tabs.len() as int) =~= tabs);
        assert(all[i as int] == window@);
        i = i + 1;
        assert(all.take(i as int).drop_last() =~= all.take(i - 1));
        assert(output@ =~= launch_text(all.take(i as int)));
    }
    assert(all.take(all.len() as int) =~= all);
    output
}


/// The digit a flag is written as.
pub open spec fn flag_digit(b: bool) -> u8 {
    if b { 49u8 } else { 48u8 }
}

/// `|name=D`, a flag field holding the digit of `b`.
pub open spec fn flag_text(name: Seq<u8>, b: bool) -> Seq<u8> {
    "|".spec_bytes() + name + "=".spec_bytes() + seq![flag_digit(b)]
}

proof fn lemma_flag_field(name: Seq<u8>, b: bool)
    ensures
        number_field(name, flag_number(b)) == flag_text(name, b),
{
    reveal(number_field);
    assert(decimal_bytes(0) =~= seq![48u8]);
    assert(decimal_bytes(1) =~= seq![49u8]);
}

/// Whether `part` stands in `text` from position `p` on.
pub open spec fn holds_at(text: Seq<u8>, p: int, part: Seq<u8>) -> bool {
    0 <= p && p + part.len() <= text.len() && text.subrange(p, p + part.len()) == part
}

/// The digit a visibility is written as: `0` for the default, `1` for shown,
/// `2` for hidden.
pub open spec fn visibility_digit(v: Visibility) -> u8 {
    match v {
        Visibility::Default => 48u8,
        Visibility::Show => 49u8,
        Visibility::Hide => 50u8,
    }
}

/// `|name=D`, a visibility field holding the digit of `v`.
pub open spec fn visibility_text(name: Seq<u8>, v: Visibility) -> Seq<u8> {
    "|".spec_bytes() + name + "=".spec_bytes() + seq![visibility_digit(v)]
}

proof fn lemma_visibility_field(name: Seq<u8>, v: Visibility)
    ensures
        number_field(name, visibility_number(v)) == visibility_text(name, v),
{
    reveal(number_field);
    assert(decimal_bytes(0) =~= seq![48u8]);
    assert(decimal_bytes(1) =~= seq![49u8]);
    assert(decimal_bytes(2) =~= seq![50u8]);
}

/// `|drop_down=A|fullscreen=B|maximize=C|minimize=D|reuse_last_window=E`
/// `|menubar=F|borders=G|toolbar=H|scrollbar=I|`: each flag digit is `1`
/// exactly when the window's flag of that name is set, and each visibility
/// digit is that of the window's part of that name.
pub open spec fn window_flags_text(w: WindowModel) -> Seq<u8> {
    flag_text("drop_down".spec_bytes(), w.drop_down)
        + flag_text("fullscreen".spec_bytes(), w.fullscreen)
        + flag_text("maximize".spec_bytes(), w.maximize)
        + flag_text("minimize".spec_bytes(), w.minimize)
        + flag_text("reuse_last_window".spec_bytes(), w.reuse_last_window)
        + visibility_text("menubar".spec_bytes(), w.menubar)
        + visibility_text("borders".spec_bytes(), w.borders)
        + visibility_text("toolbar".spec_bytes(), w.toolbar)
        + visibility_text("scrollbar".spec_bytes(), w.scrollbar)
        + "|".spec_bytes()
}

/// Each window flag and visibility is reported under its own name: the `W`
/// line of a window holds [`window_flags_text`], in which the digit after
/// `maximize=` is the window's maximize flag, the one after `minimize=` its
/// minimize flag, the one after `menubar=` its menubar visibility, and so on.
pub proof fn lemma_window_flags_reported_by_name(w: WindowModel)
    ensures
        exists|p: int| #[trigger] holds_at(window_line(w), p, window_flags_text(w)),
{
    let h = "W".spec_bytes()
        + text_field("display".spec_bytes(), w.display)
        + text_field("geometry".spec_bytes(), w.geometry)
        + text_field("role".spec_bytes(), w.role)
        + number_field("workspace".spec_bytes(), w.workspace as int)
        + text_field("startup_id".spec_bytes(), w.startup_id)
        + text_field("sm_client_id".spec_bytes(), w.sm_client_id)
        + text_field("icon".spec_bytes(), w.icon)
        + text_field("font".spec_bytes(), w.font);
    let n1 = number_field("drop_down".spec_bytes(), flag_number(w.drop_down));
    let n2 = number_field("fullscreen".spec_bytes(), flag_number(w.fullscreen));
    let n3 = number_field("maximize".spec_bytes(), flag_number(w.maximize));
    let n4 = number_field("minimize".spec_bytes(), flag_number(w.minimize));
    let n5 = number_field("reuse_last_window".spec_bytes(), flag_number(w.reuse_last_window));
    let n6 = number_field("menubar".spec_bytes(), visibility_number(w.menubar));
    let n7 = number_field("borders".spec_bytes(), visibility_number(w.borders));
    let n8 = number_field("toolbar".spec_bytes(), visibility_number(w.toolbar));
    let n9 = number_field("scrollbar".spec_bytes(), visibility_number(w.scrollbar));
    let m = number_field("zoom".spec_bytes(), w.zoom as int);
    let rest = "\n".spec_bytes();
    let x1 = h + n1;
    let x2 = x1 + n2;
    let x3 = x2 + n3;
    let x4 = x3 + n4;
    let x5 = x4 + n5;
    let x6 = x5 + n6;
    let x7 = x6 + n7;
    let x8 = x7 + n8;
    let x9 = x8 + n9;
    let x10 = x9 + m;
    let line = window_line(w);
    assert(line =~= x10 + rest) by {
        reveal(window_line);
    }
    lemma_holds_suffix(h, n1);
    lemma_holds_extend(x1, n2, h.len() as int, n1);
    lemma_holds_extend(x2, n3, h.len() as int, n1);
    lemma_holds_extend(x3, n4, h.len() as int, n1);
    lemma_holds_extend(x4, n5, h.len() as int, n1);
    lemma_holds_extend(x5, n6, h.len() as int, n1);
    lemma_holds_extend(x6, n7, h.len() as int, n1);
    lemma_holds_extend(x7, n8, h.len() as int, n1);
    lemma_holds_extend(x8, n9, h.len() as int, n1);
    lemma_holds_extend(x9, m, h.len() as int, n1);
    lemma_holds_suffix(x1, n2);
    lemma_holds_extend(x2, n3, x1.len() as int, n2);
    lemma_holds_extend(x3, n4, x1.len() as int, n2);
    lemma_holds_extend(x4, n5, x1.len() as int, n2);
    lemma_holds_extend(x5, n6, x1.len() as int, n2);
    lemma_holds_extend(x6, n7, x1.len() as int, n2);
    lemma_holds_extend(x7, n8, x1.len() as int, n2);
    lemma_holds_extend(x8, n9, x1.len() as int, n2);
    lemma_holds_extend(x9, m, x1.len() as int, n2);
    lemma_holds_suffix(x2, n3);
    lemma_holds_extend(x3, n4, x2.len() as int, n3);
    lemma_holds_extend(x4, n5, x2.len() as int, n3);
    lemma_holds_extend(x5, n6, x2.len() as int, n3);
    lemma_holds_extend(x6, n7, x2.len() as int, n3);
    lemma_holds_extend(x7, n8, x2.len() as int, n3);
    lemma_holds_extend(x8, n9, x2.len() as int, n3);
    lemma_holds_extend(x9, m, x2.len() as int, n3);
    lemma_holds_suffix(x3, n4);
    lemma_holds_extend(x4, n5, x3.len() as int, n4);
    lemma_holds_extend(x5, n6, x3.len() as int, n4);
    lemma_holds_extend(x6, n7, x3.len() as int, n4);
    lemma_holds_extend(x7, n8, x3.len() as int, n4);
    lemma_holds_extend(x8, n9, x3.len() as int, n4);
    lemma_holds_extend(x9, m, x3.len() as int, n4);
    lemma_holds_suffix(x4, n5);
    lemma_holds_extend(x5, n6, x4.len() as int, n5);
    lemma_holds_extend(x6, n7, x4.len() as int, n5);
    lemma_holds_extend(x7, n8, x4.len() as int, n5);
    lemma_holds_extend(x8, n9, x4.len() as int, n5);
    lemma_holds_extend(x9, m, x4.len() as int, n5);
    lemma_holds_suffix(x5, n6);
    lemma_holds_extend(x6, n7, x5.len() as int, n6);
    lemma_holds_extend(x7, n8, x5.len() as int, n6);
    lemma_holds_extend(x8, n9, x5.len() as int, n6);
    lemma_holds_extend(x9, m, x5.len() as int, n6);
    lemma_holds_suffix(x6, n7);
    lemma_holds_extend(x7, n8, x6.len() as int, n7);
    lemma_holds_extend(x8, n9, x6.len() as int, n7);
    lemma_holds_extend(x9, m, x6.len() as int, n7);
    lemma_holds_suffix(x7, n8);
    lemma_holds_extend(x8, n9, x7.len() as int, n8);
    lemma_holds_extend(x9, m, x7.len() as int, n8);
    lemma_holds_suffix(x8, n9);
    lemma_holds_extend(x9, m, x8.len() as int, n9);
    lemma_holds_suffix(x9, m);
    let bar = "|".spec_bytes();
    assert(m.len() >= 1 && m.take(1) =~= bar) by {
        reveal(number_field);
        reveal_strlit("|");
        broadcast use vstd::string::is_ascii_spec_bytes;
        assert(vstd::string::is_ascii("|"));
    }
    lemma_holds_prefix(x10, x9.len() as int, m, 1);
    let p = h.len() as int;
    lemma_holds_join(x10, p, n1, n2);
    lemma_holds_join(x10, p, n1 + n2, n3);
    lemma_holds_join(x10, p, n1 + n2 + n3, n4);
    lemma_holds_join(x10, p, n1 + n2 + n3 + n4, n5);
    lemma_holds_join(x10, p, n1 + n2 + n3 + n4 + n5, n6);
    lemma_holds_join(x10, p, n1 + n2 + n3 + n4 + n5 + n6, n7);
    lemma_holds_join(x10, p, n1 + n2 + n3 + n4 + n5 + n6 + n7, n8);
    lemma_holds_join(x10, p, n1 + n2 + n3 + n4 + n5 + n6 + n7 + n8, n9);
    lemma_holds_join(x10, p, n1 + n2 + n3 + n4 + n5 + n6 + n7 + n8 + n9, bar);
    lemma_holds_extend(x10, rest, p, n1 + n2 + n3 + n4 + n5 + n6 + n7 + n8 + n9 + bar);
    lemma_flag_field("drop_down".spec_bytes(), w.drop_down);
    lemma_flag_field("fullscreen".spec_bytes(), w.fullscreen);
    lemma_flag_field("maximize".spec_bytes(), w.maximize);
    lemma_flag_field("minimize".spec_bytes(), w.minimize);
    lemma_flag_field("reuse_last_window".spec_bytes(), w.reuse_last_window);
    lemma_visibility_field("menubar".spec_bytes(), w.menubar);
    lemma_visibility_field("borders".spec_bytes(), w.borders);
    lemma_visibility_field("toolbar".spec_bytes(), w.toolbar);
    lemma_visibility_field("scrollbar".spec_bytes(), w.scrollbar);
    assert(holds_at(line, p, window_flags_text(w)));
}

proof fn lemma_holds_suffix(x: Seq<u8>, y: Seq<u8>)
    ensures
        holds_at(x + y, x.len() as int, y),
{
    assert((x + y).subrange(x.len() as int, (x.len() + y.len()) as int) =~= y);
}

proof fn lemma_holds_extend(x: Seq<u8>, y: Seq<u8>, p: int, t: Seq<u8>)
    requires
        holds_at(x, p, t),
    ensures
        holds_at(x + y, p, t),
{
    assert((x + y).subrange(p, p + t.len()) =~= x.subrange(p, p + t.len()));
}

proof fn lemma_holds_prefix(x: Seq<u8>, p: int, t: Seq<u8>, k: int)
    requires
        holds_at(x, p, t),
        0 <= k <= t.len(),
    ensures
        holds_at(x, p, t.take(k)),
{
    assert(x.subrange(p, p + k) =~= t.take(k));
}

proof fn lemma_holds_join(x: Seq<u8>, p: int, t: Seq<u8>, u: Seq<u8>)
    requires
        holds_at(x, p, t),
        holds_at(x, p + t.len(), u),
    ensures
        holds_at(x, p, t + u),
{
    assert(x.subrange(p, p + (t + u).len()) =~= t + u);
}
} // verus!
