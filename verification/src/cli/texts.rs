//! The fixed texts the command line prints: the help, the version and the
//! ANSI color table.

use vstd::prelude::*;

use crate::reference::{short_revision, BASELINE_COMMIT, REFERENCE_VERSION};
use crate::text::{decimal, push_decimal};

verus! {

/// The English help printed in the C locale.
pub const HELP: &'static str = "Usage:\n  xfce4-terminal [OPTION...]\n\nGeneral Options:\n  -h, --help; -V, --version; --disable-server; --color-table; --preferences;\n  --default-display=display; --default-working-directory=directory\n\nWindow or Tab Separators:\n  --tab; --window\n\nTab Options:\n  -x, --execute; -e, --command=command; -T, --title=title;\n  --dynamic-title-mode=mode ('replace', 'before', 'after', 'none');\n  --initial-title=title; --working-directory=directory; -H, --hold;\n  --active-tab; --color-text=color; --color-bg=color\n\nWindow Options:\n  --display=display; --geometry=geometry; --role=role; --drop-down;\n  --startup-id=string; -I, --icon=icon; --fullscreen; --maximize; --minimize;\n  --show-menubar, --hide-menubar; --show-borders, --hide-borders;\n  --show-toolbar, --hide-toolbar; --show-scrollbar, --hide-scrollbar;\n  --font=font; --zoom=zoom; --class=class\n\nSee the xfce4-terminal man page for full explanation of the options above.\n\n";

/// The attribution that follows the first line of the version text.
pub const VERSION_ATTRIBUTION: &'static str = "Copyright (c) 2003-2026\n\tThe Xfce development team. All rights reserved.\n\nWritten by Benedikt Meurer <benny@xfce.org>,\nNick Schermer <nick@xfce.org>,\nIgor Zakharov <f2404@yandex.ru>,\nSergios - Anestis Kefalidis <sergioskefalidis@gmail.com>.\n\nPlease report bugs to <https://gitlab.xfce.org/apps/xfce4-terminal/-/issues>.\n";

/// Returns the English command help printed in the C locale.
pub fn help_text() -> (help: &'static str)
    ensures
        help@ == HELP@,
{
    HELP
}

/// The version text for the given version of the Xfce libraries.
pub open spec fn version_message(xfce_version: Seq<char>) -> Seq<char> {
    "xfce4-terminal "@ + REFERENCE_VERSION@ + "-"@ + BASELINE_COMMIT@.subrange(0, 8) + " (Xfce "@
        + xfce_version + ")\n\n"@ + VERSION_ATTRIBUTION@
}

/// Returns the version and attribution text printed in the C locale.
pub fn version_text(xfce_version: &str) -> (text: String)
    ensures
        text@ == version_message(xfce_version@),
{
    let mut text = String::from_str("xfce4-terminal ");
    text.append(REFERENCE_VERSION);
    text.append("-");
    text.append(short_revision());
    text.append(" (Xfce ");
    text.append(xfce_version);
    text.append(")\n\n");
    text.append(VERSION_ATTRIBUTION);
    text
}

/// The SGR code of a foreground row: rows 28 and 29 stand for the codes 0
/// and 1, the others for themselves.
pub open spec fn foreground(number: nat) -> nat {
    if number == 28 {
        0
    } else if number == 29 {
        1
    } else {
        number
    }
}

/// The bold prefix of a code, `1;` in the bright rows.
pub open spec fn bright_code(bright: bool) -> Seq<char> {
    if bright { "1;"@ } else { Seq::empty() }
}

/// The label of a cell: the bold prefix and the foreground code, each right
/// aligned in two columns, then `m`.
pub open spec fn cell_label(bright: bool, fg: nat) -> Seq<char> {
    (if bright { "1;"@ } else { "  "@ }) + (if fg < 10 { " "@ + decimal(fg) } else { decimal(fg) }) + "m"@
}

/// The escape that selects the given SGR code.
pub open spec fn escape(code: Seq<char>) -> Seq<char> {
    "\u{1b}["@ + code + "m"@
}

/// The first `count` background cells of a row, on the backgrounds 40 on.
pub open spec fn background_cells(bright: bool, fg: nat, count: nat) -> Seq<char>
    decreases count,
{
    if count == 0 {
        Seq::empty()
    } else {
        background_cells(bright, fg, (count - 1) as nat) + escape(
            bright_code(bright) + decimal(fg) + ";"@ + decimal((40 + count - 1) as nat),
        ) + " "@ + cell_label(bright, fg) + " "@
    }
}

/// One row of the table: its label, the cell on the default background,
/// the eight background cells and a reset.
#[verifier::opaque]
pub open spec fn color_row(bright: bool, number: nat) -> Seq<char> {
    let fg = foreground(number);
    " "@ + cell_label(bright, fg) + " |"@ + escape(bright_code(bright) + decimal(fg)) + " "@
        + cell_label(bright, fg) + " "@ + background_cells(bright, fg, 8) + "\u{1b}[0m\n"@
}

/// The rows from `start` up to, not including, `end`.
pub open spec fn color_rows(bright: bool, start: nat, end: nat) -> Seq<char>
    decreases end - start,
{
    if end <= start {
        Seq::empty()
    } else {
        color_rows(bright, start, (end - 1) as nat) + color_row(bright, (end - 1) as nat)
    }
}

/// The first `count` column headings, on the backgrounds 40 on.
pub open spec fn table_heading(count: nat) -> Seq<char>
    decreases count,
{
    if count == 0 {
        "       |       "@
    } else {
        table_heading((count - 1) as nat) + "   "@ + decimal((40 + count - 1) as nat) + "m "@
    }
}

/// The table `--color-table` prints: the headings, the plain rows 28 to 37
/// and the bright rows 30 to 37.
pub open spec fn color_table_text() -> Seq<char> {
    table_heading(8) + "\n"@ + color_rows(false, 28, 38) + color_rows(true, 30, 38)
}

fn push_cell_label(output: &mut String, bright: bool, fg: u64)
    ensures
        final(output)@ == old(output)@ + cell_label(bright, fg as nat),
{
    if bright {
        output.append("1;");
    } else {
        output.append("  ");
    }
    if fg < 10 {
        output.append(" ");
    }
    push_decimal(output, fg);
    output.append("m");
    assert(output@ =~= old(output)@ + cell_label(bright, fg as nat));
}

fn push_code(output: &mut String, bright: bool, fg: u64)
    ensures
        final(output)@ == old(output)@ + bright_code(bright) + decimal(fg as nat),
{
    if bright {
        output.append("1;");
    } else {
        assert(output@ =~= output@ + bright_code(bright));
    }
    push_decimal(output, fg);
}

fn push_color_row(output: &mut String, bright: bool, number: u64)
    requires
        28 <= number <= 37,
    ensures
        final(output)@ == old(output)@ + color_row(bright, number as nat),
{
    reveal(color_row);
    let fg: u64 = if number == 28 {
        0
    } else if number == 29 {
        1
    } else {
        number
    };
    let ghost start = output@;
    output.append(" ");
    push_cell_label(output, bright, fg);
    output.append(" |");
    output.append("\u{1b}[");
    push_code(output, bright, fg);
    output.append("m");
    output.append(" ");
    push_cell_label(output, bright, fg);
    output.append(" ");
    let ghost cells_start = output@;
    let mut background: u64 = 40;
    while background <= 47
        invariant
            40 <= background <= 48,
            fg == foreground(number as nat),
            output@ == cells_start + background_cells(bright, fg as nat, (background - 40) as nat),
        decreases 48 - background,
    {
        let ghost before = output@;
        output.append("\u{1b}[");
        push_code(output, bright, fg);
        output.append(";");
        push_decimal(output, background);
        output.append("m");
        output.append(" ");
        push_cell_label(output, bright, fg);
        output.append(" ");
        assert(output@ =~= cells_start + background_cells(bright, fg as nat, (background - 39) as nat));
        background = background + 1;
    }
    output.append("\u{1b}[0m\n");
    assert(output@ =~= start + color_row(bright, number as nat));
}

/// Appends the rows from `start` through 37.
fn push_color_rows(output: &mut String, bright: bool, start: u64)
    requires
        28 <= start <= 37,
    ensures
        final(output)@ == old(output)@ + color_rows(bright, start as nat, 38),
{
    let mut number: u64 = start;
    assert(color_rows(bright, start as nat, start as nat) =~= Seq::empty());
    assert(output@ =~= old(output)@ + color_rows(bright, start as nat, start as nat));
    while number <= 37
        invariant
            28 <= start <= number <= 38,
            output@ == old(output)@ + color_rows(bright, start as nat, number as nat),
        decreases 38 - number,
    {
        push_color_row(output, bright, number);
        number = number + 1;
        assert(output@ =~= old(output)@ + color_rows(bright, start as nat, number as nat));
    }
}

/// Returns the ANSI color table printed by `--color-table`.
pub fn color_table() -> (table: String)
    ensures
        table@ == color_table_text(),
{
    let mut output = String::from_str("       |       ");
    let mut background: u64 = 40;
    while background <= 47
        invariant
            40 <= background <= 48,
            output@ == table_heading((background - 40) as nat),
        decreases 48 - background,
    {
        output.append("   ");
        push_decimal(&mut output, background);
        output.append("m ");
        background = background + 1;
    }
    output.append("\n");
    push_color_rows(&mut output, false, 28);
    push_color_rows(&mut output, true, 30);
    output
}

} // verus!
