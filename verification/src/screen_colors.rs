//! Which color each VTE color slot takes, decided from the preference and tab
//! color settings and from whether each color text can be read.
//!
//! The colors themselves are read and stored by the widget layer; what is
//! decided here is where each slot's color comes from: a tab's custom color,
//! the preference, the theme, or a background remembered from an earlier
//! pass.

use vstd::prelude::*;

verus! {

/// The preference and tab values the color decision reads.
#[derive(Clone, Debug)]
pub struct ColorInputs {
    pub palette: Option<String>,
    pub foreground: Option<String>,
    pub background: Option<String>,
    pub use_theme: bool,
    pub background_vary: bool,
    pub custom_foreground: Option<String>,
    pub custom_background: Option<String>,
    /// Whether a previous vary-background pass remembered a background.
    pub has_stored_background: bool,
    pub cursor_use_default: bool,
    pub cursor_foreground: Option<String>,
    pub cursor: Option<String>,
    pub selection_use_default: bool,
    pub selection: Option<String>,
    pub selection_background: Option<String>,
    pub bold_use_default: bool,
    pub bold: Option<String>,
    pub bold_is_bright: bool,
}

/// Whether each color text of a [`ColorInputs`] names a color. An entry for a
/// text that is absent is not read.
#[derive(Clone, Copy, Debug, PartialEq, Eq, Structural)]
pub struct ColorReadability {
    /// Whether the palette holds sixteen readable colors before anything else.
    pub palette: bool,
    pub foreground: bool,
    pub background: bool,
    pub custom_foreground: bool,
    pub custom_background: bool,
    pub cursor_foreground: bool,
    pub cursor: bool,
    pub selection: bool,
    pub selection_background: bool,
    pub bold: bool,
}

/// Where a foreground or background color comes from.
#[derive(Clone, Copy, Debug, PartialEq, Eq, Structural)]
pub enum ColorSource {
    /// The tab's own color.
    Custom,
    /// The preference color.
    Preference,
    /// The theme's color.
    Theme,
    /// The background a previous vary-background pass remembered.
    Stored,
}

/// The colors handed to VTE, by where each comes from. A `true` optional slot
/// takes the color its text names; `false` leaves the slot unset.
#[derive(Clone, Copy, Debug, PartialEq, Eq, Structural)]
pub struct ColorPlan {
    pub foreground: Option<ColorSource>,
    /// The background, always opaque.
    pub background: Option<ColorSource>,
    /// Whether the preference palette is used; otherwise VTE's default one is.
    pub palette: bool,
    pub cursor_configured: bool,
    pub cursor_foreground: bool,
    pub cursor: bool,
    pub selection_configured: bool,
    pub selection_foreground: bool,
    pub selection_background: bool,
    pub bold: bool,
    pub bold_is_bright: bool,
}

/// The values of a [`ColorInputs`] the decision depends on: which texts are
/// present, and the switches.
pub struct ColorFacts {
    pub has_palette: bool,
    pub has_foreground: bool,
    pub has_background: bool,
    pub use_theme: bool,
    pub background_vary: bool,
    pub has_custom_foreground: bool,
    pub has_custom_background: bool,
    pub has_stored_background: bool,
    pub cursor_use_default: bool,
    pub has_cursor_foreground: bool,
    pub has_cursor: bool,
    pub selection_use_default: bool,
    pub has_selection: bool,
    pub has_selection_background: bool,
    pub bold_use_default: bool,
    pub has_bold: bool,
    pub bold_is_bright: bool,
}

impl View for ColorInputs {
    type V = ColorFacts;

    open spec fn view(&self) -> ColorFacts {
        ColorFacts {
            has_palette: self.palette is Some,
            has_foreground: self.foreground is Some,
            has_background: self.background is Some,
            use_theme: self.use_theme,
            background_vary: self.background_vary,
            has_custom_foreground: self.custom_foreground is Some,
            has_custom_background: self.custom_background is Some,
            has_stored_background: self.has_stored_background,
            cursor_use_default: self.cursor_use_default,
            has_cursor_foreground: self.cursor_foreground is Some,
            has_cursor: self.cursor is Some,
            selection_use_default: self.selection_use_default,
            has_selection: self.selection is Some,
            has_selection_background: self.selection_background is Some,
            bold_use_default: self.bold_use_default,
            has_bold: self.bold is Some,
            bold_is_bright: self.bold_is_bright,
        }
    }
}

/// The foreground: a tab's custom color when it reads (none when it does
/// not); otherwise the theme's when the theme is asked for or the preference
/// does not read, else the preference.
pub open spec fn foreground_source(f: ColorFacts, r: ColorReadability) -> Option<ColorSource> {
    if f.has_custom_foreground {
        if r.custom_foreground { Some(ColorSource::Custom) } else { None }
    } else if f.use_theme || !(f.has_foreground && r.foreground) {
        Some(ColorSource::Theme)
    } else {
        Some(ColorSource::Preference)
    }
}

/// The background: as the foreground, except that a varying background reuses
/// the one an earlier pass remembered.
pub open spec fn background_source(f: ColorFacts, r: ColorReadability) -> Option<ColorSource> {
    if f.has_custom_background {
        if r.custom_background { Some(ColorSource::Custom) } else { None }
    } else if f.background_vary && f.has_stored_background {
        Some(ColorSource::Stored)
    } else if f.use_theme || !(f.has_background && r.background) {
        Some(ColorSource::Theme)
    } else {
        Some(ColorSource::Preference)
    }
}

/// The whole decision.
pub open spec fn plan_of(f: ColorFacts, r: ColorReadability) -> ColorPlan {
    ColorPlan {
        foreground: foreground_source(f, r),
        background: background_source(f, r),
        palette: f.has_palette && r.palette,
        cursor_configured: !f.cursor_use_default,
        cursor_foreground: !f.cursor_use_default && f.has_cursor_foreground && r.cursor_foreground,
        cursor: !f.cursor_use_default && f.has_cursor && r.cursor,
        selection_configured: !f.selection_use_default,
        selection_foreground: !f.selection_use_default && f.has_selection && r.selection,
        selection_background: !f.selection_use_default && f.has_selection_background && r.selection_background,
        bold: !f.bold_use_default && f.has_bold && r.bold,
        bold_is_bright: f.bold_is_bright,
    }
}

/// Decides where each color VTE receives comes from.
pub fn color_plan(inputs: &ColorInputs, readable: &ColorReadability) -> (plan: ColorPlan)
    ensures
        plan == plan_of(inputs@, *readable),
{
    let foreground = if inputs.custom_foreground.is_some() {
        if readable.custom_foreground { Some(ColorSource::Custom) } else { None }
    } else if inputs.use_theme || !(inputs.foreground.is_some() && readable.foreground) {
        Some(ColorSource::Theme)
    } else {
        Some(ColorSource::Preference)
    };
    let background = if inputs.custom_background.is_some() {
        if readable.custom_background { Some(ColorSource::Custom) } else { None }
    } else if inputs.background_vary && inputs.has_stored_background {
        Some(ColorSource::Stored)
    } else if inputs.use_theme || !(inputs.background.is_some() && readable.background) {
        Some(ColorSource::Theme)
    } else {
        Some(ColorSource::Preference)
    };
    let cursor_configured = !inputs.cursor_use_default;
    let selection_configured = !inputs.selection_use_default;
    ColorPlan {
        foreground,
        background,
        palette: inputs.palette.is_some() && readable.palette,
        cursor_configured,
        cursor_foreground: cursor_configured && inputs.cursor_foreground.is_some() && readable.cursor_foreground,
        cursor: cursor_configured && inputs.cursor.is_some() && readable.cursor,
        selection_configured,
        selection_foreground: selection_configured && inputs.selection.is_some() && readable.selection,
        selection_background: selection_configured && inputs.selection_background.is_some()
            && readable.selection_background,
        bold: !inputs.bold_use_default && inputs.bold.is_some() && readable.bold,
        bold_is_bright: inputs.bold_is_bright,
    }
}

/// The number of colors a palette holds.
pub const PALETTE_SIZE: usize = 16;

/// The `;`-separated entries of a palette text, in order; the text between
/// two separators may be empty.
pub open spec fn palette_fields(text: Seq<char>) -> Seq<Seq<char>>
    decreases text.len(),
{
    if text.len() == 0 {
        seq![Seq::empty()]
    } else {
        let rest = palette_fields(text.drop_last());
        if text.last() == ';' {
            rest.push(Seq::empty())
        } else {
            rest.update(rest.len() - 1, rest.last().push(text.last()))
        }
    }
}

proof fn lemma_palette_fields_nonempty(text: Seq<char>)
    ensures
        palette_fields(text).len() >= 1,
    decreases text.len(),
{
    if text.len() > 0 {
        lemma_palette_fields_nonempty(text.drop_last());
    }
}

/// Splits a palette text at its separators.
pub fn palette_entries(text: &str) -> (entries: Vec<String>)
    ensures
        entries@.map_values(|e: String| e@) == palette_fields(text@),
{
    let n = text.unicode_len();
    let mut entries: Vec<String> = Vec::new();
    let mut current = String::new();
    let mut i: usize = 0;
    while i < n
        invariant
            n == text@.len(),
            i <= n,
            entries@.map_values(|e: String| e@).push(current@) == palette_fields(text@.take(i as int)),
        decreases n - i,
    {
        let c = text.get_char(i);
        let ghost before = entries@.map_values(|e: String| e@).push(current@);
        proof { lemma_palette_fields_nonempty(text@.take(i as int)); }
        assert(text@.take(i + 1).drop_last() =~= text@.take(i as int));
        assert(text@.take(i + 1).last() == c);
        if c == ';' {
            let done = current;
            let ghost prev = entries@;
            entries.push(done);
            assert(entries@.map_values(|e: String| e@) =~= prev.map_values(|e: String| e@).push(done@));
            current = String::new();
            assert(entries@.map_values(|e: String| e@).push(current@) =~= before.push(Seq::empty()));
        } else {
            current.push(c);
            assert(entries@.map_values(|e: String| e@).push(current@) =~= before.update(
                before.len() - 1,
                before.last().push(c),
            ));
        }
        i = i + 1;
    }
    let ghost prev = entries@;
    let last = current;
    entries.push(last);
    assert(entries@.map_values(|e: String| e@) =~= prev.map_values(|e: String| e@).push(last@));
    assert(text@.take(n as int) =~= text@);
    entries
}

/// Whether a palette is usable, given for each of its entries in order
/// whether it names a color: its first sixteen entries have to, and there have
/// to be sixteen.
pub open spec fn palette_usable(readable: Seq<bool>) -> bool {
    readable.len() >= PALETTE_SIZE && forall|i: int| 0 <= i < PALETTE_SIZE ==> readable[i]
}

/// Decides whether a palette is usable from the readability of its entries.
pub fn palette_valid(readable: &[bool]) -> (valid: bool)
    ensures
        valid == palette_usable(readable@),
{
    if readable.len() < PALETTE_SIZE {
        return false;
    }
    let mut i: usize = 0;
    while i < PALETTE_SIZE
        invariant
            readable@.len() >= PALETTE_SIZE,
            i <= PALETTE_SIZE,
            forall|j: int| 0 <= j < i ==> readable@[j],
        decreases PALETTE_SIZE - i,
    {
        if !readable[i] {
            return false;
        }
        i = i + 1;
    }
    true
}

/// The palette an untouched preference channel holds.
pub const DEFAULT_PALETTE: &'static str = "#000000;#aa0000;#00aa00;#aa5500;#0000aa;#aa00aa;#00aaaa;#aaaaaa;#555555;#ff5555;#55ff55;#ffff55;#5555ff;#ff55ff;#55ffff;#ffffff";

impl ColorInputs {
    /// The settings of an untouched preference channel.
    pub fn defaults() -> (inputs: ColorInputs)
        ensures
            inputs.palette matches Some(p) && p@ == DEFAULT_PALETTE@,
            inputs.foreground matches Some(c) && c@ == "#ffffff"@,
            inputs.background matches Some(c) && c@ == "#000000"@,
            !inputs.use_theme,
            !inputs.background_vary,
            inputs.custom_foreground is None,
            inputs.custom_background is None,
            !inputs.has_stored_background,
            inputs.cursor_use_default,
            inputs.cursor_foreground is None,
            inputs.cursor is None,
            inputs.selection_use_default,
            inputs.selection is None,
            inputs.selection_background is None,
            inputs.bold_use_default,
            inputs.bold is None,
            inputs.bold_is_bright,
    {
        ColorInputs {
            palette: Some(String::from_str(DEFAULT_PALETTE)),
            foreground: Some(String::from_str("#ffffff")),
            background: Some(String::from_str("#000000")),
            use_theme: false,
            background_vary: false,
            custom_foreground: None,
            custom_background: None,
            has_stored_background: false,
            cursor_use_default: true,
            cursor_foreground: None,
            cursor: None,
            selection_use_default: true,
            selection: None,
            selection_background: None,
            bold_use_default: true,
            bold: None,
            bold_is_bright: true,
        }
    }
}

/// A tab's custom colors win over the preference and the theme whenever they
/// read; a custom color that does not read leaves its slot unset rather than
/// falling back.
pub proof fn lemma_custom_colors_win(f: ColorFacts, r: ColorReadability)
    ensures
        f.has_custom_foreground ==> foreground_source(f, r) == (if r.custom_foreground {
            Some(ColorSource::Custom)
        } else {
            None::<ColorSource>
        }),
        f.has_custom_background ==> background_source(f, r) == (if r.custom_background {
            Some(ColorSource::Custom)
        } else {
            None::<ColorSource>
        }),
        !f.has_custom_foreground ==> foreground_source(f, r) is Some,
        !f.has_custom_background ==> background_source(f, r) is Some,
{
}

/// The optional slots stay unset while their "use default" switch is on.
pub proof fn lemma_defaults_leave_slots_unset(f: ColorFacts, r: ColorReadability)
    ensures
        f.cursor_use_default ==> !plan_of(f, r).cursor_foreground && !plan_of(f, r).cursor,
        f.selection_use_default ==> !plan_of(f, r).selection_foreground && !plan_of(f, r).selection_background,
        f.bold_use_default ==> !plan_of(f, r).bold,
{
}


/// Each optional color slot is set exactly when its own setting is switched
/// on (its "use default" switch off), its own text is present and that text
/// reads: the cursor color does not wait for a cursor foreground, nor the
/// selection background for a selection foreground. The palette is used
/// exactly when its text is present and reads, and the configured switches and
/// bold-is-bright are taken as they are.
pub proof fn lemma_each_slot_follows_its_own_color(f: ColorFacts, r: ColorReadability)
    ensures
        plan_of(f, r).cursor_configured == !f.cursor_use_default,
        plan_of(f, r).cursor == (!f.cursor_use_default && f.has_cursor && r.cursor),
        plan_of(f, r).cursor_foreground == (!f.cursor_use_default && f.has_cursor_foreground && r.cursor_foreground),
        plan_of(f, r).selection_configured == !f.selection_use_default,
        plan_of(f, r).selection_foreground == (!f.selection_use_default && f.has_selection && r.selection),
        plan_of(f, r).selection_background
            == (!f.selection_use_default && f.has_selection_background && r.selection_background),
        plan_of(f, r).bold == (!f.bold_use_default && f.has_bold && r.bold),
        plan_of(f, r).palette == (f.has_palette && r.palette),
        plan_of(f, r).bold_is_bright == f.bold_is_bright,
{
}

/// The cursor slot does not depend on the cursor foreground: two inputs that
/// differ only in the cursor foreground, and in whether it reads, give the
/// same cursor slot.
pub proof fn lemma_cursor_ignores_cursor_foreground(
    f: ColorFacts,
    r: ColorReadability,
    has_cursor_foreground: bool,
    cursor_foreground_reads: bool,
)
    ensures
        plan_of(ColorFacts { has_cursor_foreground, ..f }, ColorReadability { cursor_foreground: cursor_foreground_reads, ..r }).cursor
            == plan_of(f, r).cursor,
{
}

/// Where the foreground and background come from: a tab's custom color when it
/// is set and reads, nothing when it is set and does not read; otherwise the
/// theme when it is asked for or the preference color does not read, and the
/// preference color when it reads and the theme is not asked for. A varying
/// background reuses a remembered one before looking at the theme or the
/// preference.
pub proof fn lemma_color_sources(f: ColorFacts, r: ColorReadability)
    ensures
        f.has_custom_foreground && r.custom_foreground ==> plan_of(f, r).foreground == Some(ColorSource::Custom),
        f.has_custom_foreground && !r.custom_foreground ==> plan_of(f, r).foreground is None,
        !f.has_custom_foreground && !f.use_theme && f.has_foreground && r.foreground
            ==> plan_of(f, r).foreground == Some(ColorSource::Preference),
        !f.has_custom_foreground && (f.use_theme || !f.has_foreground || !r.foreground)
            ==> plan_of(f, r).foreground == Some(ColorSource::Theme),
        f.has_custom_background && r.custom_background ==> plan_of(f, r).background == Some(ColorSource::Custom),
        f.has_custom_background && !r.custom_background ==> plan_of(f, r).background is None,
        !f.has_custom_background && f.background_vary && f.has_stored_background
            ==> plan_of(f, r).background == Some(ColorSource::Stored),
        !f.has_custom_background && !(f.background_vary && f.has_stored_background) && !f.use_theme
            && f.has_background && r.background ==> plan_of(f, r).background == Some(ColorSource::Preference),
        !f.has_custom_background && !(f.background_vary && f.has_stored_background)
            && (f.use_theme || !f.has_background || !r.background)
            ==> plan_of(f, r).background == Some(ColorSource::Theme),
{
}
} // verus!
