//! The decisions of preference storage that do not touch the channel: which
//! legacy file is imported, and how a legacy text becomes a value.

use vstd::prelude::*;
use vstd::string::StringSliceAdditionalSpecFns;

use crate::accelerators::joined;
use crate::bytes::{append_bytes, copy_bytes};
use crate::child::opt_bytes;
pub use crate::preference_schema::{
    default_setting, legacy_value, legacy_writes, parse_definition, preference_definitions, value_valid, LegacyEntry,
    PreferenceDefinition, PreferenceKind, SettingValue,
};
use crate::fields::{first_index, lemma_first_index_exact, same_text};

verus! {

/// An invalid preference request or a failure of the preference service.
#[derive(Clone, Debug, PartialEq)]
pub struct PreferenceError(pub String);

impl PreferenceError {
    /// Returns the message the error carries.
    pub fn message(&self) -> (m: String)
        ensures
            m@ == self.0@,
    {
        String::from_str(self.0.as_str())
    }
}

/// The legacy configuration file a new channel imports.
#[derive(Clone, Copy, Debug, PartialEq, Eq, Structural)]
pub enum LegacySource {
    /// `xfce4/terminal/terminalrc` below the configuration directory.
    Current,
    /// `Terminal/terminalrc`, whose palette is stored in sixteen keys.
    Old,
}

/// The number of palette entries an old terminalrc stores one by one.
pub const LEGACY_PALETTE_SIZE: usize = 16;

/// Chooses the legacy file to import: none for a channel that already
/// existed, else the current file before the old one.
pub open spec fn legacy_choice(channel_existed: bool, current_is_file: bool, old_is_file: bool) -> Option<LegacySource> {
    if channel_existed {
        None
    } else if current_is_file {
        Some(LegacySource::Current)
    } else if old_is_file {
        Some(LegacySource::Old)
    } else {
        None
    }
}

/// Chooses the legacy file a new channel imports.
pub fn legacy_source(channel_existed: bool, current_is_file: bool, old_is_file: bool) -> (source: Option<LegacySource>)
    ensures
        source == legacy_choice(channel_existed, current_is_file, old_is_file),
{
    if channel_existed {
        None
    } else if current_is_file {
        Some(LegacySource::Current)
    } else if old_is_file {
        Some(LegacySource::Old)
    } else {
        None
    }
}

/// A legacy boolean is true unless it is spelled `FALSE`.
pub fn legacy_boolean(source: &str) -> (value: bool)
    ensures
        value == (source@ != "FALSE"@),
{
    !same_text(source, "FALSE")
}

/// A legacy enumeration keeps a known value and falls back to the first one.
pub open spec fn legacy_choice_of(values: Seq<Seq<char>>, source: Seq<char>) -> Seq<char> {
    if values.contains(source) { source } else { values[0] }
}

/// Reads a legacy enumeration value: a known value is kept, anything else
/// becomes the first value of the enumeration.
pub fn legacy_enumeration<'a>(values: &[&'a str], source: &str) -> (value: &'a str)
    requires
        values@.len() > 0,
    ensures
        value@ == legacy_choice_of(values@.map_values(|v: &'a str| v@), source@),
{
    let ghost texts = values@.map_values(|v: &'a str| v@);
    let mut i: usize = 0;
    while i < values.len()
        invariant
            texts == values@.map_values(|v: &'a str| v@),
            i <= values@.len(),
            forall|j: int| 0 <= j < i ==> texts[j] != source@,
        decreases values@.len() - i,
    {
        if same_text(values[i], source) {
            assert(texts[i as int] == source@);
            return values[i];
        }
        i = i + 1;
    }
    assert(!texts.contains(source@));
    values[0]
}

/// Colors joined with `;`, the form the palette preference stores.
pub open spec fn joined_palette(colors: Seq<Seq<char>>) -> Seq<char>
    decreases colors.len(),
{
    if colors.len() == 0 {
        Seq::empty()
    } else if colors.len() == 1 {
        colors[0]
    } else {
        joined_palette(colors.drop_last()) + ";"@ + colors.last()
    }
}

/// The two bounds of a `minimum:maximum` range, split at its first `:`.
pub open spec fn range_bounds(range: Seq<char>, at: int) -> (Seq<char>, Seq<char>) {
    (range.take(at), range.skip(at + 1))
}

/// Splits a bounded preference range at its first `:`.
pub fn parse_range(range: &str) -> (bounds: (&str, &str))
    requires
        exists|i: int| 0 <= i < range@.len() && range@[i] == ':',
    ensures
        first_index(range@, ':', 0) < range@.len(),
        (bounds.0@, bounds.1@) == range_bounds(range@, first_index(range@, ':', 0)),
{
    let n = range.unicode_len();
    let mut i: usize = 0;
    while i < n
        invariant
            n == range@.len(),
            i <= n,
            forall|j: int| 0 <= j < i ==> range@[j] != ':',
            exists|k: int| 0 <= k < range@.len() && range@[k] == ':',
        decreases n - i,
    {
        if range.get_char(i) == ':' {
            let low = range.substring_char(0, i);
            let high = range.substring_char(i + 1, n);
            proof { lemma_first_index_exact(range@, ':', 0, i as int); }
            assert(range@.take(i as int) =~= range@.subrange(0, i as int));
            assert(range@.skip(i + 1) =~= range@.subrange(i + 1, n as int));
            return (low, high);
        }
        i = i + 1;
    }
    assert(false);
    ("", "")
}


/// How many entries lead `values` before the first missing one.
pub open spec fn leading_present(values: Seq<Option<Seq<char>>>) -> nat
    decreases values.len(),
{
    if values.len() == 0 || values[0] is None {
        0
    } else {
        1 + leading_present(values.skip(1))
    }
}

/// The texts of the first `n` entries, all present.
pub open spec fn present_texts(values: Seq<Option<Seq<char>>>, n: int) -> Seq<Seq<char>> {
    Seq::new(n as nat, |i: int| values[i]->0)
}

/// The palette an old terminalrc yields from its `ColorPalette1` to
/// `ColorPalette16` keys, read in order up to the first missing one: all
/// sixteen joined with `;`, or the first fifteen joined and followed by a `;`
/// when only the last is missing; otherwise no palette.
pub open spec fn legacy_palette_text(values: Seq<Option<Seq<char>>>) -> Option<Seq<char>> {
    let n = leading_present(values);
    if n >= LEGACY_PALETTE_SIZE {
        Some(joined_palette(present_texts(values, LEGACY_PALETTE_SIZE as int)))
    } else if n == LEGACY_PALETTE_SIZE - 1 {
        Some(joined_palette(present_texts(values, n as int)) + ";"@)
    } else {
        None
    }
}

proof fn lemma_leading_present(values: Seq<Option<Seq<char>>>, k: int)
    requires
        0 <= k <= values.len(),
        forall|i: int| 0 <= i < k ==> values[i] is Some,
        k == values.len() || values[k] is None,
    ensures
        leading_present(values) == k,
    decreases k,
{
    if k > 0 {
        lemma_leading_present(values.skip(1), k - 1);
    }
}

/// Reads the palette of an old terminalrc from what its sixteen palette keys
/// hold, in order.
pub fn legacy_palette(values: &[Option<String>]) -> (palette: Option<String>)
    ensures
        match palette {
            Some(p) => legacy_palette_text(values@.map_values(|v: Option<String>| match v {
                Some(s) => Some(s@),
                None => None,
            })) == Some(p@),
            None => legacy_palette_text(values@.map_values(|v: Option<String>| match v {
                Some(s) => Some(s@),
                None => None,
            })) is None,
        },
{
    let ghost texts = values@.map_values(|v: Option<String>| match v {
        Some(s) => Some(s@),
        None => None,
    });
    let mut k: usize = 0;
    while k < values.len() && values[k].is_some()
        invariant
            texts == values@.map_values(|v: Option<String>| match v {
                Some(s) => Some(s@),
                None => None,
            }),
            k <= values@.len(),
            forall|i: int| 0 <= i < k ==> texts[i] is Some,
        decreases values@.len() - k,
    {
        k = k + 1;
    }
    proof { lemma_leading_present(texts, k as int); }
    if k < LEGACY_PALETTE_SIZE - 1 {
        return None;
    }
    let count: usize = if k >= LEGACY_PALETTE_SIZE { LEGACY_PALETTE_SIZE } else { k };
    let mut palette = String::new();
    let mut i: usize = 0;
    while i < count
        invariant
            texts == values@.map_values(|v: Option<String>| match v {
                Some(s) => Some(s@),
                None => None,
            }),
            count <= k <= values@.len(),
            forall|j: int| 0 <= j < k ==> texts[j] is Some,
            i <= count,
            palette@ == joined_palette(present_texts(texts, i as int)),
        decreases count - i,
    {
        if i > 0 {
            palette.append(";");
        }
        match &values[i] {
            Some(color) => palette.append(color.as_str()),
            None => {},
        }
        i = i + 1;
        assert(present_texts(texts, i as int).drop_last() =~= present_texts(texts, i - 1));
        if i == 1 {
            assert(palette@ =~= joined_palette(present_texts(texts, 1)));
        }
    }
    if count < LEGACY_PALETTE_SIZE {
        palette.append(";");
    }
    Some(palette)
}

/// The configuration directory: `XDG_CONFIG_HOME` when it is an absolute
/// path, else `.config` below `HOME`; an error when neither is usable.
pub open spec fn config_directory(xdg_config_home: Option<Seq<u8>>, home: Option<Seq<u8>>) -> Result<Seq<u8>, Seq<char>> {
    match xdg_config_home {
        Some(x) if x.len() > 0 && x[0] == 47u8 => Ok(x),
        _ => match home {
            Some(h) => Ok(joined(h, ".config".spec_bytes())),
            None => Err("HOME is not set"@),
        },
    }
}

/// Resolves the configuration directory from the values of
/// `XDG_CONFIG_HOME` and `HOME`.
pub fn config_home(xdg_config_home: Option<&[u8]>, home: Option<&[u8]>) -> (directory: Result<Vec<u8>, PreferenceError>)
    ensures
        match directory {
            Ok(d) => config_directory(opt_bytes(xdg_config_home), opt_bytes(home)) == Ok::<Seq<u8>, Seq<char>>(d@),
            Err(e) => config_directory(opt_bytes(xdg_config_home), opt_bytes(home)) == Err::<Seq<u8>, Seq<char>>(e.0@),
        },
{
    match xdg_config_home {
        Some(x) => {
            if x.len() > 0 && x[0] == 47u8 {
                return Ok(copy_bytes(x));
            }
        },
        None => {},
    }
    match home {
        Some(h) => {
            let mut directory = copy_bytes(h);
            if h.len() > 0 && h[h.len() - 1] != 47u8 {
                directory.push(47u8);
            }
            append_bytes(&mut directory, ".config".as_bytes());
            assert(directory@ =~= joined(h@, ".config".spec_bytes()));
            Ok(directory)
        },
        None => Err(PreferenceError(String::from_str("HOME is not set"))),
    }
}
} // verus!
