//! The preference schema as its definition contract states it, the values
//! each preference accepts, and the values an old terminalrc contributes to a
//! new channel.
//!
//! A definition line holds five fields separated by tabs: the Xfconf name,
//! the type (`boolean`, `string`, `uint`, `double` or `enum:` and the GType
//! name), the default (`<null>` for none), the domain (`minimum:maximum` for
//! numbers, the accepted constants separated by `,` for enumerations) and the
//! old terminalrc key. A double bound, and a double value, travel as text:
//! whether a double lies in its range is answered by the caller.

use vstd::prelude::*;
use vstd::string::StringSliceAdditionalSpecFns;

use crate::accelerators::{contract_lines, text_lines};
use crate::fields::{
    find_char, first_index, has_prefix, is_u32_text, lemma_first_index_bounds,
    lemma_pieces_nonempty, pieces, read_u32, same_text, split_text, starts_with, u32_value,
};
use crate::preferences::{legacy_boolean, legacy_choice_of, legacy_enumeration, parse_range, range_bounds};

verus! {

/// The storage type and validation domain of one preference.
#[derive(Clone, Debug, PartialEq)]
pub enum PreferenceKind {
    Boolean,
    String,
    Unsigned { minimum: u32, maximum: u32 },
    /// A double, its bounds kept as the text the definition gives.
    Double { minimum: &'static str, maximum: &'static str },
    Enumeration { gtype: &'static str, values: Vec<&'static str> },
}

/// One entry in the preference schema.
#[derive(Clone, Debug, PartialEq)]
pub struct PreferenceDefinition {
    pub name: &'static str,
    pub kind: PreferenceKind,
    pub default: Option<&'static str>,
    pub legacy_key: &'static str,
}

/// A value to store for a preference, a double carried as its text.
#[derive(Clone, Debug, PartialEq)]
pub enum SettingValue {
    Boolean(bool),
    /// A string, or none to return the preference to its default.
    String(Option<String>),
    Unsigned(u32),
    Double(String),
    Enumeration(String),
}

/// The value of a [`PreferenceKind`].
pub enum KindModel {
    Boolean,
    String,
    Unsigned { minimum: u32, maximum: u32 },
    Double { minimum: Seq<char>, maximum: Seq<char> },
    Enumeration { gtype: Seq<char>, values: Seq<Seq<char>> },
}

/// The value of a [`PreferenceDefinition`].
pub struct PreferenceModel {
    pub name: Seq<char>,
    pub kind: KindModel,
    pub default: Option<Seq<char>>,
    pub legacy_key: Seq<char>,
}

/// The value of a [`SettingValue`].
pub enum ValueModel {
    Boolean(bool),
    String(Option<Seq<char>>),
    Unsigned(u32),
    Double(Seq<char>),
    Enumeration(Seq<char>),
}

pub open spec fn texts(values: Seq<&'static str>) -> Seq<Seq<char>> {
    values.map_values(|v: &'static str| v@)
}

impl View for PreferenceKind {
    type V = KindModel;

    open spec fn view(&self) -> KindModel {
        match self {
            PreferenceKind::Boolean => KindModel::Boolean,
            PreferenceKind::String => KindModel::String,
            PreferenceKind::Unsigned { minimum, maximum } => KindModel::Unsigned { minimum: *minimum, maximum: *maximum },
            PreferenceKind::Double { minimum, maximum } => KindModel::Double { minimum: minimum@, maximum: maximum@ },
            PreferenceKind::Enumeration { gtype, values } => KindModel::Enumeration {
                gtype: gtype@,
                values: texts(values@),
            },
        }
    }
}

impl View for PreferenceDefinition {
    type V = PreferenceModel;

    open spec fn view(&self) -> PreferenceModel {
        PreferenceModel {
            name: self.name@,
            kind: self.kind@,
            default: match self.default {
                Some(d) => Some(d@),
                None => None,
            },
            legacy_key: self.legacy_key@,
        }
    }
}

impl View for SettingValue {
    type V = ValueModel;

    open spec fn view(&self) -> ValueModel {
        match self {
            SettingValue::Boolean(b) => ValueModel::Boolean(*b),
            SettingValue::String(s) => ValueModel::String(match s {
                Some(s) => Some(s@),
                None => None,
            }),
            SettingValue::Unsigned(u) => ValueModel::Unsigned(*u),
            SettingValue::Double(d) => ValueModel::Double(d@),
            SettingValue::Enumeration(e) => ValueModel::Enumeration(e@),
        }
    }
}

/// The two bounds of a numeric domain, split at its first `:`.
pub open spec fn domain_bounds(domain: Seq<char>) -> (Seq<char>, Seq<char>) {
    range_bounds(domain, first_index(domain, ':', 0))
}

/// Whether a numeric domain holds the `:` between its bounds.
pub open spec fn has_bounds(domain: Seq<char>) -> bool {
    first_index(domain, ':', 0) < domain.len()
}

/// Whether the type and domain fields of a definition line name a kind: a
/// known type, with a range for numbers whose unsigned bounds are `u32` texts.
pub open spec fn known_kind(type_field: Seq<char>, domain: Seq<char>) -> bool {
    if type_field == "boolean"@ || type_field == "string"@ {
        true
    } else if type_field == "uint"@ {
        has_bounds(domain) && is_u32_text(domain_bounds(domain).0) && is_u32_text(domain_bounds(domain).1)
    } else if type_field == "double"@ {
        has_bounds(domain)
    } else {
        starts_with(type_field, "enum:"@)
    }
}

/// The kind the type and domain fields of a definition line name.
pub open spec fn line_kind(type_field: Seq<char>, domain: Seq<char>) -> KindModel {
    if type_field == "boolean"@ {
        KindModel::Boolean
    } else if type_field == "string"@ {
        KindModel::String
    } else if type_field == "uint"@ {
        KindModel::Unsigned {
            minimum: u32_value(domain_bounds(domain).0) as u32,
            maximum: u32_value(domain_bounds(domain).1) as u32,
        }
    } else if type_field == "double"@ {
        KindModel::Double { minimum: domain_bounds(domain).0, maximum: domain_bounds(domain).1 }
    } else {
        KindModel::Enumeration {
            gtype: type_field.skip("enum:"@.len() as int),
            values: pieces(domain, ','),
        }
    }
}

/// Whether a line is a definition: five fields of a known kind.
pub open spec fn well_formed_line(line: Seq<char>) -> bool {
    let f = pieces(line, '\t');
    f.len() == 5 && known_kind(f[1], f[3])
}

/// The definition a well-formed line states.
pub open spec fn line_definition(line: Seq<char>) -> PreferenceModel {
    let f = pieces(line, '\t');
    PreferenceModel {
        name: f[0],
        kind: line_kind(f[1], f[3]),
        default: if f[2] == "<null>"@ { None } else { Some(f[2]) },
        legacy_key: f[4],
    }
}

/// Reads one definition line, or `None` when the line is not one.
pub fn parse_definition(line: &'static str) -> (definition: Option<PreferenceDefinition>)
    ensures
        match definition {
            Some(d) => well_formed_line(line@) && d@ == line_definition(line@),
            None => !well_formed_line(line@),
        },
{
    let fields = split_text(line, '\t');
    let ghost f = pieces(line@, '\t');
    if fields.len() != 5 {
        return None;
    }
    let name = fields[0];
    let type_field = fields[1];
    let default = fields[2];
    let domain = fields[3];
    let legacy_key = fields[4];
    assert(name@ == f[0] && type_field@ == f[1] && default@ == f[2] && domain@ == f[3] && legacy_key@ == f[4]);
    let kind = if same_text(type_field, "boolean") {
        PreferenceKind::Boolean
    } else if same_text(type_field, "string") {
        PreferenceKind::String
    } else if same_text(type_field, "uint") || same_text(type_field, "double") {
        let unsigned = same_text(type_field, "uint");
        if find_char(domain, ':') >= domain.unicode_len() {
            return None;
        }
        proof { lemma_first_index_bounds(domain@, ':', 0); }
        let (low, high) = parse_range(domain);
        if unsigned {
            match (read_u32(low), read_u32(high)) {
                (Some(minimum), Some(maximum)) => PreferenceKind::Unsigned { minimum, maximum },
                _ => return None,
            }
        } else {
            PreferenceKind::Double { minimum: low, maximum: high }
        }
    } else if has_prefix(type_field, "enum:") {
        let skip = "enum:".unicode_len();
        let gtype = type_field.substring_char(skip, type_field.unicode_len());
        assert(gtype@ =~= f[1].skip("enum:"@.len() as int));
        PreferenceKind::Enumeration { gtype, values: split_text(domain, ',') }
    } else {
        return None;
    };
    let default = if same_text(default, "<null>") { None } else { Some(default) };
    Some(PreferenceDefinition { name, kind, default, legacy_key })
}

/// Reads the definition contract, one definition per line. Every line has to
/// be a definition.
pub fn preference_definitions(contract: &'static str) -> (definitions: Vec<PreferenceDefinition>)
    requires
        forall|k: int| 0 <= k < text_lines(contract@, 0).len() ==> well_formed_line(#[trigger] text_lines(contract@, 0)[k]),
    ensures
        definitions@.len() == text_lines(contract@, 0).len(),
        forall|k: int| 0 <= k < definitions@.len() ==> #[trigger] definitions@[k]@ == line_definition(text_lines(contract@, 0)[k]),
{
    let lines = contract_lines(contract);
    let ghost all = text_lines(contract@, 0);
    let mut definitions: Vec<PreferenceDefinition> = Vec::new();
    let mut i: usize = 0;
    while i < lines.len()
        invariant
            lines@.map_values(|l: &'static str| l@) == all,
            all == text_lines(contract@, 0),
            forall|k: int| 0 <= k < all.len() ==> well_formed_line(#[trigger] all[k]),
            i <= lines@.len(),
            definitions@.len() == i,
            forall|k: int| 0 <= k < i ==> #[trigger] definitions@[k]@ == line_definition(all[k]),
        decreases lines@.len() - i,
    {
        assert(lines@[i as int]@ == all[i as int]);
        assert(well_formed_line(all[i as int]));
        match parse_definition(lines[i]) {
            Some(d) => definitions.push(d),
            None => {},
        }
        i = i + 1;
    }
    definitions
}


/// Whether a preference of kind `kind` accepts `value`: a value of its own
/// type; for an unsigned preference, a number within its bounds; for a double,
/// one that lies in its range (`double_in_range`, answered by the caller, as
/// is that it is finite); for an enumeration, one of its constants.
pub open spec fn valid_value(kind: KindModel, value: ValueModel, double_in_range: bool) -> bool {
    match kind {
        KindModel::Boolean => value is Boolean,
        KindModel::String => value is String,
        KindModel::Unsigned { minimum, maximum } => match value {
            ValueModel::Unsigned(v) => minimum <= v <= maximum,
            _ => false,
        },
        KindModel::Double { .. } => value is Double && double_in_range,
        KindModel::Enumeration { values, .. } => match value {
            ValueModel::Enumeration(v) => values.contains(v),
            _ => false,
        },
    }
}

fn contains_text(values: &Vec<&'static str>, text: &str) -> (found: bool)
    ensures
        found == texts(values@).contains(text@),
{
    let mut i: usize = 0;
    while i < values.len()
        invariant
            i <= values@.len(),
            forall|j: int| 0 <= j < i ==> texts(values@)[j] != text@,
        decreases values@.len() - i,
    {
        if same_text(values[i], text) {
            assert(texts(values@)[i as int] == text@);
            return true;
        }
        i = i + 1;
    }
    false
}

/// Checks a value before it is stored, as a write does: a wrong type, an
/// out-of-range number and an unknown enumeration constant are refused.
pub fn value_valid(kind: &PreferenceKind, value: &SettingValue, double_in_range: bool) -> (ok: bool)
    ensures
        ok == valid_value(kind@, value@, double_in_range),
{
    match kind {
        PreferenceKind::Boolean => match value {
            SettingValue::Boolean(_) => true,
            _ => false,
        },
        PreferenceKind::String => match value {
            SettingValue::String(_) => true,
            _ => false,
        },
        PreferenceKind::Unsigned { minimum, maximum } => match value {
            SettingValue::Unsigned(v) => *minimum <= *v && *v <= *maximum,
            _ => false,
        },
        PreferenceKind::Double { .. } => match value {
            SettingValue::Double(_) => double_in_range,
            _ => false,
        },
        PreferenceKind::Enumeration { values, .. } => match value {
            SettingValue::Enumeration(v) => contains_text(values, v.as_str()),
            _ => false,
        },
    }
}

/// Whether a definition has the default its kind needs: every kind but a
/// string has one, and an unsigned default is a `u32` text.
pub open spec fn has_default(d: PreferenceModel) -> bool {
    match d.kind {
        KindModel::String => true,
        KindModel::Unsigned { .. } => d.default is Some && is_u32_text(d.default->0),
        _ => d.default is Some,
    }
}

/// The value a preference holds while nothing is stored for it: a boolean
/// default is true only when spelled `true`, a missing string default stays
/// missing, and the other defaults are read as their kind.
pub open spec fn default_of(d: PreferenceModel) -> ValueModel {
    match d.kind {
        KindModel::Boolean => ValueModel::Boolean(d.default->0 == "true"@),
        KindModel::String => ValueModel::String(d.default),
        KindModel::Unsigned { .. } => ValueModel::Unsigned(u32_value(d.default->0) as u32),
        KindModel::Double { .. } => ValueModel::Double(d.default->0),
        KindModel::Enumeration { .. } => ValueModel::Enumeration(d.default->0),
    }
}

/// Returns the value a preference holds while nothing is stored for it.
pub fn default_setting(definition: &PreferenceDefinition) -> (value: SettingValue)
    requires
        has_default(definition@),
    ensures
        value@ == default_of(definition@),
{
    match &definition.kind {
        PreferenceKind::String => match definition.default {
            Some(text) => SettingValue::String(Some(String::from_str(text))),
            None => SettingValue::String(None),
        },
        kind => {
            let text = match definition.default {
                Some(text) => text,
                None => {
                    assert(false);
                    ""
                },
            };
            match kind {
                PreferenceKind::Boolean => SettingValue::Boolean(same_text(text, "true")),
                PreferenceKind::Unsigned { .. } => match read_u32(text) {
                    Some(number) => SettingValue::Unsigned(number),
                    None => SettingValue::Unsigned(0),
                },
                PreferenceKind::Double { .. } => SettingValue::Double(String::from_str(text)),
                _ => SettingValue::Enumeration(String::from_str(text)),
            }
        },
    }
}

/// Whether a kind can take a legacy value: an enumeration has a first constant.
pub open spec fn kind_valid(kind: KindModel) -> bool {
    match kind {
        KindModel::Enumeration { values, .. } => values.len() > 0,
        _ => true,
    }
}

/// What the text of an old terminalrc key becomes for a preference of kind
/// `kind`: a boolean is false only when spelled `FALSE`, a string is copied,
/// an unsigned number is `number` (what `strtoul` reads from the text), a
/// double keeps its text, and an unknown enumeration constant becomes the
/// first one.
pub open spec fn legacy_conversion(kind: KindModel, source: Seq<char>, number: u32) -> ValueModel {
    match kind {
        KindModel::Boolean => ValueModel::Boolean(source != "FALSE"@),
        KindModel::String => ValueModel::String(Some(source)),
        KindModel::Unsigned { .. } => ValueModel::Unsigned(number),
        KindModel::Double { .. } => ValueModel::Double(source),
        KindModel::Enumeration { values, .. } => ValueModel::Enumeration(legacy_choice_of(values, source)),
    }
}

/// Converts the text of an old terminalrc key for a preference of kind `kind`.
pub fn legacy_value(kind: &PreferenceKind, source: &str, number: u32) -> (value: SettingValue)
    requires
        kind_valid(kind@),
    ensures
        value@ == legacy_conversion(kind@, source@, number),
{
    match kind {
        PreferenceKind::Boolean => SettingValue::Boolean(legacy_boolean(source)),
        PreferenceKind::String => SettingValue::String(Some(String::from_str(source))),
        PreferenceKind::Unsigned { .. } => SettingValue::Unsigned(number),
        PreferenceKind::Double { .. } => SettingValue::Double(String::from_str(source)),
        PreferenceKind::Enumeration { values, .. } => {
            let chosen = legacy_enumeration(values.as_slice(), source);
            SettingValue::Enumeration(String::from_str(chosen))
        },
    }
}

/// What an old terminalrc holds for one preference: the text of its key,
/// what `strtoul` reads from that text, and whether the double read from it
/// is finite and lies in the preference's range.
#[derive(Clone, Debug, PartialEq)]
pub struct LegacyEntry {
    pub text: String,
    pub number: u32,
    pub double_in_range: bool,
}

/// The value of a [`LegacyEntry`].
pub struct EntryModel {
    pub text: Seq<char>,
    pub number: u32,
    pub double_in_range: bool,
}

impl View for LegacyEntry {
    type V = EntryModel;

    open spec fn view(&self) -> EntryModel {
        EntryModel { text: self.text@, number: self.number, double_in_range: self.double_in_range }
    }
}

pub open spec fn models(definitions: Seq<PreferenceDefinition>) -> Seq<PreferenceModel> {
    definitions.map_values(|d: PreferenceDefinition| d@)
}

pub open spec fn entry_models(entries: Seq<Option<LegacyEntry>>) -> Seq<Option<EntryModel>> {
    entries.map_values(|e: Option<LegacyEntry>| match e {
        Some(e) => Some(e@),
        None => None,
    })
}

pub open spec fn write_models(writes: Seq<(&'static str, SettingValue)>) -> Seq<(Seq<char>, ValueModel)> {
    writes.map_values(|w: (&'static str, SettingValue)| (w.0@, w.1@))
}

/// The writes a migration makes from the first `n` definitions, in order:
/// one for each definition whose old key is present, holding the converted
/// value, unless the preference refuses that value, which is skipped without
/// stopping the keys after it.
pub open spec fn planned_writes(definitions: Seq<PreferenceModel>, entries: Seq<Option<EntryModel>>, n: int) -> Seq<(Seq<char>, ValueModel)>
    decreases n,
{
    if n <= 0 {
        Seq::empty()
    } else {
        let earlier = planned_writes(definitions, entries, n - 1);
        match entries[n - 1] {
            None => earlier,
            Some(e) => {
                let d = definitions[n - 1];
                let v = legacy_conversion(d.kind, e.text, e.number);
                if valid_value(d.kind, v, e.double_in_range) {
                    earlier.push((d.name, v))
                } else {
                    earlier
                }
            },
        }
    }
}

/// Plans the writes that import an old terminalrc: `entries[i]` is what the
/// `[Configuration]` group holds for the old key of `definitions[i]`.
pub fn legacy_writes(definitions: &[PreferenceDefinition], entries: &[Option<LegacyEntry>]) -> (writes: Vec<(&'static str, SettingValue)>)
    requires
        entries@.len() == definitions@.len(),
        forall|i: int| 0 <= i < definitions@.len() ==> kind_valid(#[trigger] definitions@[i]@.kind),
    ensures
        write_models(writes@) == planned_writes(models(definitions@), entry_models(entries@), definitions@.len() as int),
{
    let ghost defs = models(definitions@);
    let ghost es = entry_models(entries@);
    let mut writes: Vec<(&'static str, SettingValue)> = Vec::new();
    let mut i: usize = 0;
    while i < definitions.len()
        invariant
            defs == models(definitions@),
            es == entry_models(entries@),
            entries@.len() == definitions@.len(),
            forall|k: int| 0 <= k < definitions@.len() ==> kind_valid(#[trigger] definitions@[k]@.kind),
            i <= definitions@.len(),
            write_models(writes@) == planned_writes(defs, es, i as int),
        decreases definitions@.len() - i,
    {
        let d = &definitions[i];
        assert(defs[i as int] == d@);
        assert(kind_valid(definitions@[i as int]@.kind));
        match &entries[i] {
            None => {
                assert(es[i as int] is None);
            },
            Some(entry) => {
                assert(es[i as int] == Some(entry@));
                let value = legacy_value(&d.kind, entry.text.as_str(), entry.number);
                if value_valid(&d.kind, &value, entry.double_in_range) {
                    let ghost before = writes@;
                    let ghost item = (d.name@, value@);
                    writes.push((d.name, value));
                    assert(write_models(writes@) =~= write_models(before).push(item));
                }
            },
        }
        i = i + 1;
    }
    writes
}

/// An enumeration value read from an old terminalrc is always one the
/// preference accepts: a known constant is kept, anything else becomes the
/// first constant.
pub proof fn lemma_legacy_enumeration_accepted(values: Seq<Seq<char>>, source: Seq<char>)
    requires
        values.len() > 0,
    ensures
        values.contains(legacy_choice_of(values, source)),
{
    if !values.contains(source) {
        assert(values[0] == values[0]);
    }
}

/// Every definition a well-formed line states can take a legacy value: the
/// constants of an enumeration are never an empty list.
pub proof fn lemma_line_kind_valid(line: Seq<char>)
    requires
        well_formed_line(line),
    ensures
        kind_valid(line_definition(line).kind),
{
    lemma_pieces_nonempty(pieces(line, '\t')[3], ',');
}

/// Whether `w` is the write that definition `i` contributes: its old key is
/// present, and `w` names the preference and holds the converted value,
/// which the preference accepts.
pub open spec fn written_for(definitions: Seq<PreferenceModel>, entries: Seq<Option<EntryModel>>, i: int, w: (Seq<char>, ValueModel)) -> bool {
    match entries[i] {
        Some(e) => {
            &&& w.0 == definitions[i].name
            &&& w.1 == legacy_conversion(definitions[i].kind, e.text, e.number)
            &&& valid_value(definitions[i].kind, w.1, e.double_in_range)
        },
        None => false,
    }
}

/// The definition the `k`-th of the writes planned from the first `n`
/// definitions comes from.
pub open spec fn write_source(definitions: Seq<PreferenceModel>, entries: Seq<Option<EntryModel>>, n: int, k: int) -> int
    decreases n,
{
    if n <= 0 {
        0
    } else if k < planned_writes(definitions, entries, n - 1).len() {
        write_source(definitions, entries, n - 1, k)
    } else {
        n - 1
    }
}

proof fn lemma_write_source(definitions: Seq<PreferenceModel>, entries: Seq<Option<EntryModel>>, n: int, k: int)
    requires
        0 <= k < planned_writes(definitions, entries, n).len(),
    ensures
        0 <= write_source(definitions, entries, n, k) < n,
        written_for(definitions, entries, write_source(definitions, entries, n, k), planned_writes(definitions, entries, n)[k]),
    decreases n,
{
    let earlier = planned_writes(definitions, entries, n - 1);
    if k < earlier.len() {
        lemma_write_source(definitions, entries, n - 1, k);
    }
}

/// Whether the `k`-th write planned from the first `n` definitions, if there
/// is one, comes from one of them: see [`written_for`].
pub open spec fn accepted_write(definitions: Seq<PreferenceModel>, entries: Seq<Option<EntryModel>>, n: int, k: int) -> bool {
    0 <= k < planned_writes(definitions, entries, n).len() ==> {
        let i = write_source(definitions, entries, n, k);
        0 <= i < n && written_for(definitions, entries, i, planned_writes(definitions, entries, n)[k])
    }
}

/// A migration stores nothing the preference would refuse: each planned write
/// comes from a definition whose old key is present, holds that key's
/// converted value, and passes the check a write makes.
pub proof fn lemma_planned_writes_are_accepted(definitions: Seq<PreferenceModel>, entries: Seq<Option<EntryModel>>, n: int)
    ensures
        forall|k: int| #[trigger] accepted_write(definitions, entries, n, k),
{
    assert forall|k: int| #[trigger] accepted_write(definitions, entries, n, k) by {
        if 0 <= k < planned_writes(definitions, entries, n).len() {
            lemma_write_source(definitions, entries, n, k);
        }
    }
}

/// An unsigned preference accepts exactly the numbers within its bounds,
/// both bounds included, and no value of another type; in particular it
/// accepts its minimum and its maximum.
pub proof fn lemma_unsigned_bounds_included(minimum: u32, maximum: u32, v: u32, double_in_range: bool)
    ensures
        valid_value(KindModel::Unsigned { minimum, maximum }, ValueModel::Unsigned(v), double_in_range)
            <==> (minimum <= v && v <= maximum),
        minimum <= maximum ==> valid_value(KindModel::Unsigned { minimum, maximum }, ValueModel::Unsigned(minimum), double_in_range),
        minimum <= maximum ==> valid_value(KindModel::Unsigned { minimum, maximum }, ValueModel::Unsigned(maximum), double_in_range),
        !valid_value(KindModel::Unsigned { minimum, maximum }, ValueModel::Boolean(true), double_in_range),
        !valid_value(KindModel::Unsigned { minimum, maximum }, ValueModel::String(None), double_in_range),
{
}

/// A preference defined by a `uint` line accepts exactly the numbers from the
/// value of the text before the first `:` of its domain to the value of the
/// text after it, both included.
pub proof fn lemma_unsigned_line_accepts_its_range(line: Seq<char>, v: u32, double_in_range: bool)
    requires
        well_formed_line(line),
        pieces(line, '\t')[1] == "uint"@,
    ensures
        valid_value(line_definition(line).kind, ValueModel::Unsigned(v), double_in_range)
            <==> (u32_value(domain_bounds(pieces(line, '\t')[3]).0) <= v
                && v <= u32_value(domain_bounds(pieces(line, '\t')[3]).1)),
{
    reveal_strlit("uint");
    reveal_strlit("boolean");
    reveal_strlit("string");
    assert("uint"@.len() != "boolean"@.len());
    assert("uint"@.len() != "string"@.len());
}

/// Each kind accepts exactly the values of its own type that lie in its
/// domain: every boolean for a boolean, every string (or none) for a string,
/// a double exactly when it lies in its range, and an enumeration value
/// exactly when it is one of the constants; a value of another type is
/// always refused.
pub proof fn lemma_each_kind_accepts_its_domain(values: Seq<Seq<char>>, text: Seq<char>, b: bool, s: Option<Seq<char>>, u: u32, in_range: bool)
    ensures
        valid_value(KindModel::Boolean, ValueModel::Boolean(b), in_range),
        !valid_value(KindModel::Boolean, ValueModel::Unsigned(u), in_range),
        valid_value(KindModel::String, ValueModel::String(s), in_range),
        !valid_value(KindModel::String, ValueModel::Enumeration(text), in_range),
        forall|minimum: Seq<char>, maximum: Seq<char>|
            #[trigger] valid_value(KindModel::Double { minimum, maximum }, ValueModel::Double(text), in_range) == in_range,
        forall|gtype: Seq<char>|
            #[trigger] valid_value(KindModel::Enumeration { gtype, values }, ValueModel::Enumeration(text), in_range)
                == values.contains(text),
        forall|gtype: Seq<char>|
            !#[trigger] valid_value(KindModel::Enumeration { gtype, values }, ValueModel::String(s), in_range),
{
}

} // verus!
