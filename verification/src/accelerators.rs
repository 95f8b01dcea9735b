//! Where the global accelerator map is kept, and the shape of its entries.

use vstd::prelude::*;
use vstd::string::StringSliceAdditionalSpecFns;

use crate::bytes::{append_bytes, copy_bytes};

verus! {

/// The accelerator file below an Xfce configuration directory.
pub const RELATIVE_PATH: &'static str = "xfce4/terminal/accels.scm";

/// One accelerator path and its default shortcut.
#[derive(Clone, Copy, Debug, PartialEq, Eq)]
pub struct AcceleratorDefinition {
    pub path: &'static str,
    pub default_accelerator: &'static str,
}

/// A relative path joined below a directory: a separator goes between them
/// unless the directory is empty or already ends with one.
pub open spec fn joined(directory: Seq<u8>, relative: Seq<u8>) -> Seq<u8> {
    if directory.len() == 0 {
        relative
    } else if directory.last() == 47u8 {
        directory + relative
    } else {
        directory + seq![47u8] + relative
    }
}

/// Resolves the accelerator file below an Xfce configuration directory.
pub fn path(config_home: &[u8]) -> (file: Vec<u8>)
    ensures
        file@ == joined(config_home@, RELATIVE_PATH.spec_bytes()),
{
    let mut file = copy_bytes(config_home);
    if config_home.len() > 0 && config_home[config_home.len() - 1] != 47u8 {
        file.push(47u8);
    }
    let ghost head = file@;
    append_bytes(&mut file, RELATIVE_PATH.as_bytes());
    assert(file@ =~= joined(config_home@, RELATIVE_PATH.spec_bytes()));
    file
}


/// The position of the first line feed at or after `i`, or the end.
pub open spec fn line_end(t: Seq<char>, i: int) -> int
    decreases t.len() - i,
{
    if i < 0 || i >= t.len() {
        t.len() as int
    } else if t[i] == '\n' {
        i
    } else {
        line_end(t, i + 1)
    }
}

/// The lines of a text from position `i` on, as `str::lines` gives them: a
/// line ends at a line feed, a carriage return just before that line feed is
/// not part of the line, and a final line feed starts no further line.
pub open spec fn text_lines(t: Seq<char>, i: int) -> Seq<Seq<char>>
    decreases t.len() - i,
{
    if i < 0 || i >= t.len() {
        Seq::empty()
    } else {
        let e = line_end(t, i);
        proof {
            lemma_line_end_bounds(t, i);
        }
        let raw = t.subrange(i, e);
        let line = if e < t.len() && raw.len() > 0 && raw.last() == '\r' { raw.drop_last() } else { raw };
        seq![line] + if e < t.len() { text_lines(t, e + 1) } else { Seq::empty() }
    }
}

pub proof fn lemma_line_end_bounds(t: Seq<char>, i: int)
    requires
        0 <= i <= t.len(),
    ensures
        i <= line_end(t, i) <= t.len(),
        forall|k: int| i <= k < line_end(t, i) ==> t[k] != '\n',
        line_end(t, i) < t.len() ==> t[line_end(t, i)] == '\n',
    decreases t.len() - i,
{
    if i < t.len() && t[i] != '\n' {
        lemma_line_end_bounds(t, i + 1);
    }
}

/// Whether a line holds the tab that separates its two fields.
pub open spec fn has_tab(line: Seq<char>) -> bool {
    exists|k: int| 0 <= k < line.len() && line[k] == '\t'
}

/// Whether `d` is what a contract line describes: the text before its first
/// tab is the action path, the text after it the default accelerator.
pub open spec fn describes(d: AcceleratorDefinition, line: Seq<char>) -> bool {
    exists|k: int|
        0 <= k < line.len() && line[k] == '\t' && (forall|j: int| 0 <= j < k ==> line[j] != '\t')
            && d.path@ == line.take(k) && d.default_accelerator@ == line.skip(k + 1)
}

fn split_at_tab(line: &'static str) -> (d: AcceleratorDefinition)
    requires
        has_tab(line@),
    ensures
        describes(d, line@),
{
    let n = line.unicode_len();
    let mut k: usize = 0;
    while k < n && line.get_char(k) != '\t'
        invariant
            n == line@.len(),
            k <= n,
            has_tab(line@),
            forall|j: int| 0 <= j < k ==> line@[j] != '\t',
        decreases n - k,
    {
        k = k + 1;
    }
    proof {
        if k == n {
            let w = choose|w: int| 0 <= w < line@.len() && line@[w] == '\t';
            assert(line@[w] != '\t');
        }
    }
    let path = line.substring_char(0, k);
    let default_accelerator = line.substring_char(k + 1, n);
    assert(path@ =~= line@.take(k as int));
    assert(default_accelerator@ =~= line@.skip(k + 1));
    AcceleratorDefinition { path, default_accelerator }
}

/// Splits a text into its lines, as `str::lines` does.
pub fn contract_lines<'a>(text: &'a str) -> (lines: Vec<&'a str>)
    ensures
        lines@.map_values(|l: &'a str| l@) == text_lines(text@, 0),
{
    let ghost t = text@;
    let ghost all = text_lines(t, 0);
    let n = text.unicode_len();
    let mut lines: Vec<&'a str> = Vec::new();
    let mut start: usize = 0;
    while start < n
        invariant
            t == text@,
            all == text_lines(t, 0),
            n == t.len(),
            start <= n,
            lines@.len() + text_lines(t, start as int).len() == all.len(),
            forall|k: int| 0 <= k < lines@.len() ==> #[trigger] lines@[k]@ == all[k],
            forall|k: int| 0 <= k < text_lines(t, start as int).len() ==>
                #[trigger] text_lines(t, start as int)[k] == all[lines@.len() + k],
        decreases n - start,
    {
        proof { lemma_line_end_bounds(t, start as int); }
        let mut end: usize = start;
        while end < n && text.get_char(end) != '\n'
            invariant
                n == t.len(),
                t == text@,
                start <= end <= n,
                forall|k: int| start <= k < end ==> t[k] != '\n',
            decreases n - end,
        {
            end = end + 1;
        }
        proof { lemma_line_end_exact(t, start as int, end as int); }
        let mut stop: usize = end;
        if end < n && end > start && text.get_char(end - 1) == '\r' {
            stop = end - 1;
        }
        let line = text.substring_char(start, stop);
        let ghost raw = t.subrange(start as int, end as int);
        assert(line@ =~= (if end < t.len() && raw.len() > 0 && raw.last() == '\r' { raw.drop_last() } else { raw }));
        assert(text_lines(t, start as int)[0] == line@);
        assert(text_lines(t, start as int) =~= seq![line@] + text_lines(t, end + 1)) by {
            if end as int == t.len() {
                assert(text_lines(t, end + 1) =~= Seq::<Seq<char>>::empty());
            }
        }
        assert(all[lines@.len() as int] == line@);
        let ghost before = lines@;
        lines.push(line);
        assert forall|k: int| 0 <= k < lines@.len() implies #[trigger] lines@[k]@ == all[k] by {
            if k < before.len() {
                assert(lines@[k] == before[k]);
            }
        }
        assert forall|k: int| 0 <= k < text_lines(t, end + 1).len() implies
            #[trigger] text_lines(t, end + 1)[k] == all[lines@.len() + k] by {
            assert(text_lines(t, start as int)[k + 1] == text_lines(t, end + 1)[k]);
        }
        if end < n {
            start = end + 1;
        } else {
            assert(text_lines(t, end + 1) =~= text_lines(t, n as int));
            start = n;
        }
    }
    assert(lines@.map_values(|l: &'a str| l@) =~= all);
    lines
}

/// Reads the definition contract: one action per line, its path and its
/// default accelerator separated by a tab. Every line has to hold a tab.
pub fn definitions(contract: &'static str) -> (definitions: Vec<AcceleratorDefinition>)
    requires
        forall|k: int| 0 <= k < text_lines(contract@, 0).len() ==> has_tab(#[trigger] text_lines(contract@, 0)[k]),
    ensures
        definitions@.len() == text_lines(contract@, 0).len(),
        forall|k: int| 0 <= k < definitions@.len() ==> describes(#[trigger] definitions@[k], text_lines(contract@, 0)[k]),
{
    let lines = contract_lines(contract);
    let ghost all = text_lines(contract@, 0);
    let mut definitions: Vec<AcceleratorDefinition> = Vec::new();
    let mut i: usize = 0;
    while i < lines.len()
        invariant
            lines@.map_values(|l: &'static str| l@) == all,
            all == text_lines(contract@, 0),
            forall|k: int| 0 <= k < all.len() ==> has_tab(#[trigger] all[k]),
            i <= lines@.len(),
            definitions@.len() == i,
            forall|k: int| 0 <= k < i ==> describes(#[trigger] definitions@[k], all[k]),
        decreases lines@.len() - i,
    {
        assert(lines@[i as int]@ == all[i as int]);
        let d = split_at_tab(lines[i]);
        definitions.push(d);
        i = i + 1;
    }
    definitions
}

proof fn lemma_line_end_exact(t: Seq<char>, i: int, e: int)
    requires
        0 <= i <= e <= t.len(),
        forall|k: int| i <= k < e ==> t[k] != '\n',
        e == t.len() || t[e] == '\n',
    ensures
        line_end(t, i) == e,
    decreases e - i,
{
    if i < e {
        lemma_line_end_exact(t, i + 1, e);
    }
}
} // verus!
