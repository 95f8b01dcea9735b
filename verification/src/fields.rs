//! Fields of delimited text: splitting a text at a separator, reading a
//! decimal field, and the escaped form of the text fields of a tab-separated
//! scenario line, where `-` stands for no text and a backslash escapes a line
//! feed (`\n`), a carriage return (`\r`), a tab (`\t`) or itself (`\\`).

use vstd::prelude::*;

verus! {

/// What one backslash escape stands for.
pub open spec fn escaped(c: char) -> Seq<char> {
    if c == 'n' {
        seq!['\n']
    } else if c == 'r' {
        seq!['\r']
    } else if c == 't' {
        seq!['\t']
    } else if c == '\\' {
        seq!['\\']
    } else {
        seq!['\\', c]
    }
}

/// The text a field holds from position `i` on. An unknown escape keeps its
/// backslash; a trailing backslash stays.
pub open spec fn unescaped_from(f: Seq<char>, i: int) -> Seq<char>
    decreases f.len() - i,
{
    if i < 0 || i >= f.len() {
        Seq::empty()
    } else if f[i] != '\\' {
        seq![f[i]] + unescaped_from(f, i + 1)
    } else if i + 1 >= f.len() {
        seq!['\\']
    } else {
        escaped(f[i + 1]) + unescaped_from(f, i + 2)
    }
}

/// The text a field stands for, or `None` for `-`.
pub open spec fn field_text(f: Seq<char>) -> Option<Seq<char>> {
    if f == seq!['-'] {
        None
    } else {
        Some(unescaped_from(f, 0))
    }
}

/// Decodes one escaped field.
pub fn unescape(field: &str) -> (text: Option<String>)
    ensures
        match text {
            Some(t) => field_text(field@) == Some(t@),
            None => field_text(field@) is None,
        },
{
    let n = field.unicode_len();
    if n == 1 && field.get_char(0) == '-' {
        assert(field@ =~= seq!['-']);
        return None;
    }
    let mut result = String::new();
    let mut i: usize = 0;
    assert(result@ + unescaped_from(field@, 0) =~= unescaped_from(field@, 0));
    while i < n
        invariant
            n == field@.len(),
            i <= n,
            result@ + unescaped_from(field@, i as int) == unescaped_from(field@, 0),
        decreases n - i,
    {
        let c = field.get_char(i);
        if c != '\\' {
            result.push(c);
            i = i + 1;
        } else if i + 1 >= n {
            result.push('\\');
            i = n;
        } else {
            let next = field.get_char(i + 1);
            if next == 'n' {
                result.push('\n');
            } else if next == 'r' {
                result.push('\r');
            } else if next == 't' {
                result.push('\t');
            } else if next == '\\' {
                result.push('\\');
            } else {
                result.push('\\');
                result.push(next);
            }
            i = i + 2;
        }
        assert(result@ + unescaped_from(field@, i as int) =~= unescaped_from(field@, 0));
    }
    assert(result@ =~= unescaped_from(field@, 0));
    proof {
        if field@ == seq!['-'] {
            assert(field@[0] == '-');
        }
    }
    Some(result)
}


/// The pieces of a text between its separators, in order, as `str::split`
/// gives them: a text without a separator is one piece, and the text between
/// two adjacent separators is an empty piece.
pub open spec fn pieces(text: Seq<char>, sep: char) -> Seq<Seq<char>>
    decreases text.len(),
{
    if text.len() == 0 {
        seq![Seq::empty()]
    } else {
        let rest = pieces(text.drop_last(), sep);
        if text.last() == sep {
            rest.push(Seq::empty())
        } else {
            rest.update(rest.len() - 1, rest.last().push(text.last()))
        }
    }
}

pub proof fn lemma_pieces_nonempty(text: Seq<char>, sep: char)
    ensures
        pieces(text, sep).len() >= 1,
    decreases text.len(),
{
    if text.len() > 0 {
        lemma_pieces_nonempty(text.drop_last(), sep);
    }
}

/// Splits a text at every separator.
pub fn split_text<'a>(text: &'a str, sep: char) -> (parts: Vec<&'a str>)
    ensures
        parts@.map_values(|p: &'a str| p@) == pieces(text@, sep),
{
    let n = text.unicode_len();
    let mut parts: Vec<&'a str> = Vec::new();
    let mut start: usize = 0;
    let mut i: usize = 0;
    assert(text@.take(0) =~= Seq::<char>::empty());
    assert(parts@.map_values(|p: &'a str| p@).push(text@.subrange(0, 0)) =~= seq![Seq::<char>::empty()]);
    while i < n
        invariant
            n == text@.len(),
            start <= i <= n,
            parts@.map_values(|p: &'a str| p@).push(text@.subrange(start as int, i as int))
                == pieces(text@.take(i as int), sep),
        decreases n - i,
    {
        let c = text.get_char(i);
        let ghost before = parts@.map_values(|p: &'a str| p@).push(text@.subrange(start as int, i as int));
        proof { lemma_pieces_nonempty(text@.take(i as int), sep); }
        assert(text@.take(i + 1).drop_last() =~= text@.take(i as int));
        assert(text@.take(i + 1).last() == c);
        if c == sep {
            let piece = text.substring_char(start, i);
            let ghost prev = parts@;
            parts.push(piece);
            assert(parts@.map_values(|p: &'a str| p@) =~= prev.map_values(|p: &'a str| p@).push(piece@));
            start = i + 1;
            assert(text@.subrange(start as int, i + 1) =~= Seq::<char>::empty());
            assert(parts@.map_values(|p: &'a str| p@).push(text@.subrange(start as int, i + 1))
                =~= before.push(Seq::empty()));
        } else {
            assert(text@.subrange(start as int, i + 1) =~= text@.subrange(start as int, i as int).push(c));
            assert(parts@.map_values(|p: &'a str| p@).push(text@.subrange(start as int, i + 1))
                =~= before.update(before.len() - 1, before.last().push(c)));
        }
        i = i + 1;
    }
    let last = text.substring_char(start, n);
    let ghost prev = parts@;
    parts.push(last);
    assert(parts@.map_values(|p: &'a str| p@) =~= prev.map_values(|p: &'a str| p@).push(last@));
    assert(text@.take(n as int) =~= text@);
    parts
}

/// The value of a string of decimal digits.
pub open spec fn digits_value(s: Seq<char>) -> nat
    decreases s.len(),
{
    if s.len() == 0 {
        0
    } else {
        digits_value(s.drop_last()) * 10 + ((s.last() as nat) - 48) as nat
    }
}

pub open spec fn all_digits(s: Seq<char>) -> bool {
    forall|i: int| 0 <= i < s.len() ==> '0' <= #[trigger] s[i] <= '9'
}

/// The digits of an unsigned decimal text, after an optional `+`.
pub open spec fn unsigned_digits(s: Seq<char>) -> Seq<char> {
    if s.len() > 0 && s[0] == '+' { s.skip(1) } else { s }
}

/// Whether a text reads as a `u32` the way `str::parse` reads one: an
/// optional `+`, then at least one decimal digit, with a value that fits.
pub open spec fn is_u32_text(s: Seq<char>) -> bool {
    let d = unsigned_digits(s);
    &&& d.len() > 0
    &&& all_digits(d)
    &&& digits_value(d) <= u32::MAX
}

/// The value of a `u32` text.
pub open spec fn u32_value(s: Seq<char>) -> nat {
    digits_value(unsigned_digits(s))
}

proof fn lemma_digits_value_grows(s: Seq<char>, i: int)
    requires
        0 <= i <= s.len(),
        all_digits(s),
    ensures
        digits_value(s.take(i)) <= digits_value(s),
    decreases s.len() - i,
{
    if i < s.len() {
        lemma_digits_value_grows(s, i + 1);
        assert(s.take(i + 1).drop_last() =~= s.take(i));
        assert('0' <= s[i] <= '9');
    } else {
        assert(s.take(i) =~= s);
    }
}

/// Reads a `u32` text, or `None` when the text is not one.
pub fn read_u32(text: &str) -> (value: Option<u32>)
    ensures
        match value {
            Some(v) => is_u32_text(text@) && v == u32_value(text@),
            None => !is_u32_text(text@),
        },
{
    let n = text.unicode_len();
    let mut i: usize = 0;
    if n > 0 && text.get_char(0) == '+' {
        i = 1;
    }
    let ghost d = unsigned_digits(text@);
    let ghost first = i as int;
    assert(d =~= text@.skip(first));
    if i == n {
        return None;
    }
    let mut value: u64 = 0;
    assert(d.take(0) =~= Seq::<char>::empty());
    while i < n
        invariant
            n == text@.len(),
            d == text@.skip(first),
            d == unsigned_digits(text@),
            0 <= first <= i <= n,
            forall|j: int| 0 <= j < i - first ==> '0' <= #[trigger] d[j] <= '9',
            value <= u32::MAX,
            value == digits_value(d.take(i - first)),
        decreases n - i,
    {
        let c = text.get_char(i);
        assert(c == d[i - first]);
        if c < '0' || c > '9' {
            assert(!all_digits(d));
            return None;
        }
        assert(d.take(i - first + 1).drop_last() =~= d.take(i - first));
        let digit: u64 = (c as u64) - 48;
        value = value * 10 + digit;
        if value > 0xffff_ffffu64 {
            proof {
                if all_digits(d) {
                    lemma_digits_value_grows(d, i - first + 1);
                }
            }
            return None;
        }
        i = i + 1;
    }
    assert(d.take(n - first) =~= d);
    assert(all_digits(d));
    Some(value as u32)
}

/// Whether two texts are the same.
pub fn same_text(a: &str, b: &str) -> (r: bool)
    ensures
        r == (a@ == b@),
{
    let n = a.unicode_len();
    if n != b.unicode_len() {
        return false;
    }
    let mut i: usize = 0;
    while i < n
        invariant
            n == a@.len(),
            n == b@.len(),
            i <= n,
            forall|j: int| 0 <= j < i ==> a@[j] == b@[j],
        decreases n - i,
    {
        if a.get_char(i) != b.get_char(i) {
            return false;
        }
        i = i + 1;
    }
    assert(a@ =~= b@);
    true
}

/// Whether `text` begins with `prefix`.
pub open spec fn starts_with(text: Seq<char>, prefix: Seq<char>) -> bool {
    prefix.len() <= text.len() && text.take(prefix.len() as int) == prefix
}

/// Whether a text begins with a prefix.
pub fn has_prefix(text: &str, prefix: &str) -> (r: bool)
    ensures
        r == starts_with(text@, prefix@),
{
    let n = prefix.unicode_len();
    if n > text.unicode_len() {
        return false;
    }
    let mut i: usize = 0;
    while i < n
        invariant
            n == prefix@.len(),
            n <= text@.len(),
            i <= n,
            forall|j: int| 0 <= j < i ==> text@[j] == prefix@[j],
        decreases n - i,
    {
        if text.get_char(i) != prefix.get_char(i) {
            assert(text@.take(n as int)[i as int] != prefix@[i as int]);
            return false;
        }
        i = i + 1;
    }
    assert(text@.take(n as int) =~= prefix@);
    true
}

/// The position of the first `c` in `s` at or after `i`, or the length of
/// `s` when there is none.
pub open spec fn first_index(s: Seq<char>, c: char, i: int) -> int
    decreases s.len() - i,
{
    if i < 0 || i >= s.len() {
        s.len() as int
    } else if s[i] == c {
        i
    } else {
        first_index(s, c, i + 1)
    }
}

pub proof fn lemma_first_index_exact(s: Seq<char>, c: char, i: int, e: int)
    requires
        0 <= i <= e <= s.len(),
        forall|k: int| i <= k < e ==> s[k] != c,
        e == s.len() || s[e] == c,
    ensures
        first_index(s, c, i) == e,
    decreases e - i,
{
    if i < e {
        lemma_first_index_exact(s, c, i + 1, e);
    }
}

pub proof fn lemma_first_index_bounds(s: Seq<char>, c: char, i: int)
    requires
        0 <= i <= s.len(),
    ensures
        i <= first_index(s, c, i) <= s.len(),
        forall|k: int| i <= k < first_index(s, c, i) ==> s[k] != c,
        first_index(s, c, i) < s.len() ==> s[first_index(s, c, i)] == c,
    decreases s.len() - i,
{
    if i < s.len() && s[i] != c {
        lemma_first_index_bounds(s, c, i + 1);
    }
}

/// Finds the first `c` in a text, or its length when there is none.
pub fn find_char(text: &str, c: char) -> (at: usize)
    ensures
        at == first_index(text@, c, 0),
{
    let n = text.unicode_len();
    let mut i: usize = 0;
    while i < n && text.get_char(i) != c
        invariant
            n == text@.len(),
            i <= n,
            forall|k: int| 0 <= k < i ==> text@[k] != c,
        decreases n - i,
    {
        i = i + 1;
    }
    proof { lemma_first_index_exact(text@, c, 0, i as int); }
    i
}
} // verus!
