//! The base name of a path as GLib's `g_path_get_basename` gives it.
//!
//! Trailing separators are ignored, so `/bin/` yields `bin`; a path made only
//! of separators yields `/`; an empty path yields `.`. The rule is stated once
//! over any alphabet, and holds for byte paths and for text alike. A path
//! holding a NUL cannot be handed to GLib and is its own base name.

use vstd::prelude::*;

verus! {

/// The path without its trailing separators.
pub open spec fn trim_trailing<T>(p: Seq<T>, slash: T) -> Seq<T>
    decreases p.len(),
{
    if p.len() > 0 && p.last() == slash {
        trim_trailing(p.drop_last(), slash)
    } else {
        p
    }
}

/// The part of `p` after its last separator.
pub open spec fn last_component<T>(p: Seq<T>, slash: T) -> Seq<T>
    decreases p.len(),
{
    if p.len() > 0 && p.last() != slash {
        last_component(p.drop_last(), slash).push(p.last())
    } else {
        Seq::empty()
    }
}

/// The base name of `p`, with `slash` the separator and `dot` the name of
/// the current directory.
pub open spec fn basename_of<T>(p: Seq<T>, slash: T, dot: T) -> Seq<T> {
    if p.len() == 0 {
        seq![dot]
    } else if trim_trailing(p, slash).len() == 0 {
        seq![slash]
    } else {
        last_component(trim_trailing(p, slash), slash)
    }
}

/// The base name of a byte path; a path holding a NUL is its own.
pub open spec fn byte_basename(p: Seq<u8>) -> Seq<u8> {
    if p.contains(0u8) { p } else { basename_of(p, 47u8, 46u8) }
}

/// The base name of a textual path; a path holding a NUL is its own.
pub open spec fn text_basename(p: Seq<char>) -> Seq<char> {
    if p.contains('\0') { p } else { basename_of(p, '/', '.') }
}

proof fn lemma_trim_is_prefix<T>(p: Seq<T>, slash: T, end: int)
    requires
        0 <= end <= p.len(),
        forall|i: int| end <= i < p.len() ==> p[i] == slash,
        end == 0 || p[end - 1] != slash,
    ensures
        trim_trailing(p, slash) == p.take(end),
    decreases p.len(),
{
    if p.len() > end {
        assert(p.drop_last().take(end) =~= p.take(end));
        lemma_trim_is_prefix(p.drop_last(), slash, end);
    } else {
        assert(p.take(end) =~= p);
    }
}

proof fn lemma_last_component_is_suffix<T>(p: Seq<T>, slash: T, start: int)
    requires
        0 <= start <= p.len(),
        forall|i: int| start <= i < p.len() ==> p[i] != slash,
        start == 0 || p[start - 1] == slash,
    ensures
        last_component(p, slash) == p.subrange(start, p.len() as int),
    decreases p.len(),
{
    if p.len() > start {
        lemma_last_component_is_suffix(p.drop_last(), slash, start);
        assert(p.subrange(start, p.len() as int) =~= p.drop_last().subrange(start, p.len() - 1).push(p.last()));
    } else {
        assert(p.subrange(start, p.len() as int) =~= Seq::<T>::empty());
    }
}

/// The base name of a byte path.
pub fn path_basename(path: &[u8]) -> (name: Vec<u8>)
    ensures
        name@ == byte_basename(path@),
{
    let mut k: usize = 0;
    while k < path.len()
        invariant
            k <= path@.len(),
            forall|i: int| 0 <= i < k ==> path@[i] != 0u8,
        decreases path@.len() - k,
    {
        if path[k] == 0u8 {
            assert(path@.contains(0u8));
            return crate::bytes::copy_bytes(path);
        }
        k = k + 1;
    }
    assert(!path@.contains(0u8));
    if path.len() == 0 {
        let mut dot: Vec<u8> = Vec::new();
        dot.push(46u8);
        assert(dot@ =~= seq![46u8]);
        return dot;
    }
    let mut end: usize = path.len();
    while end > 0 && path[end - 1] == 47u8
        invariant
            end <= path@.len(),
            forall|i: int| end <= i < path@.len() ==> path@[i] == 47u8,
        decreases end,
    {
        end = end - 1;
    }
    proof { lemma_trim_is_prefix(path@, 47u8, end as int); }
    if end == 0 {
        let mut root: Vec<u8> = Vec::new();
        root.push(47u8);
        assert(root@ =~= seq![47u8]);
        return root;
    }
    let mut start: usize = end;
    while start > 0 && path[start - 1] != 47u8
        invariant
            start <= end <= path@.len(),
            forall|i: int| start <= i < end ==> path@[i] != 47u8,
        decreases start,
    {
        start = start - 1;
    }
    let ghost trimmed = path@.take(end as int);
    proof {
        lemma_last_component_is_suffix(trimmed, 47u8, start as int);
        assert(trimmed.subrange(start as int, end as int) =~= path@.subrange(start as int, end as int));
    }
    crate::bytes::copy_range(path, start, end)
}

/// The base name of a textual path.
pub fn text_path_basename(path: &str) -> (name: &str)
    ensures
        name@ == text_basename(path@),
{
    let len = path.unicode_len();
    let mut k: usize = 0;
    while k < len
        invariant
            len == path@.len(),
            k <= len,
            forall|i: int| 0 <= i < k ==> path@[i] != '\0',
        decreases len - k,
    {
        if path.get_char(k) == '\0' {
            assert(path@.contains('\0'));
            return path;
        }
        k = k + 1;
    }
    assert(!path@.contains('\0'));
    if len == 0 {
        proof { reveal_strlit("."); }
        return ".";
    }
    let mut end: usize = len;
    while end > 0 && path.get_char(end - 1) == '/'
        invariant
            len == path@.len(),
            end <= len,
            forall|i: int| end <= i < len ==> path@[i] == '/',
        decreases end,
    {
        end = end - 1;
    }
    proof { lemma_trim_is_prefix(path@, '/', end as int); }
    if end == 0 {
        proof { reveal_strlit("/"); }
        return "/";
    }
    let mut start: usize = end;
    while start > 0 && path.get_char(start - 1) != '/'
        invariant
            len == path@.len(),
            start <= end <= len,
            forall|i: int| start <= i < end ==> path@[i] != '/',
        decreases start,
    {
        start = start - 1;
    }
    let ghost trimmed = path@.take(end as int);
    proof {
        lemma_last_component_is_suffix(trimmed, '/', start as int);
        assert(trimmed.subrange(start as int, end as int) =~= path@.subrange(start as int, end as int));
    }
    path.substring_char(start, end)
}


proof fn lemma_last_component_has_no_slash<T>(p: Seq<T>, slash: T)
    ensures
        forall|i: int| 0 <= i < last_component(p, slash).len() ==> last_component(p, slash)[i] != slash,
        p.len() > 0 && p.last() != slash ==> last_component(p, slash).len() > 0,
    decreases p.len(),
{
    if p.len() > 0 && p.last() != slash {
        lemma_last_component_has_no_slash(p.drop_last(), slash);
        let c = last_component(p.drop_last(), slash);
        assert forall|i: int| 0 <= i < last_component(p, slash).len() implies last_component(p, slash)[i] != slash by {
            if i < c.len() {
                assert(last_component(p, slash)[i] == c[i]);
            }
        }
    }
}

proof fn lemma_trim_ends_without_slash<T>(p: Seq<T>, slash: T)
    ensures
        trim_trailing(p, slash).len() > 0 ==> trim_trailing(p, slash).last() != slash,
    decreases p.len(),
{
    if p.len() > 0 && p.last() == slash {
        lemma_trim_ends_without_slash(p.drop_last(), slash);
    }
}

/// A base name is never empty, and it holds a separator only when it is the
/// root directory, which is its own base name.
pub proof fn lemma_basename_is_one_component<T>(p: Seq<T>, slash: T, dot: T)
    ensures
        basename_of(p, slash, dot).len() > 0,
        basename_of(p, slash, dot) != seq![slash] ==> forall|i: int|
            0 <= i < basename_of(p, slash, dot).len() ==> basename_of(p, slash, dot)[i] != slash,
{
    let t = trim_trailing(p, slash);
    lemma_trim_ends_without_slash(p, slash);
    lemma_last_component_has_no_slash(t, slash);
}

} // verus!
