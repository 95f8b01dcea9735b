//! The order color schemes are offered in: by name, byte by byte, with
//! schemes of the same name kept in the order they were read.

use vstd::prelude::*;
use vstd::utf8::encode_utf8;

verus! {

/// Byte strings in lexicographic order: at the first differing byte the
/// smaller one comes first, and a proper prefix comes before the whole.
pub open spec fn bytes_less(a: Seq<u8>, b: Seq<u8>) -> bool
    decreases a.len(),
{
    if a.len() == 0 {
        b.len() > 0
    } else if b.len() == 0 {
        false
    } else if a[0] != b[0] {
        a[0] < b[0]
    } else {
        bytes_less(a.skip(1), b.skip(1))
    }
}

pub proof fn lemma_bytes_less_irreflexive(a: Seq<u8>)
    ensures
        !bytes_less(a, a),
    decreases a.len(),
{
    if a.len() > 0 {
        lemma_bytes_less_irreflexive(a.skip(1));
    }
}

pub proof fn lemma_bytes_less_total(a: Seq<u8>, b: Seq<u8>)
    ensures
        a == b || bytes_less(a, b) || bytes_less(b, a),
    decreases a.len(),
{
    if a.len() > 0 && b.len() > 0 && a[0] == b[0] {
        lemma_bytes_less_total(a.skip(1), b.skip(1));
        if a.skip(1) == b.skip(1) {
            assert(a =~= seq![a[0]] + a.skip(1));
            assert(b =~= seq![b[0]] + b.skip(1));
        }
    } else if a.len() == 0 && b.len() == 0 {
        assert(a =~= b);
    }
}

pub proof fn lemma_bytes_less_transitive(a: Seq<u8>, b: Seq<u8>, c: Seq<u8>)
    requires
        bytes_less(a, b),
        bytes_less(b, c),
    ensures
        bytes_less(a, c),
    decreases a.len(),
{
    if a.len() > 0 && b.len() > 0 && c.len() > 0 && a[0] == b[0] && b[0] == c[0] {
        lemma_bytes_less_transitive(a.skip(1), b.skip(1), c.skip(1));
    }
}

/// The byte keys of some names.
pub open spec fn name_keys(names: Seq<String>) -> Seq<Seq<u8>> {
    names.map_values(|n: String| encode_utf8(n@))
}

/// Whether the entry at `i` comes before the one at `j`: by key, and by
/// position between equal keys.
pub open spec fn comes_before(keys: Seq<Seq<u8>>, i: int, j: int) -> bool {
    bytes_less(keys[i], keys[j]) || (keys[i] == keys[j] && i < j)
}

/// Whether `order` lists exactly the positions `0..n`, each once.
pub open spec fn is_permutation(order: Seq<usize>, n: int) -> bool {
    &&& order.len() == n
    &&& forall|a: int| 0 <= a < n ==> #[trigger] order[a] < n
    &&& forall|k: usize| k < n ==> #[trigger] order.contains(k)
}

/// Whether `order` lists positions so that each comes before the next.
pub open spec fn is_stably_sorted(keys: Seq<Seq<u8>>, order: Seq<usize>) -> bool {
    forall|a: int, b: int| 0 <= a < b < order.len() ==> comes_before(keys, #[trigger] order[a] as int, #[trigger] order[b] as int)
}

fn bytes_less_exec(a: &[u8], b: &[u8]) -> (r: bool)
    ensures
        r == bytes_less(a@, b@),
{
    let mut i: usize = 0;
    assert(a@.skip(0) =~= a@);
    assert(b@.skip(0) =~= b@);
    while i < a.len() && i < b.len() && a[i] == b[i]
        invariant
            i <= a@.len(),
            i <= b@.len(),
            bytes_less(a@, b@) == bytes_less(a@.skip(i as int), b@.skip(i as int)),
        decreases a@.len() - i,
    {
        assert(a@.skip(i as int).skip(1) =~= a@.skip(i + 1));
        assert(b@.skip(i as int).skip(1) =~= b@.skip(i + 1));
        i = i + 1;
    }
    if i == a.len() {
        i < b.len()
    } else if i == b.len() {
        false
    } else {
        a[i] < b[i]
    }
}

/// Returns the order in which to offer entries with the given names: every
/// position once, by name byte by byte, and in their given order between
/// equal names.
pub fn name_order(names: &[String]) -> (order: Vec<usize>)
    ensures
        is_permutation(order@, names@.len() as int),
        is_stably_sorted(name_keys(names@), order@),
{
    let ghost keys = name_keys(names@);
    let n = names.len();
    let mut order: Vec<usize> = Vec::new();
    let mut i: usize = 0;
    while i < n
        invariant
            n == names@.len(),
            keys == name_keys(names@),
            i <= n,
            order@.len() == i,
            forall|a: int| 0 <= a < i ==> #[trigger] order@[a] < i,
            forall|k: usize| k < i ==> #[trigger] order@.contains(k),
            is_stably_sorted(keys, order@),
        decreases n - i,
    {
        let key = names[i].as_str().as_bytes();
        assert(key@ == keys[i as int]);
        let mut p: usize = 0;
        while p < order.len() && !bytes_less_exec(key, names[order[p]].as_str().as_bytes())
            invariant
                n == names@.len(),
                keys == name_keys(names@),
                i < n,
                key@ == keys[i as int],
                order@.len() == i,
                forall|a: int| 0 <= a < i ==> #[trigger] order@[a] < i,
                p <= order@.len(),
                forall|a: int| 0 <= a < p ==> !bytes_less(keys[i as int], keys[#[trigger] order@[a] as int]),
            decreases order@.len() - p,
        {
            p = p + 1;
        }
        proof {
            if p < order@.len() {
                assert(bytes_less(keys[i as int], keys[order@[p as int] as int]));
            }
        }
        let ghost old_order = order@;
        order.insert(p, i);
        proof {
            assert(order@ == old_order.insert(p as int, i));
            assert forall|a: int, b: int| 0 <= a < b < order@.len() implies comes_before(
                keys,
                #[trigger] order@[a] as int,
                #[trigger] order@[b] as int,
            ) by {
                if b < p {
                    assert(order@[a] == old_order[a] && order@[b] == old_order[b]);
                } else if a > p {
                    assert(order@[a] == old_order[a - 1] && order@[b] == old_order[b - 1]);
                } else if a == p {
                    let e = old_order[b - 1] as int;
                    assert(order@[b] == old_order[b - 1]);
                    if b - 1 > p {
                        assert(comes_before(keys, old_order[p as int] as int, old_order[b - 1] as int));
                        let first = old_order[p as int] as int;
                        if bytes_less(keys[first], keys[e]) {
                            lemma_bytes_less_transitive(keys[i as int], keys[first], keys[e]);
                        }
                    }
                } else if b == p {
                    let e = old_order[a] as int;
                    assert(order@[a] == old_order[a]);
                    assert(!bytes_less(keys[i as int], keys[e]));
                    lemma_bytes_less_total(keys[i as int], keys[e]);
                } else {
                    assert(order@[a] == old_order[a] && order@[b] == old_order[b - 1]);
                }
            }
            assert forall|k: usize| k < i + 1 implies #[trigger] order@.contains(k) by {
                if k == i {
                    assert(order@[p as int] == i);
                } else {
                    assert(old_order.contains(k));
                    let w = choose|w: int| 0 <= w < old_order.len() && old_order[w] == k;
                    if w < p {
                        assert(order@[w] == k);
                    } else {
                        assert(order@[w + 1] == k);
                    }
                }
            }
            assert forall|a: int| 0 <= a < i + 1 implies #[trigger] order@[a] < i + 1 by {
                if a < p {
                    assert(order@[a] == old_order[a]);
                } else if a > p {
                    assert(order@[a] == old_order[a - 1]);
                }
            }
        }
        i = i + 1;
    }
    order
}

} // verus!
