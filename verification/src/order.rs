use vstd::prelude::*;
use crate::data::ListItem;
use crate::text::{chars_of, lowercase, to_lowercase};

verus! {

broadcast use vstd::seq_lib::group_to_multiset_ensures;

/// Lexicographic order on texts, by code point (the order of `str` and,
/// within one directory, of `Path`).
pub open spec fn lex_le(a: Seq<char>, b: Seq<char>) -> bool
    decreases a.len(),
{
    if a.len() == 0 {
        true
    } else if b.len() == 0 {
        false
    } else if (a[0] as u32) < (b[0] as u32) {
        true
    } else if (a[0] as u32) > (b[0] as u32) {
        false
    } else {
        lex_le(a.drop_first(), b.drop_first())
    }
}

proof fn lemma_lex_total(a: Seq<char>, b: Seq<char>)
    ensures
        lex_le(a, b) || lex_le(b, a),
    decreases a.len(),
{
    if a.len() > 0 && b.len() > 0 && a[0] as u32 == b[0] as u32 {
        lemma_lex_total(a.drop_first(), b.drop_first());
    }
}

proof fn lemma_lex_trans(a: Seq<char>, b: Seq<char>, c: Seq<char>)
    requires
        lex_le(a, b),
        lex_le(b, c),
    ensures
        lex_le(a, c),
    decreases a.len(),
{
    if a.len() > 0 && b.len() > 0 && c.len() > 0 && a[0] as u32 == b[0] as u32 && b[0] as u32
        == c[0] as u32 {
        lemma_lex_trans(a.drop_first(), b.drop_first(), c.drop_first());
    }
}

/// Compares two texts lexicographically.
pub fn lex_le_exec(a: &[char], b: &[char]) -> (r: bool)
    ensures
        r == lex_le(a@, b@),
{
    let mut i: usize = 0;
    assert(a@.skip(0) =~= a@);
    assert(b@.skip(0) =~= b@);
    while i < a.len() && i < b.len()
        invariant
            0 <= i <= a@.len(),
            i <= b@.len(),
            lex_le(a@, b@) == lex_le(a@.skip(i as int), b@.skip(i as int)),
        decreases a@.len() - i,
    {
        let x = a[i] as u32;
        let y = b[i] as u32;
        assert(a@.skip(i as int)[0] == a@[i as int]);
        assert(b@.skip(i as int)[0] == b@[i as int]);
        if x < y {
            return true;
        }
        if x > y {
            return false;
        }
        assert(a@.skip(i as int).drop_first() =~= a@.skip(i + 1));
        assert(b@.skip(i as int).drop_first() =~= b@.skip(i + 1));
        i = i + 1;
    }
    i == a.len()
}

/// Every entry is at most every later entry.
pub open spec fn sorted_by_text(v: Seq<String>) -> bool {
    forall|i: int, j: int| 0 <= i < j < v.len() ==> lex_le((#[trigger] v[i])@, (#[trigger] v[j])@)
}

/// The texts in lexicographic order (as `Vec::sort` orders them).
pub fn sort_texts(v: &Vec<String>) -> (r: Vec<String>)
    ensures
        sorted_by_text(r@),
        r@.to_multiset() == v@.to_multiset(),
{
    let n = v.len();
    let mut out: Vec<String> = Vec::new();
    let mut i: usize = 0;
    while i < n
        invariant
            0 <= i <= n,
            n == v@.len(),
            sorted_by_text(out@),
            out@.to_multiset() == v@.take(i as int).to_multiset(),
        decreases n - i,
    {
        let x = v[i].clone();
        let xc = chars_of(x.as_str());
        let m = out.len();
        let mut p: usize = 0;
        while p < m && lex_le_exec(chars_of(out[p].as_str()).as_slice(), xc.as_slice())
            invariant
                0 <= p <= m,
                m == out@.len(),
                xc@ == x@,
                forall|k: int| 0 <= k < p ==> lex_le((#[trigger] out@[k])@, x@),
            decreases m - p,
        {
            p = p + 1;
        }
        proof {
            if p < m {
                lemma_lex_total(out@[p as int]@, x@);
            }
        }
        let ghost before = out@;
        out.insert(p, x);
        proof {
            assert forall|a: int, b: int| 0 <= a < b < out@.len() implies lex_le(
                (#[trigger] out@[a])@,
                (#[trigger] out@[b])@,
            ) by {
                if b < p {
                    assert(out@[a] == before[a] && out@[b] == before[b]);
                } else if b == p {
                    assert(out@[a] == before[a]);
                } else if a == p {
                    assert(out@[b] == before[b - 1]);
                    if b - 1 > p {
                        lemma_lex_trans(x@, before[p as int]@, before[b - 1]@);
                    }
                } else if a < p {
                    assert(out@[a] == before[a] && out@[b] == before[b - 1]);
                } else {
                    assert(out@[a] == before[a - 1] && out@[b] == before[b - 1]);
                }
            }
            assert(v@.take(i + 1) =~= v@.take(i as int).push(v@[i as int]));
            vstd::seq_lib::to_multiset_insert(before, p as int, x);
            vstd::seq_lib::to_multiset_build(v@.take(i as int), v@[i as int]);
        }
        i = i + 1;
    }
    assert(v@.take(n as int) =~= v@);
    out
}

/// The order of a local folder's entries: files (non-empty path) before
/// folders, then by lower-cased name.
pub open spec fn item_le(a: ListItem, b: ListItem) -> bool {
    let fa = a.url@.len() > 0;
    let fb = b.url@.len() > 0;
    if fa != fb {
        fa
    } else {
        lex_le(lowercase(a.item@), lowercase(b.item@))
    }
}

proof fn lemma_item_total(a: ListItem, b: ListItem)
    ensures
        item_le(a, b) || item_le(b, a),
{
    lemma_lex_total(lowercase(a.item@), lowercase(b.item@));
}

proof fn lemma_item_trans(a: ListItem, b: ListItem, c: ListItem)
    requires
        item_le(a, b),
        item_le(b, c),
    ensures
        item_le(a, c),
{
    if (a.url@.len() > 0) == (b.url@.len() > 0) && (b.url@.len() > 0) == (c.url@.len() > 0) {
        lemma_lex_trans(lowercase(a.item@), lowercase(b.item@), lowercase(c.item@));
    }
}

fn item_le_exec(a: &ListItem, b: &ListItem) -> (r: bool)
    ensures
        r == item_le(*a, *b),
{
    let fa = !a.url.as_str().is_empty();
    let fb = !b.url.as_str().is_empty();
    if fa != fb {
        return fa;
    }
    let la = to_lowercase(a.item.as_str());
    let lb = to_lowercase(b.item.as_str());
    lex_le_exec(chars_of(la.as_str()).as_slice(), chars_of(lb.as_str()).as_slice())
}

/// Every entry is at most every later entry, in the local folder order.
pub open spec fn sorted_items(v: Seq<ListItem>) -> bool {
    forall|i: int, j: int| 0 <= i < j < v.len() ==> item_le(#[trigger] v[i], #[trigger] v[j])
}

/// Two entries that the local folder order does not tell apart.
pub open spec fn same_rank(a: ListItem, b: ListItem) -> bool {
    item_le(a, b) && item_le(b, a)
}

/// The entries of `s` that rank the same as `x`, in their order in `s`.
pub open spec fn same_rank_items(s: Seq<ListItem>, x: ListItem) -> Seq<ListItem>
    decreases s.len(),
{
    if s.len() == 0 {
        s
    } else {
        let rest = same_rank_items(s.drop_last(), x);
        if same_rank(s.last(), x) {
            rest.push(s.last())
        } else {
            rest
        }
    }
}

proof fn lemma_rank_add(a: Seq<ListItem>, b: Seq<ListItem>, x: ListItem)
    ensures
        same_rank_items(a + b, x) == same_rank_items(a, x) + same_rank_items(b, x),
    decreases b.len(),
{
    if b.len() == 0 {
        assert(a + b =~= a);
        assert(same_rank_items(a, x) + same_rank_items(b, x) =~= same_rank_items(a, x));
    } else {
        assert((a + b).drop_last() =~= a + b.drop_last());
        assert((a + b).last() == b.last());
        lemma_rank_add(a, b.drop_last(), x);
        if same_rank(b.last(), x) {
            assert((same_rank_items(a, x) + same_rank_items(b.drop_last(), x)).push(b.last())
                =~= same_rank_items(a, x) + same_rank_items(b.drop_last(), x).push(b.last()));
        }
    }
}

proof fn lemma_rank_none(s: Seq<ListItem>, x: ListItem)
    requires
        forall|k: int| 0 <= k < s.len() ==> !same_rank(#[trigger] s[k], x),
    ensures
        same_rank_items(s, x) == Seq::<ListItem>::empty(),
    decreases s.len(),
{
    if s.len() > 0 {
        assert(!same_rank(s[s.len() - 1], x));
        lemma_rank_none(s.drop_last(), x);
    }
}

/// Inserting `e` after every entry at most `e` (and before the first entry
/// above it) puts `e` after the entries ranking the same as it.
proof fn lemma_rank_insert(before: Seq<ListItem>, p: int, e: ListItem, x: ListItem)
    requires
        sorted_items(before),
        0 <= p <= before.len(),
        forall|k: int| 0 <= k < p ==> item_le(#[trigger] before[k], e),
        p < before.len() ==> !item_le(before[p], e),
    ensures
        same_rank_items(before.insert(p, e), x) == if same_rank(e, x) {
            same_rank_items(before, x).push(e)
        } else {
            same_rank_items(before, x)
        },
{
    let head = before.take(p);
    let tail = before.skip(p);
    let one = seq![e];
    assert(before.insert(p, e) =~= head + one + tail);
    assert(before =~= head + tail);
    lemma_rank_add(head + one, tail, x);
    lemma_rank_add(head, one, x);
    lemma_rank_add(head, tail, x);
    assert(one.drop_last() =~= Seq::<ListItem>::empty());
    assert(one.last() == e);
    let e_part = same_rank_items(one, x);
    assert(same_rank_items(one.drop_last(), x) == Seq::<ListItem>::empty());
    let rh = same_rank_items(head, x);
    let rt = same_rank_items(tail, x);
    assert(same_rank_items(before.insert(p, e), x) == rh + e_part + rt);
    assert(same_rank_items(before, x) == rh + rt);
    if same_rank(e, x) {
        assert(e_part =~= seq![e]);
        assert forall|k: int| 0 <= k < tail.len() implies !same_rank(#[trigger] tail[k], x) by {
            if same_rank(tail[k], x) {
                lemma_item_trans(tail[k], x, e);
                if k > 0 {
                    assert(item_le(before[p], before[p + k]));
                    lemma_item_trans(before[p], before[p + k], e);
                }
            }
        }
        lemma_rank_none(tail, x);
        assert(rh + e_part + rt =~= (rh + rt).push(e));
    } else {
        assert(e_part =~= Seq::<ListItem>::empty());
        assert(rh + e_part + rt =~= rh + rt);
    }
}

/// A local folder's entries in display order: files first, then folders,
/// each by lower-cased name; entries that rank the same keep their order.
pub fn sort_local_items(v: &Vec<ListItem>) -> (r: Vec<ListItem>)
    ensures
        sorted_items(r@),
        r@.to_multiset() == v@.to_multiset(),
        forall|x: ListItem| #[trigger] same_rank_items(r@, x) == same_rank_items(v@, x),
{
    let n = v.len();
    let mut out: Vec<ListItem> = Vec::new();
    let mut i: usize = 0;
    while i < n
        invariant
            0 <= i <= n,
            n == v@.len(),
            sorted_items(out@),
            out@.to_multiset() == v@.take(i as int).to_multiset(),
            forall|x: ListItem|
                #[trigger] same_rank_items(out@, x) == same_rank_items(v@.take(i as int), x),
        decreases n - i,
    {
        let x = v[i].copy();
        let m = out.len();
        let mut p: usize = 0;
        while p < m && item_le_exec(&out[p], &x)
            invariant
                0 <= p <= m,
                m == out@.len(),
                forall|k: int| 0 <= k < p ==> item_le(#[trigger] out@[k], x),
            decreases m - p,
        {
            p = p + 1;
        }
        proof {
            if p < m {
                lemma_item_total(out@[p as int], x);
            }
        }
        let ghost before = out@;
        out.insert(p, x);
        proof {
            assert forall|a: int, b: int| 0 <= a < b < out@.len() implies item_le(
                #[trigger] out@[a],
                #[trigger] out@[b],
            ) by {
                if b < p {
                    assert(out@[a] == before[a] && out@[b] == before[b]);
                } else if b == p {
                    assert(out@[a] == before[a]);
                } else if a == p {
                    assert(out@[b] == before[b - 1]);
                    if b - 1 > p {
                        lemma_item_trans(x, before[p as int], before[b - 1]);
                    }
                } else if a < p {
                    assert(out@[a] == before[a] && out@[b] == before[b - 1]);
                } else {
                    assert(out@[a] == before[a - 1] && out@[b] == before[b - 1]);
                }
            }
            assert(v@.take(i + 1) =~= v@.take(i as int).push(v@[i as int]));
            vstd::seq_lib::to_multiset_insert(before, p as int, x);
            vstd::seq_lib::to_multiset_build(v@.take(i as int), v@[i as int]);
            assert(v@.take(i + 1).drop_last() =~= v@.take(i as int));
            assert forall|y: ListItem| #[trigger]
                same_rank_items(out@, y) == same_rank_items(v@.take(i + 1), y) by {
                lemma_rank_insert(before, p as int, x, y);
            }
        }
        i = i + 1;
    }
    assert(v@.take(n as int) =~= v@);
    out
}

/// The entry shown for a file or folder of a local folder: its name, and
/// its path for a file (empty for a folder).
pub fn local_entry(name: String, path: String, is_dir: bool) -> (r: ListItem)
    ensures
        r.item == name,
        is_dir ==> r.url@.len() == 0,
        !is_dir ==> r.url == path,
{
    ListItem { item: name, url: if is_dir { String::new() } else { path } }
}

} // verus!
