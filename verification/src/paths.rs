use vstd::prelude::*;
use crate::text::{chars_of, last_index_of, owned, string_of};

verus! {

/// `Path::join` on Unix: an absolute `rel` replaces `base`; otherwise `rel`
/// is appended, with a `/` in between unless `base` is empty or already
/// ends in one.
pub open spec fn join_spec(base: Seq<char>, rel: Seq<char>) -> Seq<char> {
    if rel.len() > 0 && rel[0] == '/' {
        rel
    } else if base.len() == 0 || base.last() == '/' {
        base + rel
    } else {
        base + seq!['/'] + rel
    }
}

/// `base` joined with `rel`, as `Path::join` does on Unix.
pub fn join(base: &str, rel: &str) -> (r: String)
    ensures
        r@ == join_spec(base@, rel@),
{
    let b = chars_of(base);
    let mut out = chars_of(rel);
    if out.len() > 0 && out[0] == '/' {
        return string_of(out.as_slice());
    }
    let mut res = b;
    if res.len() > 0 && res[res.len() - 1] != '/' {
        res.push('/');
    }
    let ghost head = res@;
    res.append(&mut out);
    assert(res@ =~= join_spec(base@, rel@));
    string_of(res.as_slice())
}

/// What `Path::file_name` returns for a path: its final normal component,
/// or `None` (for `/`, or a path ending in `..`).  It depends on the path
/// alone.
pub uninterp spec fn path_file_name(p: Seq<char>) -> Option<Seq<char>>;

/// The stem of a file name, by the rules `Path::file_stem` documents: the
/// whole name when it has no `.` other than a leading one, else the part
/// before the final `.`.
pub open spec fn stem_of(name: Seq<char>) -> Seq<char> {
    let k = last_index_of(name, '.');
    if k <= 0 {
        name
    } else {
        name.subrange(0, k)
    }
}

/// The extension of a file name, by the rules `Path::extension` documents.
pub open spec fn extension_of(name: Seq<char>) -> Option<Seq<char>> {
    let k = last_index_of(name, '.');
    if k <= 0 {
        None
    } else {
        Some(name.subrange(k + 1, name.len() as int))
    }
}

/// The stem of a path's file name (`Path::file_stem`).
pub open spec fn path_file_stem(p: Seq<char>) -> Option<Seq<char>> {
    match path_file_name(p) {
        Some(n) => Some(stem_of(n)),
        None => None,
    }
}

/// The extension of a path's file name (`Path::extension`).
pub open spec fn path_extension(p: Seq<char>) -> Option<Seq<char>> {
    match path_file_name(p) {
        Some(n) => extension_of(n),
        None => None,
    }
}

pub open spec fn opt_view(o: Option<String>) -> Option<Seq<char>> {
    match o {
        Some(s) => Some(s@),
        None => None,
    }
}

/// `Path::file_name`.  Trusted: the result is named `path_file_name` of the
/// path.
#[verifier::external_body]
pub(crate) fn file_name(p: &str) -> (r: Option<String>)
    ensures
        opt_view(r) == path_file_name(p@),
{
    std::path::Path::new(p).file_name().map(|s| s.to_string_lossy().into_owned())
}

/// Position of the last `.` in a file name, if there is one.
fn last_dot(name: &Vec<char>) -> (k: Option<usize>)
    ensures
        match k {
            Some(i) => i == last_index_of(name@, '.') && i < name@.len(),
            None => last_index_of(name@, '.') == -1,
        },
{
    proof {
        crate::text::lemma_last_index_of_range(name@, '.');
    }
    let n = name.len();
    let mut k: usize = n;
    while k > 0 && name[k - 1] != '.'
        invariant
            0 <= k <= n,
            n == name@.len(),
            forall|j: int| k <= j < n ==> name@[j] != '.',
            last_index_of(name@, '.') < k,
            last_index_of(name@, '.') >= 0 ==> name@[last_index_of(name@, '.')] == '.',
        decreases k,
    {
        k = k - 1;
    }
    if k == 0 {
        None
    } else {
        Some(k - 1)
    }
}

/// The characters `from..to` of `v`.
fn chars_between(v: &Vec<char>, from: usize, to: usize) -> (r: String)
    requires
        from <= to <= v@.len(),
    ensures
        r@ == v@.subrange(from as int, to as int),
{
    let mut out: Vec<char> = Vec::new();
    let mut j: usize = from;
    while j < to
        invariant
            from <= j <= to,
            to <= v@.len(),
            out@ =~= v@.subrange(from as int, j as int),
        decreases to - j,
    {
        out.push(v[j]);
        j = j + 1;
    }
    string_of(out.as_slice())
}

/// `Path::file_stem`: the stem of the path's file name, by the rules its
/// documentation lists.
pub fn file_stem(p: &str) -> (r: Option<String>)
    ensures
        opt_view(r) == path_file_stem(p@),
{
    match file_name(p) {
        Some(n) => {
            let cs = chars_of(n.as_str());
            match last_dot(&cs) {
                Some(k) => if k == 0 {
                    Some(n)
                } else {
                    Some(chars_between(&cs, 0, k))
                },
                None => Some(n),
            }
        },
        None => None,
    }
}

/// `Path::extension`: the extension of the path's file name, by the rules
/// its documentation lists.
pub fn extension(p: &str) -> (r: Option<String>)
    ensures
        opt_view(r) == path_extension(p@),
{
    match file_name(p) {
        Some(n) => {
            let cs = chars_of(n.as_str());
            match last_dot(&cs) {
                Some(k) => if k == 0 {
                    None
                } else {
                    assert(cs@.len() == cs.len());
                    Some(chars_between(&cs, k + 1, cs.len()))
                },
                None => None,
            }
        },
        None => None,
    }
}

/// The name under which a list file is shown: its stem, or `<unknown>`.
pub open spec fn list_name_spec(p: Seq<char>) -> Seq<char> {
    match path_file_stem(p) {
        Some(s) => s,
        None => "<unknown>"@,
    }
}

/// The display name of a list file: its file stem, or `<unknown>`.
pub fn extract_list_name(path: &str) -> (r: String)
    ensures
        r@ == list_name_spec(path@),
{
    match file_stem(path) {
        Some(s) => s,
        None => owned("<unknown>"),
    }
}

/// Whether a path names a `.json` file.
pub open spec fn is_json_path(p: Seq<char>) -> bool {
    path_extension(p) == Some("json"@)
}

pub fn has_json_extension(p: &str) -> (b: bool)
    ensures
        b == is_json_path(p@),
{
    match extension(p) {
        Some(e) => {
            let json = owned("json");
            e == json
        },
        None => false,
    }
}

// ---------------------------------------------------------------------------
// Path equality
// ---------------------------------------------------------------------------

/// The text of a path cut at each `/`: `k` slashes give `k + 1` parts.
pub open spec fn slash_parts(p: Seq<char>) -> Seq<Seq<char>>
    decreases p.len(),
{
    if p.len() == 0 {
        seq![Seq::<char>::empty()]
    } else {
        let rest = slash_parts(p.drop_last());
        if p.last() == '/' {
            rest.push(Seq::<char>::empty())
        } else {
            rest.update(rest.len() - 1, rest.last().push(p.last()))
        }
    }
}

/// A part that stands for a component: neither empty nor `.`.
pub open spec fn named_part(x: Seq<char>) -> bool {
    x.len() > 0 && x != seq!['.']
}

/// The parts that stand for components, in order.
pub open spec fn named_parts(parts: Seq<Seq<char>>) -> Seq<Seq<char>>
    decreases parts.len(),
{
    if parts.len() == 0 {
        parts
    } else {
        let r = named_parts(parts.drop_last());
        if named_part(parts.last()) {
            r.push(parts.last())
        } else {
            r
        }
    }
}

/// The components of a path on Unix, as `Path::components` documents
/// them: whether the path starts at the root, whether it starts with a `.`
/// component (only a path that is `.` or begins with `./`), and the other
/// components, repeated separators, a trailing separator and every other
/// `.` being normalized away.  Two `Path`s are equal exactly when their
/// components are.
pub open spec fn path_components(p: Seq<char>) -> (bool, bool, Seq<Seq<char>>) {
    let root = p.len() > 0 && p[0] == '/';
    (root, !root && slash_parts(p)[0] == seq!['.'], named_parts(slash_parts(p)))
}

proof fn lemma_slash_parts_len(p: Seq<char>)
    ensures
        slash_parts(p).len() >= 1,
        slash_parts(p).len() == 1 ==> slash_parts(p)[0] == p,
    decreases p.len(),
{
    if p.len() > 0 {
        lemma_slash_parts_len(p.drop_last());
        if p.last() != '/' && slash_parts(p.drop_last()).len() == 1 {
            assert(p.drop_last().push(p.last()) =~= p);
        }
    }
}

/// The character views of a sequence of character vectors.
pub open spec fn char_views(v: Seq<Vec<char>>) -> Seq<Seq<char>> {
    Seq::new(v.len(), |i: int| v[i]@)
}

fn chars_equal(a: &Vec<char>, b: &Vec<char>) -> (r: bool)
    ensures
        r == (a@ == b@),
{
    if a.len() != b.len() {
        return false;
    }
    let n = a.len();
    let mut i: usize = 0;
    while i < n
        invariant
            0 <= i <= n,
            n == a@.len(),
            n == b@.len(),
            forall|k: int| 0 <= k < i ==> a@[k] == b@[k],
        decreases n - i,
    {
        if a[i] != b[i] {
            return false;
        }
        i = i + 1;
    }
    assert(a@ =~= b@);
    true
}

/// The components of a path, computed.
fn components_of(p: &str) -> (r: (bool, bool, Vec<Vec<char>>))
    ensures
        (r.0, r.1, char_views(r.2@)) == path_components(p@),
{
    let cs = chars_of(p);
    let n = cs.len();
    let mut out: Vec<Vec<char>> = Vec::new();
    let mut cur: Vec<char> = Vec::new();
    let mut first: Vec<char> = Vec::new();
    let mut seen_slash = false;
    let mut i: usize = 0;
    proof {
        assert(cs@.take(0) =~= Seq::<char>::empty());
        assert(char_views(out@) =~= Seq::<Seq<char>>::empty());
    }
    while i < n
        invariant
            0 <= i <= n,
            n == cs@.len(),
            cs@ == p@,
            slash_parts(cs@.take(i as int)).len() >= 1,
            slash_parts(cs@.take(i as int)).last() == cur@,
            char_views(out@) == named_parts(slash_parts(cs@.take(i as int)).drop_last()),
            !seen_slash ==> slash_parts(cs@.take(i as int)).len() == 1,
            seen_slash ==> slash_parts(cs@.take(i as int)).len() > 1
                && slash_parts(cs@.take(i as int))[0] == first@,
        decreases n - i,
    {
        let c = cs[i];
        let ghost t = cs@.take(i + 1);
        let ghost prev = slash_parts(cs@.take(i as int));
        proof {
            assert(t.drop_last() =~= cs@.take(i as int));
            assert(t.last() == c);
            assert(named_parts(prev) == if named_part(prev.last()) {
                named_parts(prev.drop_last()).push(prev.last())
            } else {
                named_parts(prev.drop_last())
            });
        }
        if c == '/' {
            if !seen_slash {
                first = cur.clone();
                seen_slash = true;
            }
            let keep = cur.len() > 0 && !(cur.len() == 1 && cur[0] == '.');
            proof {
                assert(keep == named_part(cur@)) by {
                    if cur@.len() == 1 && cur@[0] == '.' {
                        assert(cur@ =~= seq!['.']);
                    }
                }
                assert(slash_parts(t) == prev.push(Seq::<char>::empty()));
                assert(slash_parts(t).drop_last() =~= prev);
            }
            let ghost before = out@;
            if keep {
                out.push(cur);
                assert(char_views(out@) =~= char_views(before).push(cur@));
            }
            cur = Vec::new();
        } else {
            cur.push(c);
            proof {
                assert(slash_parts(t) == prev.update(prev.len() - 1, prev.last().push(c)));
                assert(slash_parts(t).drop_last() =~= prev.drop_last());
            }
        }
        i = i + 1;
    }
    proof {
        assert(cs@.take(n as int) =~= cs@);
        lemma_slash_parts_len(cs@);
    }
    let ghost parts = slash_parts(cs@);
    let keep = cur.len() > 0 && !(cur.len() == 1 && cur[0] == '.');
    proof {
        assert(keep == named_part(cur@)) by {
            if cur@.len() == 1 && cur@[0] == '.' {
                assert(cur@ =~= seq!['.']);
            }
        }
    }
    let ghost before = out@;
    if keep {
        out.push(cur);
        assert(char_views(out@) =~= char_views(before).push(parts.last()));
    }
    let head = if seen_slash {
        first
    } else {
        cur_copy_first(&cs)
    };
    let root = n > 0 && cs[0] == '/';
    let dot = head.len() == 1 && head[0] == '.';
    proof {
        assert(dot == (head@ == seq!['.'])) by {
            if head@.len() == 1 && head@[0] == '.' {
                assert(head@ =~= seq!['.']);
            }
        }
    }
    (root, !root && dot, out)
}

/// The first part of a path that holds no `/`: the whole path.
fn cur_copy_first(cs: &Vec<char>) -> (r: Vec<char>)
    ensures
        r@ == cs@,
{
    let mut r: Vec<char> = Vec::new();
    let n = cs.len();
    let mut i: usize = 0;
    while i < n
        invariant
            0 <= i <= n,
            n == cs@.len(),
            r@ =~= cs@.take(i as int),
        decreases n - i,
    {
        r.push(cs[i]);
        i = i + 1;
    }
    assert(cs@.take(n as int) =~= cs@);
    r
}

/// Whether two paths name the same path, as `==` on `Path` tells: their
/// components agree.
pub fn same_path(a: &str, b: &str) -> (r: bool)
    ensures
        r == (path_components(a@) == path_components(b@)),
{
    let (ra, da, pa) = components_of(a);
    let (rb, db, pb) = components_of(b);
    if ra != rb || da != db || pa.len() != pb.len() {
        proof {
            if pa.len() != pb.len() {
                assert(char_views(pa@).len() != char_views(pb@).len());
            }
        }
        return false;
    }
    let n = pa.len();
    let mut i: usize = 0;
    while i < n
        invariant
            0 <= i <= n,
            n == pa@.len(),
            n == pb@.len(),
            forall|k: int| 0 <= k < i ==> pa@[k]@ == pb@[k]@,
            (ra, da, char_views(pa@)) == path_components(a@),
            (rb, db, char_views(pb@)) == path_components(b@),
        decreases n - i,
    {
        if !chars_equal(&pa[i], &pb[i]) {
            assert(char_views(pa@)[i as int] != char_views(pb@)[i as int]);
            assert(char_views(pa@) != char_views(pb@));
            return false;
        }
        i = i + 1;
    }
    assert(char_views(pa@) =~= char_views(pb@));
    true
}

} // verus!
