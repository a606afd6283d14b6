use vstd::prelude::*;

verus! {

// ---------------------------------------------------------------------------
// Characters and strings
// ---------------------------------------------------------------------------

/// The characters of a string, in order.
pub fn chars_of(s: &str) -> (v: Vec<char>)
    ensures
        v@ == s@,
{
    let mut v: Vec<char> = Vec::new();
    for c in it: s.chars()
        invariant
            v@ == it.seq().take(it.index() as int),
            it.seq() == s@,
    {
        v.push(c);
    }
    v
}

/// Builds a `String` holding exactly the given characters
/// (std's `FromIterator<&char>` for `String`).
#[verifier::external_body]
pub(crate) fn string_of(v: &[char]) -> (s: String)
    ensures
        s@ == v@,
{
    v.iter().collect()
}

/// A `String` copy of a string slice.
pub fn owned(s: &str) -> (r: String)
    ensures
        r@ == s@,
{
    let v = chars_of(s);
    string_of(v.as_slice())
}

/// `a` followed by `b`.
pub fn append_str(a: &str, b: &str) -> (r: String)
    ensures
        r@ == a@ + b@,
{
    let mut v = chars_of(a);
    let mut w = chars_of(b);
    v.append(&mut w);
    string_of(v.as_slice())
}

/// Whitespace as `char::is_whitespace` defines it: the Unicode
/// `White_Space` property.
pub open spec fn is_ws(c: char) -> bool {
    let u = c as u32;
    ||| 0x9 <= u <= 0xd
    ||| u == 0x20
    ||| u == 0x85
    ||| u == 0xa0
    ||| u == 0x1680
    ||| 0x2000 <= u <= 0x200a
    ||| u == 0x2028
    ||| u == 0x2029
    ||| u == 0x202f
    ||| u == 0x205f
    ||| u == 0x3000
}

pub fn is_whitespace(c: char) -> (b: bool)
    ensures
        b == is_ws(c),
{
    let u = c as u32;
    (0x9 <= u && u <= 0xd) || u == 0x20 || u == 0x85 || u == 0xa0 || u == 0x1680 || (0x2000 <= u
        && u <= 0x200a) || u == 0x2028 || u == 0x2029 || u == 0x202f || u == 0x205f || u == 0x3000
}

/// `s` without its leading whitespace.
pub open spec fn trim_start_spec(s: Seq<char>) -> Seq<char>
    decreases s.len(),
{
    if s.len() > 0 && is_ws(s[0]) {
        trim_start_spec(s.drop_first())
    } else {
        s
    }
}

/// `s` without its trailing whitespace.
pub open spec fn trim_end_spec(s: Seq<char>) -> Seq<char>
    decreases s.len(),
{
    if s.len() > 0 && is_ws(s.last()) {
        trim_end_spec(s.drop_last())
    } else {
        s
    }
}

/// `str::trim`: leading and trailing whitespace removed.
pub open spec fn trim_spec(s: Seq<char>) -> Seq<char> {
    trim_end_spec(trim_start_spec(s))
}

proof fn lemma_trim_start_skip(s: Seq<char>, i: int)
    requires
        0 <= i <= s.len(),
        forall|j: int| 0 <= j < i ==> is_ws(#[trigger] s[j]),
    ensures
        trim_start_spec(s) == trim_start_spec(s.subrange(i, s.len() as int)),
    decreases i,
{
    if i > 0 {
        assert(s.drop_first().subrange(i - 1, s.drop_first().len() as int) =~= s.subrange(
            i,
            s.len() as int,
        ));
        assert forall|j: int| 0 <= j < i - 1 implies is_ws(#[trigger] s.drop_first()[j]) by {
            assert(s.drop_first()[j] == s[j + 1]);
        }
        lemma_trim_start_skip(s.drop_first(), i - 1);
    } else {
        assert(s.subrange(0, s.len() as int) =~= s);
    }
}

proof fn lemma_trim_end_skip(s: Seq<char>, k: int)
    requires
        0 <= k <= s.len(),
        forall|j: int| k <= j < s.len() ==> is_ws(#[trigger] s[j]),
    ensures
        trim_end_spec(s) == trim_end_spec(s.subrange(0, k)),
    decreases s.len() - k,
{
    if k < s.len() {
        assert(s.drop_last().subrange(0, k) =~= s.subrange(0, k));
        lemma_trim_end_skip(s.drop_last(), k);
    } else {
        assert(s.subrange(0, k) =~= s);
    }
}

/// `str::trim`.
pub fn trim(s: &[char]) -> (r: Vec<char>)
    ensures
        r@ == trim_spec(s@),
{
    let n = s.len();
    let mut i: usize = 0;
    while i < n && is_whitespace(s[i])
        invariant
            0 <= i <= n,
            n == s@.len(),
            forall|j: int| 0 <= j < i ==> is_ws(#[trigger] s@[j]),
        decreases n - i,
    {
        i = i + 1;
    }
    proof {
        lemma_trim_start_skip(s@, i as int);
    }
    let ghost t = s@.subrange(i as int, n as int);
    assert(i < n ==> !is_ws(t[0]));
    assert(trim_start_spec(s@) == t);
    let mut k: usize = n;
    while k > i && is_whitespace(s[k - 1])
        invariant
            i <= k <= n,
            n == s@.len(),
            forall|j: int| k <= j < n ==> is_ws(#[trigger] s@[j]),
        decreases k,
    {
        k = k - 1;
    }
    proof {
        assert forall|j: int| k - i <= j < t.len() implies is_ws(#[trigger] t[j]) by {
            assert(t[j] == s@[j + i]);
        }
        lemma_trim_end_skip(t, k - i);
        assert(t.subrange(0, k - i) =~= s@.subrange(i as int, k as int));
    }
    let mut r: Vec<char> = Vec::new();
    let mut j: usize = i;
    while j < k
        invariant
            i <= j <= k <= n,
            n == s@.len(),
            r@ =~= s@.subrange(i as int, j as int),
        decreases k - j,
    {
        r.push(s[j]);
        j = j + 1;
    }
    r
}

/// The part of `s` before the first occurrence of `d` (all of `s` when
/// `d` does not occur): the first piece of `str::split`.
pub open spec fn before_first(s: Seq<char>, d: char) -> Seq<char>
    decreases s.len(),
{
    if s.len() == 0 {
        s
    } else if s[0] == d {
        Seq::empty()
    } else {
        seq![s[0]] + before_first(s.drop_first(), d)
    }
}

/// Index of the last occurrence of `d` in `s`, or -1.
pub open spec fn last_index_of(s: Seq<char>, d: char) -> int
    decreases s.len(),
{
    if s.len() == 0 {
        -1
    } else if s.last() == d {
        s.len() - 1
    } else {
        last_index_of(s.drop_last(), d)
    }
}

/// `last_index_of` points at the last `d`, or is -1 when there is none.
pub proof fn lemma_last_index_of_range(s: Seq<char>, d: char)
    ensures
        -1 <= last_index_of(s, d) < s.len(),
        last_index_of(s, d) >= 0 ==> s[last_index_of(s, d)] == d,
        forall|j: int| last_index_of(s, d) < j < s.len() ==> s[j] != d,
    decreases s.len(),
{
    if s.len() > 0 && s.last() != d {
        lemma_last_index_of_range(s.drop_last(), d);
        assert forall|j: int| last_index_of(s, d) < j < s.len() implies s[j] != d by {
            if j < s.len() - 1 {
                assert(s[j] == s.drop_last()[j]);
            }
        }
    }
}

/// `cut_at`: the text before the first `delim`, trimmed.
pub open spec fn cut_at_spec(s: Seq<char>, delim: char) -> Seq<char> {
    trim_spec(before_first(s, delim))
}

/// `remove_extension`: the text before the last `.`, or all of it.
pub open spec fn remove_extension_spec(s: Seq<char>) -> Seq<char> {
    let k = last_index_of(s, '.');
    if k >= 0 {
        s.subrange(0, k)
    } else {
        s
    }
}

/// `clean_all`: a title without its `(..)` and `[..]` annotations and its
/// extension.
pub open spec fn clean_all_spec(s: Seq<char>) -> Seq<char> {
    trim_spec(remove_extension_spec(cut_at_spec(cut_at_spec(s, '('), '[')))
}

fn before_first_vec(s: &[char], d: char) -> (r: Vec<char>)
    ensures
        r@ == before_first(s@, d),
{
    let n = s.len();
    let mut i: usize = 0;
    let mut r: Vec<char> = Vec::new();
    assert(s@.subrange(0, n as int) =~= s@);
    assert(r@ + s@ =~= s@);
    while i < n && s[i] != d
        invariant
            0 <= i <= n,
            n == s@.len(),
            r@ == s@.subrange(0, i as int),
            before_first(s@, d) == r@ + before_first(s@.subrange(i as int, n as int), d),
        decreases n - i,
    {
        let ghost rest = s@.subrange(i as int, n as int);
        assert(rest.drop_first() =~= s@.subrange(i + 1, n as int));
        r.push(s[i]);
        assert(r@ =~= s@.subrange(0, i + 1));
        i = i + 1;
    }
    assert(before_first(s@.subrange(i as int, n as int), d) =~= Seq::<char>::empty());
    r
}

/// Text of `input` before the first `delim`, with surrounding whitespace
/// removed.
pub fn cut_at(input: &str, delim: char) -> (r: String)
    ensures
        r@ == cut_at_spec(input@, delim),
{
    let cs = chars_of(input);
    let head = before_first_vec(cs.as_slice(), delim);
    let t = trim(head.as_slice());
    string_of(t.as_slice())
}

fn remove_extension_vec(s: &[char]) -> (r: Vec<char>)
    ensures
        r@ == remove_extension_spec(s@),
{
    proof {
        lemma_last_index_of_range(s@, '.');
    }
    let n = s.len();
    let mut k: usize = n;
    while k > 0 && s[k - 1] != '.'
        invariant
            0 <= k <= n,
            n == s@.len(),
            forall|j: int| k <= j < n ==> s@[j] != '.',
            last_index_of(s@, '.') < k,
            last_index_of(s@, '.') >= 0 ==> s@[last_index_of(s@, '.')] == '.',
        decreases k,
    {
        k = k - 1;
    }
    let mut r: Vec<char> = Vec::new();
    if k == 0 {
        assert(last_index_of(s@, '.') == -1);
        let mut j: usize = 0;
        while j < n
            invariant
                0 <= j <= n,
                n == s@.len(),
                r@ =~= s@.subrange(0, j as int),
            decreases n - j,
        {
            r.push(s[j]);
            j = j + 1;
        }
        assert(s@.subrange(0, n as int) =~= s@);
    } else {
        assert(last_index_of(s@, '.') == k - 1);
        let mut j: usize = 0;
        while j < k - 1
            invariant
                0 <= j <= k - 1,
                k <= n,
                n == s@.len(),
                r@ =~= s@.subrange(0, j as int),
            decreases k - 1 - j,
        {
            r.push(s[j]);
            j = j + 1;
        }
    }
    r
}

/// Text of `input` before its last `.`, or all of it when there is none.
pub fn remove_extension(input: &str) -> (r: String)
    ensures
        r@ == remove_extension_spec(input@),
{
    let cs = chars_of(input);
    let r = remove_extension_vec(cs.as_slice());
    string_of(r.as_slice())
}

/// A title cleaned for a web search: cut at `(` and `[`, extension removed,
/// trimmed.
pub fn clean_all(input: &str) -> (r: String)
    ensures
        r@ == clean_all_spec(input@),
{
    let a = cut_at(input, '(');
    let b = cut_at(a.as_str(), '[');
    let c = remove_extension(b.as_str());
    let cs = chars_of(c.as_str());
    let t = trim(cs.as_slice());
    string_of(t.as_slice())
}


// ---------------------------------------------------------------------------
// File names
// ---------------------------------------------------------------------------

/// One character of a file name after sanitising: quotes vanish, path
/// separators and shell-hostile characters become `_`.
pub open spec fn sanitize_char(c: char) -> Seq<char> {
    if c == '\'' || c == '"' {
        Seq::empty()
    } else if c == '/' || c == '\\' || c == ':' || c == '*' || c == '?' || c == '<' || c == '>'
        || c == '|' {
        seq!['_']
    } else {
        seq![c]
    }
}

/// `sanitize_filename` on a sequence of characters.
pub open spec fn sanitize_spec(s: Seq<char>) -> Seq<char>
    decreases s.len(),
{
    if s.len() == 0 {
        Seq::empty()
    } else {
        sanitize_spec(s.drop_last()) + sanitize_char(s.last())
    }
}

/// The file name under which an item is stored: quotes removed and each of
/// `/ \ : * ? < > |` replaced by `_`.
pub fn sanitize_filename(filename: &str) -> (r: String)
    ensures
        r@ == sanitize_spec(filename@),
{
    let cs = chars_of(filename);
    let n = cs.len();
    let mut out: Vec<char> = Vec::new();
    let mut i: usize = 0;
    while i < n
        invariant
            0 <= i <= n,
            n == cs@.len(),
            out@ == sanitize_spec(cs@.take(i as int)),
        decreases n - i,
    {
        let c = cs[i];
        assert(cs@.take(i + 1).drop_last() =~= cs@.take(i as int));
        if c == '\'' || c == '"' {
        } else if c == '/' || c == '\\' || c == ':' || c == '*' || c == '?' || c == '<' || c == '>'
            || c == '|' {
            out.push('_');
        } else {
            out.push(c);
        }
        assert(out@ =~= sanitize_spec(cs@.take(i + 1)));
        i = i + 1;
    }
    assert(cs@.take(n as int) =~= cs@);
    string_of(out.as_slice())
}

/// A character that `sanitize_filename` keeps as it is.
pub open spec fn safe_char(c: char) -> bool {
    !(c == '\'' || c == '"' || c == '/' || c == '\\' || c == ':' || c == '*' || c == '?' || c
        == '<' || c == '>' || c == '|')
}

proof fn lemma_sanitize_append(a: Seq<char>, b: Seq<char>)
    ensures
        sanitize_spec(a + b) == sanitize_spec(a) + sanitize_spec(b),
    decreases b.len(),
{
    if b.len() == 0 {
        assert(a + b =~= a);
        assert(sanitize_spec(a) + sanitize_spec(b) =~= sanitize_spec(a));
    } else {
        assert((a + b).drop_last() =~= a + b.drop_last());
        assert((a + b).last() == b.last());
        lemma_sanitize_append(a, b.drop_last());
        assert(sanitize_spec(a) + sanitize_spec(b.drop_last()) + sanitize_char(b.last())
            =~= sanitize_spec(a) + (sanitize_spec(b.drop_last()) + sanitize_char(b.last())));
    }
}

proof fn lemma_sanitize_keeps_safe(s: Seq<char>)
    requires
        forall|i: int| 0 <= i < s.len() ==> safe_char(#[trigger] s[i]),
    ensures
        sanitize_spec(s) == s,
    decreases s.len(),
{
    if s.len() > 0 {
        lemma_sanitize_keeps_safe(s.drop_last());
        assert(safe_char(s[s.len() - 1]));
        assert(s.drop_last() + seq![s.last()] =~= s);
    }
}

/// A sanitised file name holds no quote and none of `/ \ : * ? < > |`, so
/// sanitising it again changes nothing.
pub proof fn lemma_sanitized_name_is_safe(s: Seq<char>)
    ensures
        forall|i: int|
            0 <= i < sanitize_spec(s).len() ==> safe_char(#[trigger] sanitize_spec(s)[i]),
        sanitize_spec(sanitize_spec(s)) == sanitize_spec(s),
    decreases s.len(),
{
    if s.len() > 0 {
        lemma_sanitized_name_is_safe(s.drop_last());
        let a = sanitize_spec(s.drop_last());
        let b = sanitize_char(s.last());
        assert forall|i: int| 0 <= i < b.len() implies safe_char(#[trigger] b[i]) by {}
        assert forall|i: int| 0 <= i < (a + b).len() implies safe_char(#[trigger] (a + b)[i]) by {
            if i < a.len() {
                assert((a + b)[i] == a[i]);
            } else {
                assert((a + b)[i] == b[i - a.len()]);
            }
        }
        lemma_sanitize_append(a, b);
        lemma_sanitize_keeps_safe(b);
    }
}

// ---------------------------------------------------------------------------
// Searching and replacing
// ---------------------------------------------------------------------------

/// `p` occurs in `s` starting at index `i`.
pub open spec fn occurs_at(s: Seq<char>, p: Seq<char>, i: int) -> bool {
    0 <= i && i + p.len() <= s.len() && s.subrange(i, i + p.len()) == p
}

/// `str::contains` with a string pattern.
pub open spec fn contains_spec(s: Seq<char>, p: Seq<char>) -> bool {
    exists|i: int| occurs_at(s, p, i)
}

/// Whether `p` occurs in `s` at index `i`.
pub fn matches_at(s: &[char], p: &[char], i: usize) -> (b: bool)
    requires
        i <= s@.len(),
    ensures
        b == occurs_at(s@, p@, i as int),
{
    if p.len() > s.len() - i {
        return false;
    }
    let mut j: usize = 0;
    while j < p.len()
        invariant
            0 <= j <= p@.len(),
            i <= s@.len(),
            i + p@.len() <= s@.len(),
            forall|k: int| 0 <= k < j ==> s@[i + k] == p@[k],
        decreases p@.len() - j,
    {
        assert(i + j < s.len());
        if s[i + j] != p[j] {
            assert(s@.subrange(i as int, i + p@.len())[j as int] != p@[j as int]);
            return false;
        }
        j = j + 1;
    }
    assert(s@.subrange(i as int, i + p@.len()) =~= p@);
    true
}

/// Whether `p` occurs anywhere in `s`.
pub fn contains_chars(s: &[char], p: &[char]) -> (b: bool)
    ensures
        b == contains_spec(s@, p@),
{
    if p.len() == 0 {
        assert(s@.subrange(0, 0) =~= p@);
        assert(occurs_at(s@, p@, 0));
        return true;
    }
    let n = s.len();
    let mut i: usize = 0;
    while i < n
        invariant
            0 <= i <= n,
            n == s@.len(),
            p@.len() > 0,
            forall|k: int| 0 <= k < i ==> !occurs_at(s@, p@, k),
        decreases n - i,
    {
        if matches_at(s, p, i) {
            return true;
        }
        i = i + 1;
    }
    assert forall|k: int| !occurs_at(s@, p@, k) by {
        if 0 <= k < i {
        }
    }
    false
}

/// `str::replace` with a non-empty pattern: every non-overlapping
/// occurrence of `p`, scanning left to right, replaced by `t`.
pub open spec fn replace_spec(s: Seq<char>, p: Seq<char>, t: Seq<char>) -> Seq<char>
    decreases s.len(),
{
    if s.len() == 0 {
        s
    } else if p.len() > 0 && p.len() <= s.len() && s.take(p.len() as int) == p {
        t + replace_spec(s.skip(p.len() as int), p, t)
    } else {
        seq![s[0]] + replace_spec(s.drop_first(), p, t)
    }
}

/// Replaces every occurrence of `p` in `s` by `t`.
pub fn replace_all(s: &str, p: &str, t: &str) -> (r: String)
    requires
        p@.len() > 0,
    ensures
        r@ == replace_spec(s@, p@, t@),
{
    let cs = chars_of(s);
    let ps = chars_of(p);
    let ts = chars_of(t);
    let n = cs.len();
    let mut out: Vec<char> = Vec::new();
    let mut i: usize = 0;
    assert(cs@.skip(0) =~= cs@);
    while i < n
        invariant
            0 <= i <= n,
            n == cs@.len(),
            ps@.len() > 0,
            replace_spec(cs@, ps@, ts@) == out@ + replace_spec(cs@.skip(i as int), ps@, ts@),
        decreases n - i,
    {
        let ghost rest = cs@.skip(i as int);
        if matches_at(cs.as_slice(), ps.as_slice(), i) {
            assert(rest.take(ps@.len() as int) =~= cs@.subrange(i as int, i + ps@.len()));
            assert(rest.skip(ps@.len() as int) =~= cs@.skip(i + ps@.len()));
            let mut j: usize = 0;
            let ghost before = out@;
            while j < ts.len()
                invariant
                    0 <= j <= ts@.len(),
                    out@ =~= before + ts@.take(j as int),
                decreases ts@.len() - j,
            {
                out.push(ts[j]);
                j = j + 1;
            }
            assert(ts@.take(ts@.len() as int) =~= ts@);
            assert(out@ + replace_spec(cs@.skip(i + ps@.len()), ps@, ts@) =~= before + (ts@
                + replace_spec(rest.skip(ps@.len() as int), ps@, ts@)));
            i = i + ps.len();
        } else {
            assert(ps@.len() <= rest.len() ==> rest.take(ps@.len() as int) =~= cs@.subrange(
                i as int,
                i + ps@.len(),
            ));
            assert(rest.drop_first() =~= cs@.skip(i + 1));
            let ghost before = out@;
            out.push(cs[i]);
            assert(out@ + replace_spec(cs@.skip(i + 1), ps@, ts@) =~= before + (seq![rest[0]]
                + replace_spec(rest.drop_first(), ps@, ts@)));
            i = i + 1;
        }
    }
    assert(cs@.skip(n as int) =~= Seq::<char>::empty());
    assert(out@ + Seq::<char>::empty() =~= out@);
    string_of(out.as_slice())
}

// ---------------------------------------------------------------------------
// Case folding
// ---------------------------------------------------------------------------

/// What `str::to_lowercase` returns for a string: Unicode lowercase
/// mapping, a function of the string alone.
pub uninterp spec fn lowercase(s: Seq<char>) -> Seq<char>;

/// `str::to_lowercase`.  Trusted: the result is named `lowercase` of the
/// argument; nothing more about Unicode case mapping is claimed.
#[verifier::external_body]
pub(crate) fn to_lowercase(s: &str) -> (r: String)
    ensures
        r@ == lowercase(s@),
{
    s.to_lowercase()
}

/// Case-insensitive substring test, as the searches use it: both sides are
/// lowercased first.
pub fn contains_ignore_case(hay: &str, needle: &str) -> (b: bool)
    ensures
        b == contains_spec(lowercase(hay@), lowercase(needle@)),
{
    let h = to_lowercase(hay);
    let n = to_lowercase(needle);
    let hs = chars_of(h.as_str());
    let ns = chars_of(n.as_str());
    contains_chars(hs.as_slice(), ns.as_slice())
}

} // verus!
