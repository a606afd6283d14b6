use vstd::prelude::*;
use vstd::utf8::{decode_utf8, encode_utf8, valid_utf8};
use crate::app::App;
use crate::paths::{join, join_spec};
use crate::text::{
    chars_of,
    append_str,
    last_index_of,
    lowercase,
    matches_at,
    string_of,
    to_lowercase,
    trim,
    trim_spec,
};
use crate::urlcode::{percent_decode, url_decode};

verus! {

/// A link found in the output of the list's `curl` command: the file name
/// it points at, and the link itself.
#[derive(Debug)]
pub struct LinkItem {
    pub item: String,
    pub url: String,
}

/// How far the scan of the `curl` output has got: line `current` of
/// `total`, with `found` links so far.
#[derive(Debug, Clone, Copy, PartialEq, Eq, Structural)]
pub struct Progress {
    pub current: usize,
    pub total: usize,
    pub found: usize,
}

/// The links found and the progress reported line by line.
#[derive(Debug)]
pub struct LinkScan {
    pub items: Vec<LinkItem>,
    pub progress: Vec<Progress>,
}

/// What a running list creation reports: how far the scan has got, that
/// the list was written, or that running the command or writing failed.
#[derive(Debug, Clone, Copy, PartialEq, Eq, Structural)]
pub enum CreateListEvent {
    Progress { current: usize, total: usize, found: usize },
    Finished,
    Error,
}

/// What to run to create a new list, and where to write it.
#[derive(Debug)]
pub struct CreateListJob {
    pub input_name: String,
    pub curl_command: String,
    pub output_path: String,
}

/// Index of the first `c` in `s`, or -1.
pub open spec fn find_char(s: Seq<char>, c: char) -> int
    decreases s.len(),
{
    if s.len() == 0 {
        -1
    } else if s[0] == c {
        0
    } else {
        let r = find_char(s.drop_first(), c);
        if r < 0 {
            -1
        } else {
            r + 1
        }
    }
}

/// `find_char` gives the first position of `c`, or -1 when `c` does not
/// occur.
pub proof fn lemma_find_char(s: Seq<char>, c: char)
    ensures
        -1 <= find_char(s, c) < s.len(),
        find_char(s, c) >= 0 ==> s[find_char(s, c)] == c,
        find_char(s, c) >= 0 ==> forall|j: int| 0 <= j < find_char(s, c) ==> s[j] != c,
        find_char(s, c) < 0 ==> forall|j: int| 0 <= j < s.len() ==> s[j] != c,
    decreases s.len(),
{
    if s.len() > 0 && s[0] != c {
        lemma_find_char(s.drop_first(), c);
        assert forall|j: int| 1 <= j < s.len() implies s[j] == s.drop_first()[j - 1] by {}
    }
}

/// A line without the `\r` of a `\r\n` ending.
pub open spec fn strip_cr(l: Seq<char>) -> Seq<char> {
    if l.len() > 0 && l.last() == '\r' {
        l.drop_last()
    } else {
        l
    }
}

/// `str::lines`: the text split at `\n` and `\r\n`; a final line ending is
/// optional.
pub open spec fn lines_spec(s: Seq<char>) -> Seq<Seq<char>>
    decreases s.len(),
{
    if s.len() == 0 {
        Seq::empty()
    } else {
        let k = find_char(s, '\n');
        if k < 0 {
            seq![s]
        } else {
            proof {
                lemma_find_char(s, '\n');
            }
            seq![strip_cr(s.take(k))] + lines_spec(s.skip(k + 1))
        }
    }
}

/// `find_char` gives the first position of `c`, or -1 when `c` does not
/// occur.
pub proof fn lemma_find_char_at(s: Seq<char>, c: char, k: int)
    requires
        0 <= k < s.len(),
        s[k] == c,
        forall|j: int| 0 <= j < k ==> s[j] != c,
    ensures
        find_char(s, c) == k,
    decreases k,
{
    if k > 0 {
        lemma_find_char_at(s.drop_first(), c, k - 1);
    }
}

/// `find_char` gives the first position of `c`, or -1 when `c` does not
/// occur.
pub proof fn lemma_find_char_none(s: Seq<char>, c: char)
    requires
        forall|j: int| 0 <= j < s.len() ==> s[j] != c,
    ensures
        find_char(s, c) == -1,
    decreases s.len(),
{
    if s.len() > 0 {
        lemma_find_char_none(s.drop_first(), c);
    }
}

/// The lines of a text.
pub fn lines_of(s: &[char]) -> (r: Vec<Vec<char>>)
    ensures
        r@.len() == lines_spec(s@).len(),
        forall|i: int| 0 <= i < r@.len() ==> (#[trigger] r@[i])@ == lines_spec(s@)[i],
{
    let n = s.len();
    let mut out: Vec<Vec<char>> = Vec::new();
    let ghost mut outs: Seq<Seq<char>> = Seq::empty();
    let mut start: usize = 0;
    let mut cur: Vec<char> = Vec::new();
    let mut i: usize = 0;
    assert(s@.skip(0) =~= s@);
    while i < n
        invariant
            0 <= start <= i <= n,
            n == s@.len(),
            out@.len() == outs.len(),
            forall|j: int| 0 <= j < out@.len() ==> (#[trigger] out@[j])@ == outs[j],
            lines_spec(s@) == outs + lines_spec(s@.skip(start as int)),
            cur@ == s@.subrange(start as int, i as int),
            forall|j: int| start <= j < i ==> s@[j] != '\n',
        decreases n - i,
    {
        if s[i] == '\n' {
            let ghost rest = s@.skip(start as int);
            proof {
                lemma_find_char_at(rest, '\n', i - start);
                assert(rest.take(i - start) =~= cur@);
                assert(rest.skip(i - start + 1) =~= s@.skip(i + 1));
            }
            if cur.len() > 0 && cur[cur.len() - 1] == '\r' {
                cur.pop();
            }
            proof {
                outs = outs.push(cur@);
                assert(outs =~= outs.drop_last() + seq![cur@]);
            }
            out.push(cur);
            cur = Vec::new();
            start = i + 1;
            assert(cur@ =~= s@.subrange(start as int, start as int));
        } else {
            cur.push(s[i]);
            assert(cur@ =~= s@.subrange(start as int, i + 1));
        }
        i = i + 1;
    }
    if start < n {
        let ghost rest = s@.skip(start as int);
        proof {
            lemma_find_char_none(rest, '\n');
            assert(rest =~= cur@);
            assert(lines_spec(rest) == seq![rest]);
            outs = outs.push(cur@);
        }
        out.push(cur);
    } else {
        assert(s@.skip(start as int) =~= Seq::<char>::empty());
        assert(outs + Seq::<Seq<char>>::empty() =~= outs);
    }
    out
}

/// `s` ends with `suffix`.
pub open spec fn ends_with(s: Seq<char>, suffix: Seq<char>) -> bool {
    suffix.len() <= s.len() && s.subrange(s.len() - suffix.len(), s.len() as int) == suffix
}

/// Lower-cased links to these archives and disc images make up a list.
pub open spec fn is_archive(lower: Seq<char>) -> bool {
    ||| ends_with(lower, ".zip"@)
    ||| ends_with(lower, ".chd"@)
    ||| ends_with(lower, ".iso"@)
    ||| ends_with(lower, ".7z"@)
    ||| ends_with(lower, ".rar"@)
}

/// A link percent-decoded when that gives valid UTF-8, else as it is.
pub open spec fn decoded_or_raw(t: Seq<char>) -> Seq<char> {
    let d = percent_decode(encode_utf8(t));
    if valid_utf8(d) {
        decode_utf8(d)
    } else {
        t
    }
}

/// The last `/`-separated part of a text (all of it without a `/`).
pub open spec fn after_last_slash(s: Seq<char>) -> Seq<char> {
    s.subrange(last_index_of(s, '/') + 1, s.len() as int)
}

/// The link a trimmed, non-empty output line gives, as (file name, link).
pub open spec fn link_of(t: Seq<char>) -> Option<(Seq<char>, Seq<char>)> {
    if is_archive(lowercase(t)) {
        Some((after_last_slash(decoded_or_raw(t)), t))
    } else {
        None
    }
}

/// The links found in a sequence of output lines, in order.
pub open spec fn links_spec(lines: Seq<Seq<char>>) -> Seq<(Seq<char>, Seq<char>)>
    decreases lines.len(),
{
    if lines.len() == 0 {
        Seq::empty()
    } else {
        let rest = links_spec(lines.drop_last());
        let t = trim_spec(lines.last());
        if t.len() > 0 && link_of(t) is Some {
            rest.push(link_of(t)->0)
        } else {
            rest
        }
    }
}

/// `low` ends with the characters of `ext`.
pub open spec fn has_suffix(low: Seq<char>, ext: Seq<char>) -> bool {
    ext.len() <= low.len() && forall|j: int|
        0 <= j < ext.len() ==> #[trigger] low[low.len() - ext.len() + j] == ext[j]
}

/// One more output line adds a link exactly when, trimmed, it is not blank
/// and its lower-cased text ends in `.zip`, `.chd`, `.iso`, `.7z` or
/// `.rar`; the link is the trimmed line, named after the last `/`-part of
/// its decoded text.  Every other line adds nothing.
pub proof fn lemma_archive_lines_give_links(lines: Seq<Seq<char>>, line: Seq<char>)
    ensures
        ({
            let t = trim_spec(line);
            let low = lowercase(t);
            let wanted = t.len() > 0 && (has_suffix(low, seq!['.', 'z', 'i', 'p']) || has_suffix(
                low,
                seq!['.', 'c', 'h', 'd'],
            ) || has_suffix(low, seq!['.', 'i', 's', 'o']) || has_suffix(low, seq!['.', '7', 'z'])
                || has_suffix(low, seq!['.', 'r', 'a', 'r']));
            &&& wanted ==> links_spec(lines.push(line)) == links_spec(lines).push(
                (after_last_slash(decoded_or_raw(t)), t),
            )
            &&& !wanted ==> links_spec(lines.push(line)) == links_spec(lines)
        }),
{
    let t = trim_spec(line);
    let low = lowercase(t);
    assert(lines.push(line).drop_last() =~= lines);
    assert(lines.push(line).last() == line);
    reveal_strlit(".zip");
    reveal_strlit(".chd");
    reveal_strlit(".iso");
    reveal_strlit(".7z");
    reveal_strlit(".rar");
    assert(".zip"@ =~= seq!['.', 'z', 'i', 'p']);
    assert(".chd"@ =~= seq!['.', 'c', 'h', 'd']);
    assert(".iso"@ =~= seq!['.', 'i', 's', 'o']);
    assert(".7z"@ =~= seq!['.', '7', 'z']);
    assert(".rar"@ =~= seq!['.', 'r', 'a', 'r']);
    proof_suffix(low, seq!['.', 'z', 'i', 'p'], ".zip"@);
    proof_suffix(low, seq!['.', 'c', 'h', 'd'], ".chd"@);
    proof_suffix(low, seq!['.', 'i', 's', 'o'], ".iso"@);
    proof_suffix(low, seq!['.', '7', 'z'], ".7z"@);
    proof_suffix(low, seq!['.', 'r', 'a', 'r'], ".rar"@);
}

proof fn proof_suffix(low: Seq<char>, ext: Seq<char>, lit: Seq<char>)
    requires
        ext == lit,
    ensures
        has_suffix(low, ext) == ends_with(low, lit),
{
    if has_suffix(low, ext) {
        let sub = low.subrange(low.len() - ext.len(), low.len() as int);
        assert forall|j: int| 0 <= j < ext.len() implies sub[j] == ext[j] by {
            assert(low[low.len() - ext.len() + j] == ext[j]);
        }
        assert(sub =~= ext);
    }
    if ends_with(low, lit) {
        assert forall|j: int| 0 <= j < ext.len() implies #[trigger] low[low.len() - ext.len() + j]
            == ext[j] by {
            assert(low.subrange(low.len() - ext.len(), low.len() as int)[j] == lit[j]);
        }
    }
}

/// The progress reported for a sequence of output lines out of `total`:
/// one report per non-blank line, with the links found up to it.
pub open spec fn progress_spec(lines: Seq<Seq<char>>, total: usize) -> Seq<Progress>
    decreases lines.len(),
{
    if lines.len() == 0 {
        Seq::empty()
    } else {
        let rest = progress_spec(lines.drop_last(), total);
        if trim_spec(lines.last()).len() > 0 {
            rest.push(
                Progress {
                    current: (lines.len() - 1) as usize,
                    total,
                    found: links_spec(lines).len() as usize,
                },
            )
        } else {
            rest
        }
    }
}

/// The view of found links as (file name, link) pairs.
pub open spec fn link_views(v: Seq<LinkItem>) -> Seq<(Seq<char>, Seq<char>)> {
    v.map_values(|x: LinkItem| (x.item@, x.url@))
}

fn ends_with_exec(s: &[char], suffix: &str) -> (b: bool)
    ensures
        b == ends_with(s@, suffix@),
{
    let suf = chars_of(suffix);
    if suf.len() > s.len() {
        return false;
    }
    let r = matches_at(s, suf.as_slice(), s.len() - suf.len());
    assert(r == ends_with(s@, suffix@)) by {
        if r {
            assert(s@.subrange(s@.len() - suf@.len(), s@.len() - suf@.len() + suf@.len())
                =~= s@.subrange(s@.len() - suf@.len(), s@.len() as int));
        }
    }
    r
}

fn archive_link(lower: &[char]) -> (b: bool)
    ensures
        b == is_archive(lower@),
{
    ends_with_exec(lower, ".zip") || ends_with_exec(lower, ".chd") || ends_with_exec(lower, ".iso")
        || ends_with_exec(lower, ".7z") || ends_with_exec(lower, ".rar")
}

fn last_part(s: &[char]) -> (r: Vec<char>)
    ensures
        r@ == after_last_slash(s@),
{
    let n = s.len();
    let mut k: usize = n;
    while k > 0 && s[k - 1] != '/'
        invariant
            0 <= k <= n,
            n == s@.len(),
            forall|j: int| k <= j < n ==> s@[j] != '/',
        decreases k,
    {
        k = k - 1;
    }
    proof {
        lemma_last_slash(s@, k as int);
    }
    let mut r: Vec<char> = Vec::new();
    let mut j: usize = k;
    while j < n
        invariant
            k <= j <= n,
            n == s@.len(),
            r@ =~= s@.subrange(k as int, j as int),
        decreases n - j,
    {
        r.push(s[j]);
        j = j + 1;
    }
    r
}

proof fn lemma_last_slash(s: Seq<char>, k: int)
    requires
        0 <= k <= s.len(),
        forall|j: int| k <= j < s.len() ==> s[j] != '/',
        k > 0 ==> s[k - 1] == '/',
    ensures
        last_index_of(s, '/') == k - 1,
    decreases s.len(),
{
    if s.len() > 0 && s.last() != '/' {
        lemma_last_slash(s.drop_last(), k);
    }
}

/// Scans the output of a list's `curl` command: every non-blank line whose
/// lower-cased text ends in `.zip`, `.chd`, `.iso`, `.7z` or `.rar` is a
/// link, named after the last part of its percent-decoded text; progress is
/// reported after each non-blank line.
pub fn collect_links(stdout: &str) -> (r: LinkScan)
    ensures
        link_views(r.items@) == links_spec(lines_spec(stdout@)),
        r.progress@ == progress_spec(lines_spec(stdout@), lines_spec(stdout@).len() as usize),
{
    let cs = chars_of(stdout);
    let lines = lines_of(cs.as_slice());
    let ghost ls = lines_spec(stdout@);
    let total = lines.len();
    let mut items: Vec<LinkItem> = Vec::new();
    let mut progress: Vec<Progress> = Vec::new();
    let mut current: usize = 0;
    while current < total
        invariant
            0 <= current <= total,
            total == ls.len(),
            lines@.len() == ls.len(),
            forall|i: int| 0 <= i < lines@.len() ==> (#[trigger] lines@[i])@ == ls[i],
            link_views(items@) =~= links_spec(ls.take(current as int)),
            progress@ =~= progress_spec(ls.take(current as int), total),
        decreases total - current,
    {
        proof {
            assert(ls.take(current + 1).drop_last() =~= ls.take(current as int));
            assert(ls.take(current + 1).last() == ls[current as int]);
        }
        let line = trim(lines[current].as_slice());
        if line.len() > 0 {
            let line_str = string_of(line.as_slice());
            let lower = to_lowercase(line_str.as_str());
            let lower_cs = chars_of(lower.as_str());
            if archive_link(lower_cs.as_slice()) {
                let decoded = match url_decode(line_str.as_str()) {
                    Some(d) => d,
                    None => line_str.clone(),
                };
                let dcs = chars_of(decoded.as_str());
                let name = last_part(dcs.as_slice());
                let item = LinkItem { item: string_of(name.as_slice()), url: line_str };
                let ghost before = items@;
                items.push(item);
                assert(link_views(items@) =~= link_views(before).push((item.item@, item.url@)));
            }
            progress.push(Progress { current, total, found: items.len() });
        }
        current = current + 1;
    }
    assert(ls.take(total as int) =~= ls);
    LinkScan { items, progress }
}

/// The name of the file a new list is written to.
pub open spec fn new_list_path_spec(lists_dir: Seq<char>, name: Seq<char>) -> Seq<char> {
    join_spec(lists_dir, name + ".json"@)
}

impl App {
    /// Whether both inputs of the new-list popup hold text.
    pub open spec fn new_list_ready(self) -> bool {
        self.ui.input.new_list_name@.len() > 0 && self.ui.input.new_list_url@.len() > 0
    }

    /// The job that creates a new list from the popup's inputs: the name,
    /// the `curl` command built from the given arguments, and the file
    /// `<lists_dir>/<name>.json`.  `None` when either input is empty.
    pub fn create_list(&self) -> (r: Option<CreateListJob>)
        ensures
            match r {
                Some(job) => self.new_list_ready() && job.input_name == self.ui.input.new_list_name
                    && job.curl_command@ == "curl "@ + self.ui.input.new_list_url@
                    && job.output_path@ == new_list_path_spec(
                    self.config.lists_dir@,
                    self.ui.input.new_list_name@,
                ),
                None => !self.new_list_ready(),
            },
    {
        let name = &self.ui.input.new_list_name;
        let args = &self.ui.input.new_list_url;
        if name.as_str().is_empty() || args.as_str().is_empty() {
            return None;
        }
        let file = append_str(name.as_str(), ".json");
        let output_path = join(self.config.lists_dir.as_str(), file.as_str());
        let curl_command = append_str("curl ", args.as_str());
        Some(CreateListJob { input_name: name.clone(), curl_command, output_path })
    }
}

} // verus!
