use vstd::prelude::*;
use crate::paths::{path_components, same_path};

verus! {

/// One entry of a list: its title and where it can be fetched from (for a
/// local list: the file path, empty for a directory).
#[derive(Debug)]
pub struct ListItem {
    pub item: String,
    pub url: String,
}

impl ListItem {
    pub fn new(item: String, url: String) -> (r: ListItem)
        ensures
            r.item == item,
            r.url == url,
    {
        ListItem { item, url }
    }

    /// An exact copy.
    pub fn copy(&self) -> (r: ListItem)
        ensures
            r == *self,
    {
        ListItem { item: self.item.clone(), url: self.url.clone() }
    }
}

/// Copies of all items.
pub fn copy_items(v: &Vec<ListItem>) -> (r: Vec<ListItem>)
    ensures
        r@ == v@,
{
    let mut r: Vec<ListItem> = Vec::new();
    let n = v.len();
    let mut i: usize = 0;
    while i < n
        invariant
            0 <= i <= n,
            n == v@.len(),
            r@ =~= v@.take(i as int),
        decreases n - i,
    {
        r.push(v[i].copy());
        i = i + 1;
    }
    assert(v@.take(n as int) =~= v@);
    r
}

// ---------------------------------------------------------------------------
// Tables keyed by path
// ---------------------------------------------------------------------------

/// Index of the first entry from `i` on whose key names the same path as
/// `key` (as `==` on `Path` tells), or -1.
pub open spec fn key_index<V>(m: Seq<(String, V)>, key: Seq<char>, i: int) -> int
    decreases m.len() - i,
{
    if i < 0 || i >= m.len() {
        -1
    } else if path_components(m[i].0@) == path_components(key) {
        i
    } else {
        key_index(m, key, i + 1)
    }
}

/// The value stored under `key`, if any.
pub open spec fn table_get<V>(m: Seq<(String, V)>, key: Seq<char>) -> Option<V> {
    let k = key_index(m, key, 0);
    if k >= 0 {
        Some(m[k].1)
    } else {
        None
    }
}

/// The table after storing `val` under `key`: the value of the entry for
/// that path is replaced (its key stays as it was) when there is one,
/// otherwise a new entry is appended.
pub open spec fn table_insert<V>(m: Seq<(String, V)>, key: String, val: V) -> Seq<(String, V)> {
    let k = key_index(m, key@, 0);
    if k >= 0 {
        m.update(k, (m[k].0, val))
    } else {
        m.push((key, val))
    }
}

proof fn lemma_key_index<V>(m: Seq<(String, V)>, key: Seq<char>, i: int)
    requires
        0 <= i <= m.len(),
    ensures
        -1 <= key_index(m, key, i) < m.len(),
        key_index(m, key, i) >= 0 ==> i <= key_index(m, key, i) && path_components(
            m[key_index(m, key, i)].0@,
        ) == path_components(key),
        key_index(m, key, i) >= 0 ==> forall|j: int|
            i <= j < key_index(m, key, i) ==> path_components((#[trigger] m[j]).0@)
                != path_components(key),
        key_index(m, key, i) < 0 ==> forall|j: int|
            i <= j < m.len() ==> path_components((#[trigger] m[j]).0@) != path_components(key),
    decreases m.len() - i,
{
    if i < m.len() && path_components(m[i].0@) != path_components(key) {
        lemma_key_index(m, key, i + 1);
    }
}

/// The value stored under `key`, if any.
pub fn table_lookup<'a, V>(m: &'a Vec<(String, V)>, key: &String) -> (r: Option<&'a V>)
    ensures
        match r {
            Some(v) => table_get(m@, key@) == Some(*v),
            None => table_get(m@, key@) is None,
        },
{
    let n = m.len();
    let mut i: usize = 0;
    while i < n
        invariant
            0 <= i <= n,
            n == m@.len(),
            key_index(m@, key@, 0) == key_index(m@, key@, i as int),
        decreases n - i,
    {
        if same_path(m[i].0.as_str(), key.as_str()) {
            return Some(&m[i].1);
        }
        i = i + 1;
    }
    None
}

/// Stores `val` under `key`, replacing what was there.
pub fn table_store<V>(m: &mut Vec<(String, V)>, key: String, val: V)
    ensures
        final(m)@ == table_insert(old(m)@, key, val),
        keys_distinct(old(m)@) ==> keys_distinct(final(m)@),
{
    proof {
        lemma_insert_keeps_keys_distinct(m@, key, val);
    }
    let n = m.len();
    let mut i: usize = 0;
    while i < n
        invariant
            0 <= i <= n,
            n == m@.len(),
            *m == *old(m),
            key_index(m@, key@, 0) == key_index(m@, key@, i as int),
        decreases n - i,
    {
        if same_path(m[i].0.as_str(), key.as_str()) {
            let (old_key, _) = m.remove(i);
            m.insert(i, (old_key, val));
            return;
        }
        i = i + 1;
    }
    m.push((key, val));
}

/// No two entries of a table name the same path, as in a map keyed by
/// paths.
pub open spec fn keys_distinct<V>(m: Seq<(String, V)>) -> bool {
    forall|i: int, j: int|
        0 <= i < j < m.len() ==> path_components((#[trigger] m[i]).0@) != path_components(
            (#[trigger] m[j]).0@,
        )
}

/// Storing under a key keeps the keys of a table distinct.
pub proof fn lemma_insert_keeps_keys_distinct<V>(m: Seq<(String, V)>, key: String, val: V)
    ensures
        keys_distinct(m) ==> keys_distinct(table_insert(m, key, val)),
{
    lemma_key_index(m, key@, 0);
    let t = table_insert(m, key, val);
    if keys_distinct(m) {
        assert forall|i: int, j: int| 0 <= i < j < t.len() implies path_components(
            (#[trigger] t[i]).0@,
        ) != path_components((#[trigger] t[j]).0@) by {
            if j < m.len() {
                assert(t[i].0 == m[i].0 && t[j].0 == m[j].0);
            } else {
                assert(t[i] == m[i]);
            }
        }
    }
}

/// Reading a path back after storing a value under it gives that value,
/// and storing under one path leaves what every other path holds
/// unchanged.
pub proof fn lemma_table_read_after_write<V>(
    m: Seq<(String, V)>,
    key: String,
    val: V,
    other: Seq<char>,
)
    ensures
        table_get(table_insert(m, key, val), key@) == Some(val),
        path_components(other) != path_components(key@) ==> table_get(
            table_insert(m, key, val),
            other,
        ) == table_get(m, other),
{
    let t = table_insert(m, key, val);
    lemma_key_index(m, key@, 0);
    lemma_key_index(t, key@, 0);
    lemma_key_index(m, other, 0);
    lemma_key_index(t, other, 0);
    let k = key_index(m, key@, 0);
    let kt = key_index(t, key@, 0);
    assert(t.len() >= m.len());
    assert forall|j: int| 0 <= j < m.len() && j != k implies #[trigger] t[j] == m[j] by {}
    if k >= 0 {
        assert(t[k].0 == m[k].0);
        assert(kt == k) by {
            if kt >= 0 && kt < k {
                assert(t[kt] == m[kt]);
            }
        }
    } else {
        assert(t[m.len() as int].0@ == key@);
        assert(kt == m.len()) by {
            if kt >= 0 && kt < m.len() {
                assert(t[kt] == m[kt]);
            }
        }
    }
    if path_components(other) != path_components(key@) {
        let a = key_index(m, other, 0);
        let b = key_index(t, other, 0);
        assert(a == b) by {
            if a >= 0 {
                if a == k {
                    assert(path_components(m[k].0@) == path_components(key@));
                }
                assert(t[a].0 == m[a].0);
                if b >= 0 && b < a {
                    assert(t[b] == m[b]);
                }
            } else {
                if b >= 0 {
                    if b < m.len() {
                        if b != k {
                            assert(t[b] == m[b]);
                        }
                    }
                }
            }
        }
        if a >= 0 {
            assert(a != k);
            assert(t[a] == m[a]);
        }
    }
}

/// The files of one download directory, as names.
pub open spec fn names_contain(names: Seq<String>, name: Seq<char>) -> bool {
    exists|i: int| 0 <= i < names.len() && (#[trigger] names[i])@ == name
}

/// Whether `names` holds `name`.
pub fn contains_name(names: &Vec<String>, name: &String) -> (b: bool)
    ensures
        b == names_contain(names@, name@),
{
    let n = names.len();
    let mut i: usize = 0;
    while i < n
        invariant
            0 <= i <= n,
            n == names@.len(),
            forall|j: int| 0 <= j < i ==> (#[trigger] names@[j])@ != name@,
        decreases n - i,
    {
        if names[i] == *name {
            return true;
        }
        i = i + 1;
    }
    false
}

/// Everything read from disk: the list files, their items, what has been
/// downloaded for each, and the local folders with their contents.
#[derive(Debug)]
pub struct AppData {
    pub lists: Vec<String>,
    pub items_in_list: Vec<(String, Vec<ListItem>)>,
    pub list_downloaded_sizes: Vec<(String, u64)>,
    pub downloaded_items: Vec<(String, Vec<String>)>,
    pub local_lists: Vec<String>,
    pub items_in_local_list: Vec<(String, Vec<ListItem>)>,
    pub local_list_downloaded_sizes: Vec<(String, u64)>,
}

impl AppData {
    pub fn new() -> (r: AppData)
        ensures
            r.lists@.len() == 0,
            r.items_in_list@.len() == 0,
            r.list_downloaded_sizes@.len() == 0,
            r.downloaded_items@.len() == 0,
            r.local_lists@.len() == 0,
            r.items_in_local_list@.len() == 0,
            r.local_list_downloaded_sizes@.len() == 0,
    {
        AppData {
            lists: Vec::new(),
            items_in_list: Vec::new(),
            list_downloaded_sizes: Vec::new(),
            downloaded_items: Vec::new(),
            local_lists: Vec::new(),
            items_in_local_list: Vec::new(),
            local_list_downloaded_sizes: Vec::new(),
        }
    }
}

/// Indices into the lists and the items that match the search text, and
/// the selections saved when the search started.
#[derive(Debug)]
pub struct Search {
    pub lists_query: Vec<usize>,
    pub items_query: Vec<usize>,
    pub saved_list_selection: Option<usize>,
    pub saved_item_selection: Option<usize>,
}

impl Search {
    pub fn new() -> (r: Search)
        ensures
            r.lists_query@.len() == 0,
            r.items_query@.len() == 0,
            r.saved_list_selection is None,
            r.saved_item_selection is None,
    {
        Search {
            lists_query: Vec::new(),
            items_query: Vec::new(),
            saved_list_selection: None,
            saved_item_selection: None,
        }
    }
}

} // verus!
