use vstd::prelude::*;
use crate::paths::{join, join_spec};

verus! {

/// An item marked as a favorite, with the list it belongs to.
#[derive(Debug)]
pub struct FavoriteEntry {
    pub list: String,
    pub item: String,
    pub url: String,
}

/// The favorites, where they are stored, and whether only favorites are
/// shown.
#[derive(Debug)]
pub struct Favorite {
    pub favorites_path: String,
    pub list_favorites: Vec<FavoriteEntry>,
    pub in_favorites: bool,
}

impl FavoriteEntry {
    pub fn copy(&self) -> (r: FavoriteEntry)
        ensures
            r == *self,
    {
        FavoriteEntry { list: self.list.clone(), item: self.item.clone(), url: self.url.clone() }
    }

    /// This entry is item `item` of list `list`.
    pub open spec fn is_for(self, list: Seq<char>, item: Seq<char>) -> bool {
        self.list@ == list && self.item@ == item
    }
}

/// Some entry of `favs` is item `item` of list `list`.
pub open spec fn is_favorite_in(favs: Seq<FavoriteEntry>, list: Seq<char>, item: Seq<char>) -> bool {
    exists|i: int| 0 <= i < favs.len() && #[trigger] favs[i].is_for(list, item)
}

/// Index of the first entry from `i` on that is item `item` of list
/// `list`, or -1.
pub open spec fn favorite_index(
    favs: Seq<FavoriteEntry>,
    list: Seq<char>,
    item: Seq<char>,
    i: int,
) -> int
    decreases favs.len() - i,
{
    if i < 0 || i >= favs.len() {
        -1
    } else if favs[i].is_for(list, item) {
        i
    } else {
        favorite_index(favs, list, item, i + 1)
    }
}

/// No two entries are for the same item of the same list.
pub open spec fn no_duplicates(favs: Seq<FavoriteEntry>) -> bool {
    forall|i: int, j: int|
        0 <= i < j < favs.len() ==> !(#[trigger] favs[j]).is_for(
            (#[trigger] favs[i]).list@,
            favs[i].item@,
        )
}

/// The favorites after toggling item `item` of list `list`: its first entry
/// removed when there is one, else a new entry appended.
pub open spec fn toggled(favs: Seq<FavoriteEntry>, entry: FavoriteEntry) -> Seq<FavoriteEntry> {
    let k = favorite_index(favs, entry.list@, entry.item@, 0);
    if k >= 0 {
        favs.remove(k)
    } else {
        favs.push(entry)
    }
}

/// Where the favorites are stored under the base directory.
pub open spec fn favorites_path_spec(base_dir: Seq<char>) -> Seq<char> {
    join_spec(join_spec(base_dir, "system-lists"@), "favorites.json"@)
}

proof fn lemma_favorite_index(favs: Seq<FavoriteEntry>, list: Seq<char>, item: Seq<char>, i: int)
    requires
        0 <= i <= favs.len(),
    ensures
        -1 <= favorite_index(favs, list, item, i) < favs.len(),
        favorite_index(favs, list, item, i) >= 0 ==> i <= favorite_index(favs, list, item, i)
            && favs[favorite_index(favs, list, item, i)].is_for(list, item),
        favorite_index(favs, list, item, i) >= 0 ==> forall|j: int|
            i <= j < favorite_index(favs, list, item, i) ==> !(#[trigger] favs[j]).is_for(list, item),
        favorite_index(favs, list, item, i) < 0 ==> forall|j: int|
            i <= j < favs.len() ==> !(#[trigger] favs[j]).is_for(list, item),
    decreases favs.len() - i,
{
    if i < favs.len() && !favs[i].is_for(list, item) {
        lemma_favorite_index(favs, list, item, i + 1);
    }
}

impl Favorite {
    pub fn new() -> (r: Favorite)
        ensures
            r.list_favorites@ == Seq::<FavoriteEntry>::empty(),
            !r.in_favorites,
            r.favorites_path@ == Seq::<char>::empty(),
    {
        Favorite { favorites_path: String::new(), list_favorites: Vec::new(), in_favorites: false }
    }

    /// The favorites file under `base_dir`:
    /// `<base_dir>/system-lists/favorites.json`.
    pub fn get_favorites_path(base_dir: &str) -> (r: String)
        ensures
            r@ == favorites_path_spec(base_dir@),
    {
        let dir = join(base_dir, "system-lists");
        join(dir.as_str(), "favorites.json")
    }

    /// Sets the favorites file under `base_dir` and takes the entries read
    /// from it, when it could be read and parsed.
    pub fn init_favorites(&mut self, base_dir: &str, loaded: Option<Vec<FavoriteEntry>>)
        ensures
            final(self).favorites_path@ == favorites_path_spec(base_dir@),
            final(self).in_favorites == old(self).in_favorites,
            final(self).list_favorites@ == (match loaded {
                Some(v) => v@,
                None => old(self).list_favorites@,
            }),
    {
        self.favorites_path = Self::get_favorites_path(base_dir);
        if let Some(favorites) = loaded {
            self.list_favorites = favorites;
        }
    }

    /// Whether item `item` of list `list` is a favorite.
    pub fn is_favorite(&self, list: &str, item: &str) -> (b: bool)
        ensures
            b == is_favorite_in(self.list_favorites@, list@, item@),
    {
        let l = crate::text::owned(list);
        let it = crate::text::owned(item);
        let n = self.list_favorites.len();
        let mut i: usize = 0;
        while i < n
            invariant
                0 <= i <= n,
                n == self.list_favorites@.len(),
                l@ == list@,
                it@ == item@,
                forall|j: int| 0 <= j < i ==> !(#[trigger] self.list_favorites@[j]).is_for(list@, item@),
            decreases n - i,
        {
            if self.list_favorites[i].list == l && self.list_favorites[i].item == it {
                assert(self.list_favorites@[i as int].is_for(list@, item@));
                return true;
            }
            i = i + 1;
        }
        false
    }

    /// Removes the first favorite for the entry's item of the entry's list
    /// when there is one; otherwise adds the entry.
    pub fn toggle(&mut self, entry: FavoriteEntry)
        ensures
            final(self).list_favorites@ == toggled(old(self).list_favorites@, entry),
            final(self).in_favorites == old(self).in_favorites,
            final(self).favorites_path == old(self).favorites_path,
    {
        let n = self.list_favorites.len();
        let mut i: usize = 0;
        while i < n
            invariant
                0 <= i <= n,
                n == self.list_favorites@.len(),
                *self == *old(self),
                favorite_index(self.list_favorites@, entry.list@, entry.item@, 0)
                    == favorite_index(self.list_favorites@, entry.list@, entry.item@, i as int),
            decreases n - i,
        {
            if self.list_favorites[i].list == entry.list && self.list_favorites[i].item == entry.item {
                self.list_favorites.remove(i);
                return;
            }
            i = i + 1;
        }
        self.list_favorites.push(entry);
    }
}

/// Toggling an item of a list makes it a favorite when it was not one and
/// stops it being one when it was, as long as no item is listed twice; no
/// item is then listed twice either.
pub proof fn lemma_toggle_flips(favs: Seq<FavoriteEntry>, entry: FavoriteEntry)
    requires
        no_duplicates(favs),
    ensures
        is_favorite_in(toggled(favs, entry), entry.list@, entry.item@) == !is_favorite_in(
            favs,
            entry.list@,
            entry.item@,
        ),
        no_duplicates(toggled(favs, entry)),
{
    let l = entry.list@;
    let it = entry.item@;
    lemma_favorite_index(favs, l, it, 0);
    let k = favorite_index(favs, l, it, 0);
    let t = toggled(favs, entry);
    if k >= 0 {
        assert(is_favorite_in(favs, l, it));
        assert forall|i: int| 0 <= i < t.len() implies !(#[trigger] t[i]).is_for(l, it) by {
            if i < k {
            } else {
                assert(t[i] == favs[i + 1]);
                assert(!favs[i + 1].is_for(favs[k].list@, favs[k].item@));
            }
        }
        assert forall|i: int, j: int| 0 <= i < j < t.len() implies !(#[trigger] t[j]).is_for(
            (#[trigger] t[i]).list@,
            t[i].item@,
        ) by {
            let i2 = if i < k { i } else { i + 1 };
            let j2 = if j < k { j } else { j + 1 };
            assert(t[i] == favs[i2]);
            assert(t[j] == favs[j2]);
        }
    } else {
        assert(t[favs.len() as int] == entry);
        assert(t[favs.len() as int].is_for(l, it));
        assert forall|i: int, j: int| 0 <= i < j < t.len() implies !(#[trigger] t[j]).is_for(
            (#[trigger] t[i]).list@,
            t[i].item@,
        ) by {
            if j == favs.len() {
                assert(!favs[i].is_for(l, it));
            }
        }
    }
}

/// Toggling an item leaves whether any other item is a favorite as it was,
/// as long as no item is listed twice.
pub proof fn lemma_toggle_keeps_others(
    favs: Seq<FavoriteEntry>,
    entry: FavoriteEntry,
    list: Seq<char>,
    item: Seq<char>,
)
    requires
        no_duplicates(favs),
        !(list == entry.list@ && item == entry.item@),
    ensures
        is_favorite_in(toggled(favs, entry), list, item) == is_favorite_in(favs, list, item),
{
    lemma_favorite_index(favs, entry.list@, entry.item@, 0);
    let k = favorite_index(favs, entry.list@, entry.item@, 0);
    let t = toggled(favs, entry);
    if k >= 0 {
        if is_favorite_in(favs, list, item) {
            let w = choose|w: int| 0 <= w < favs.len() && #[trigger] favs[w].is_for(list, item);
            assert(w != k);
            let w2 = if w < k { w } else { w - 1 };
            assert(t[w2] == favs[w]);
        }
        if is_favorite_in(t, list, item) {
            let w = choose|w: int| 0 <= w < t.len() && #[trigger] t[w].is_for(list, item);
            let w2 = if w < k { w } else { w + 1 };
            assert(t[w] == favs[w2]);
        }
    } else {
        if is_favorite_in(favs, list, item) {
            let w = choose|w: int| 0 <= w < favs.len() && #[trigger] favs[w].is_for(list, item);
            assert(t[w] == favs[w]);
        }
        if is_favorite_in(t, list, item) {
            let w = choose|w: int| 0 <= w < t.len() && #[trigger] t[w].is_for(list, item);
            assert(w < favs.len());
            assert(t[w] == favs[w]);
        }
    }
}

/// Toggling an item that is not a favorite twice gives back the favorites
/// exactly as they were.
pub proof fn lemma_toggle_twice_restores(favs: Seq<FavoriteEntry>, entry: FavoriteEntry)
    requires
        !is_favorite_in(favs, entry.list@, entry.item@),
    ensures
        toggled(toggled(favs, entry), entry) == favs,
{
    let l = entry.list@;
    let it = entry.item@;
    lemma_favorite_index(favs, l, it, 0);
    let t = toggled(favs, entry);
    assert(favorite_index(favs, l, it, 0) < 0) by {
        if favorite_index(favs, l, it, 0) >= 0 {
            assert(favs[favorite_index(favs, l, it, 0)].is_for(l, it));
        }
    }
    assert(t == favs.push(entry));
    lemma_favorite_index(t, l, it, 0);
    let k = favorite_index(t, l, it, 0);
    assert(t[favs.len() as int].is_for(l, it));
    assert(k == favs.len()) by {
        if k < 0 {
            assert(!t[favs.len() as int].is_for(l, it));
        } else if k < favs.len() {
            assert(t[k] == favs[k]);
            assert(favs[k].is_for(l, it));
        }
    }
    assert(t.remove(k) =~= favs);
}

} // verus!
