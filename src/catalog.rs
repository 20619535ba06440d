//! The catalog: every item keyed by its identifier, the home sections, and the
//! lookups the player needs (the episodes of a series, the episode that follows).

use vstd::prelude::*;

use crate::item::MediaItem;

verus! {

/// No two entries share an identifier.
pub open spec fn ids_unique(s: Seq<MediaItem>) -> bool {
    forall|i: int, j: int| 0 <= i < j < s.len() ==> s[i].id@ != s[j].id@
}

/// `s[i]` is the last entry of `s` with its identifier.
pub open spec fn is_last_with_id(s: Seq<MediaItem>, i: int) -> bool {
    0 <= i < s.len() && forall|j: int| i < j < s.len() ==> s[j].id@ != s[i].id@
}

/// `x` is the last entry of `items` with its identifier.
pub open spec fn is_last_entry(items: Seq<MediaItem>, x: MediaItem) -> bool {
    exists|i: int| #![trigger items[i]] is_last_with_id(items, i) && items[i] == x
}

/// Some entry of `r` has the identifier `id`.
pub open spec fn has_id(r: Seq<MediaItem>, id: Seq<char>) -> bool {
    exists|k: int| #![trigger r[k]] 0 <= k < r.len() && r[k].id@ == id
}

/// `r` keys the listing `items` by identifier: one entry per identifier,
/// each the last entry of `items` with it.
pub open spec fn keyed_from(r: Seq<MediaItem>, items: Seq<MediaItem>) -> bool {
    &&& ids_unique(r)
    &&& forall|k: int| 0 <= k < r.len() ==> #[trigger] is_last_entry(items, r[k])
    &&& forall|i: int| 0 <= i < items.len() ==> #[trigger] has_id(r, items[i].id@)
}

/// `e` belongs to the series whose identifier is `sid`.
pub open spec fn in_series(e: MediaItem, sid: Seq<char>) -> bool {
    match e.series_id {
        Some(s) => s@ == sid,
        None => false,
    }
}

/// `e` and `cur` belong to one series, and `cur` names it.
pub open spec fn same_series(e: MediaItem, cur: MediaItem) -> bool {
    match cur.series_id {
        Some(s) => in_series(e, s@),
        None => false,
    }
}

/// `e` is numbered one past `cur` within the same season.
pub open spec fn follows_in_season(e: MediaItem, cur: MediaItem) -> bool {
    e.parent_index_number == cur.parent_index_number && match (e.index_number, cur.index_number) {
        (Some(m), Some(n)) => m == n + 1,
        _ => false,
    }
}

/// `e` is episode 1 of the season after `cur`'s.
pub open spec fn opens_next_season(e: MediaItem, cur: MediaItem) -> bool {
    e.index_number == Some(1i64) && match (e.parent_index_number, cur.parent_index_number) {
        (Some(m), Some(n)) => m == n + 1,
        _ => false,
    }
}

/// The first entry of `s` that satisfies `p`.
pub open spec fn first_where(s: Seq<MediaItem>, p: spec_fn(MediaItem) -> bool) -> Option<MediaItem>
    decreases s.len(),
{
    if s.len() == 0 {
        None
    } else if p(s[0]) {
        Some(s[0])
    } else {
        first_where(s.drop_first(), p)
    }
}

/// The episode that plays after `cur`: the next number in the same season of
/// the same series, or failing that episode 1 of the following season.
pub open spec fn next_episode_of(items: Seq<MediaItem>, cur: MediaItem) -> Option<MediaItem> {
    match first_where(items, next_in_season_of(cur)) {
        Some(e) => Some(e),
        None => first_where(items, next_season_opener_of(cur)),
    }
}

pub open spec fn next_in_season_of(cur: MediaItem) -> spec_fn(MediaItem) -> bool {
    |e: MediaItem| same_series(e, cur) && follows_in_season(e, cur)
}

pub open spec fn next_season_opener_of(cur: MediaItem) -> spec_fn(MediaItem) -> bool {
    |e: MediaItem| same_series(e, cur) && opens_next_season(e, cur)
}

/// Season and episode number, missing ones read as 0: the order of a series.
pub open spec fn episode_key(e: MediaItem) -> (int, int) {
    (
        match e.parent_index_number {
            Some(n) => n as int,
            None => 0,
        },
        match e.index_number {
            Some(n) => n as int,
            None => 0,
        },
    )
}

pub open spec fn key_le(a: MediaItem, b: MediaItem) -> bool {
    let (sa, ea) = episode_key(a);
    let (sb, eb) = episode_key(b);
    sa < sb || (sa == sb && ea <= eb)
}

pub open spec fn sorted_by_episode(s: Seq<MediaItem>) -> bool {
    forall|i: int, j: int| 0 <= i < j < s.len() ==> key_le(s[i], s[j])
}

proof fn lemma_first_where_step(s: Seq<MediaItem>, p: spec_fn(MediaItem) -> bool, i: int)
    requires
        0 <= i < s.len(),
    ensures
        first_where(s.skip(i), p) == if p(s[i]) {
            Some(s[i])
        } else {
            first_where(s.skip(i + 1), p)
        },
{
    assert(s.skip(i).drop_first() =~= s.skip(i + 1));
}

proof fn lemma_insert_multiset(s: Seq<MediaItem>, pos: int, x: MediaItem)
    requires
        0 <= pos <= s.len(),
    ensures
        s.insert(pos, x).to_multiset() =~= s.to_multiset().insert(x),
{
    broadcast use vstd::seq_lib::group_to_multiset_ensures;

    let t = s.insert(pos, x);
    assert(t.remove(pos) =~= s);
    assert(t[pos] == x);
    assert(t.contains(x));
}

proof fn lemma_keyed_from(r: Seq<MediaItem>, items: Seq<MediaItem>, src: Seq<int>, pos: Seq<int>)
    requires
        ids_unique(r),
        src.len() == r.len(),
        pos.len() == items.len(),
        forall|k: int|
            0 <= k < r.len() ==> 0 <= #[trigger] src[k] < items.len() && items[src[k]] == r[k]
                && forall|j: int| src[k] < j < items.len() ==> items[j].id@ != r[k].id@,
        forall|j: int|
            0 <= j < items.len() ==> 0 <= #[trigger] pos[j] < r.len() && r[pos[j]].id@ == items[j].id@,
    ensures
        keyed_from(r, items),
{
    assert forall|k: int| 0 <= k < r.len() implies #[trigger] is_last_entry(items, r[k]) by {
        assert(is_last_with_id(items, src[k]) && items[src[k]] == r[k]);
    }
    assert forall|j: int| 0 <= j < items.len() implies #[trigger] has_id(r, items[j].id@) by {
        assert(0 <= pos[j] < r.len() && r[pos[j]].id@ == items[j].id@);
    }
}

/// Position of the entry with identifier `id`, if any.
fn position_of_id(s: &Vec<MediaItem>, id: &String) -> (r: Option<usize>)
    ensures
        match r {
            Some(k) => k < s@.len() && s@[k as int].id@ == id@,
            None => forall|k: int| 0 <= k < s@.len() ==> s@[k].id@ != id@,
        },
{
    let mut k: usize = 0;
    while k < s.len()
        invariant
            k <= s@.len(),
            forall|m: int| 0 <= m < k ==> s@[m].id@ != id@,
        decreases s@.len() - k,
    {
        if s[k].id == *id {
            return Some(k);
        }
        k += 1;
    }
    None
}

fn series_matches(e: &MediaItem, cur: &MediaItem) -> (b: bool)
    ensures
        b == same_series(*e, *cur),
{
    match (&e.series_id, &cur.series_id) {
        (Some(a), Some(c)) => *a == *c,
        _ => false,
    }
}

fn is_next_in_season(e: &MediaItem, cur: &MediaItem) -> (b: bool)
    ensures
        b == follows_in_season(*e, *cur),
{
    e.parent_index_number == cur.parent_index_number && match (e.index_number, cur.index_number) {
        (Some(m), Some(n)) => (m as i128) == (n as i128) + 1,
        _ => false,
    }
}

fn is_next_season_opener(e: &MediaItem, cur: &MediaItem) -> (b: bool)
    ensures
        b == opens_next_season(*e, *cur),
{
    e.index_number == Some(1i64) && match (e.parent_index_number, cur.parent_index_number) {
        (Some(m), Some(n)) => (m as i128) == (n as i128) + 1,
        _ => false,
    }
}

/// The full set of playable items, keyed by identifier, with the three home sections.
pub struct Catalog {
    pub items: Vec<MediaItem>,
    pub continue_watching: Vec<MediaItem>,
    pub next_up: Vec<MediaItem>,
    pub latest_added: Vec<MediaItem>,
}

impl Catalog {
    /// Every identifier names one item.
    pub open spec fn wf(&self) -> bool {
        ids_unique(self.items@)
    }

    /// Keys a listing by identifier: one entry per identifier, the last one
    /// listed with it, in the order the identifiers first appear.
    pub fn keyed(items: &Vec<MediaItem>) -> (r: Vec<MediaItem>)
        ensures
            keyed_from(r@, items@),
            ids_unique(items@) ==> r@ == items@,
    {
        let mut r: Vec<MediaItem> = Vec::new();
        let ghost mut src: Seq<int> = Seq::empty();
        let ghost mut pos: Seq<int> = Seq::empty();
        let mut i: usize = 0;
        while i < items.len()
            invariant
                i <= items@.len(),
                ids_unique(r@),
                src.len() == r@.len(),
                pos.len() == i,
                forall|k: int|
                    0 <= k < r@.len() ==> 0 <= #[trigger] src[k] < i && items@[src[k]] == r@[k]
                        && forall|j: int| src[k] < j < i ==> items@[j].id@ != r@[k].id@,
                forall|j: int|
                    0 <= j < i ==> 0 <= #[trigger] pos[j] < r@.len() && r@[pos[j]].id@
                        == items@[j].id@,
                ids_unique(items@) ==> r@ == items@.take(i as int),
            decreases items@.len() - i,
        {
            let x = items[i].clone();
            match position_of_id(&r, &x.id) {
                Some(k) => {
                    proof {
                        // an earlier entry has this identifier, so a listing
                        // with unique identifiers never comes here
                        if ids_unique(items@) {
                            assert(items@[src[k as int]].id@ == items@[i as int].id@);
                            assert(false);
                        }
                        src = src.update(k as int, i as int);
                        pos = pos.push(k as int);
                    }
                    r.set(k, x);
                },
                None => {
                    proof {
                        src = src.push(i as int);
                        pos = pos.push(r@.len() as int);
                    }
                    r.push(x);
                    proof {
                        if ids_unique(items@) {
                            assert(r@ =~= items@.take(i + 1));
                        }
                    }
                },
            }
            i += 1;
        }
        proof {
            lemma_keyed_from(r@, items@, src, pos);
            if ids_unique(items@) {
                assert(items@.take(items@.len() as int) =~= items@);
            }
        }
        r
    }

    /// A catalog of the given listing, keyed by identifier, with the home sections.
    pub fn new(
        items: &Vec<MediaItem>,
        continue_watching: Vec<MediaItem>,
        next_up: Vec<MediaItem>,
        latest_added: Vec<MediaItem>,
    ) -> (r: Catalog)
        ensures
            r.wf(),
            keyed_from(r.items@, items@),
            r.continue_watching == continue_watching,
            r.next_up == next_up,
            r.latest_added == latest_added,
    {
        let keyed = Self::keyed(items);
        let r = Catalog { items: keyed, continue_watching, next_up, latest_added };
        assert(r.items@ == keyed@);
        r
    }

    /// The episodes of the series `series_id`, ordered by season and number
    /// (missing numbers read as 0).
    pub fn get_episodes_from_series(&self, series_id: &str) -> (r: Vec<MediaItem>)
        ensures
            r@.to_multiset() == self.items@.filter(|e: MediaItem| in_series(e, series_id@)).to_multiset(),
            sorted_by_episode(r@),
    {
        broadcast use vstd::seq_lib::group_to_multiset_ensures;

        let ghost pred = |e: MediaItem| in_series(e, series_id@);
        proof {
            assert(self.items@.take(0) =~= Seq::<MediaItem>::empty());
            self.items@.take(0).lemma_filter_len(pred);
            assert(self.items@.take(0).filter(pred) =~= Seq::<MediaItem>::empty());
        }
        let sid = String::from_str(series_id);
        let mut r: Vec<MediaItem> = Vec::new();
        assert(r@ =~= self.items@.take(0).filter(pred));
        let mut i: usize = 0;
        while i < self.items.len()
            invariant
                i <= self.items@.len(),
                sid@ == series_id@,
                pred == (|e: MediaItem| in_series(e, series_id@)),
                r@.to_multiset() == self.items@.take(i as int).filter(pred).to_multiset(),
                sorted_by_episode(r@),
            decreases self.items@.len() - i,
        {
            let e = &self.items[i];
            let belongs = match &e.series_id {
                Some(s) => *s == sid,
                None => false,
            };
            proof {
                assert(self.items@.take(i + 1) =~= self.items@.take(i as int).push(self.items@[i as int]));
                self.items@.take(i as int).lemma_filter_push(self.items@[i as int], pred);
            }
            if belongs {
                let x = e.clone();
                let mut p: usize = r.len();
                while p > 0 && key_before(&x, &r[p - 1])
                    invariant
                        p <= r@.len(),
                        sorted_by_episode(r@),
                        r@.to_multiset() == self.items@.take(i as int).filter(pred).to_multiset(),
                        forall|m: int| p <= m < r@.len() ==> !key_le(r@[m], x),
                    decreases p,
                {
                    p -= 1;
                }
                proof {
                    lemma_insert_multiset(r@, p as int, x);
                    assert(pred(self.items@[i as int]));
                    assert(x == self.items@[i as int]);
                }
                let ghost old_r = r@;
                r.insert(p, x);
                proof {
                    let f = self.items@.take(i as int).filter(pred);
                    assert(r@ == old_r.insert(p as int, x));
                    assert(self.items@.take(i + 1).filter(pred) == f.push(x));
                    f.to_multiset_ensures();
                    assert(f.push(x).to_multiset() =~= f.to_multiset().insert(x));
                    old_r.insert_ensures(p as int, x);
                    let pp = p as int;
                    assert forall|a: int, b: int| 0 <= a < b < r@.len() implies key_le(r@[a], r@[b]) by {
                        if b < pp {
                            assert(key_le(old_r[a], old_r[b]));
                        } else if b == pp {
                            assert(key_le(old_r[a], old_r[pp - 1]) || a == pp - 1);
                            assert(key_le(old_r[pp - 1], x));
                        } else if a < pp {
                            assert(key_le(old_r[a], old_r[b - 1]));
                        } else if a == pp {
                            assert(!key_le(old_r[b - 1], x));
                        } else {
                            assert(key_le(old_r[a - 1], old_r[b - 1]));
                        }
                    }
                }
            }
            if !belongs {
                assert(!pred(self.items@[i as int]));
                assert(self.items@.take(i + 1).filter(pred) == self.items@.take(i as int).filter(pred));
            }
            i += 1;
        }
        proof {
            assert(self.items@.take(self.items@.len() as int) =~= self.items@);
        }
        r
    }

    /// The items of one kind ("Movie", "Series", "Episode"), in catalog order.
    pub fn items_of_type(&self, kind: &str) -> (r: Vec<MediaItem>)
        ensures
            r@ == self.items@.filter(|e: MediaItem| e.type_@ == kind@),
    {
        let ghost pred = |e: MediaItem| e.type_@ == kind@;
        let wanted = String::from_str(kind);
        let mut r: Vec<MediaItem> = Vec::new();
        assert(r@ =~= self.items@.take(0).filter(pred));
        let mut i: usize = 0;
        while i < self.items.len()
            invariant
                i <= self.items@.len(),
                wanted@ == kind@,
                pred == (|e: MediaItem| e.type_@ == kind@),
                r@ == self.items@.take(i as int).filter(pred),
            decreases self.items@.len() - i,
        {
            proof {
                assert(self.items@.take(i + 1) =~= self.items@.take(i as int).push(self.items@[i as int]));
                self.items@.take(i as int).lemma_filter_push(self.items@[i as int], pred);
            }
            if self.items[i].type_ == wanted {
                r.push(self.items[i].clone());
            }
            i += 1;
        }
        assert(self.items@.take(self.items@.len() as int) =~= self.items@);
        r
    }

    /// The episode to play after `current` finished: see `next_episode_of`.
    pub fn next_episode(&self, current: &MediaItem) -> (r: Option<MediaItem>)
        ensures
            r == next_episode_of(self.items@, *current),
    {
        let ghost s = self.items@;
        let ghost in_season = next_in_season_of(*current);
        let ghost opener = next_season_opener_of(*current);
        assert(s.skip(0) =~= s);
        let mut i: usize = 0;
        while i < self.items.len()
            invariant
                s == self.items@,
                in_season == next_in_season_of(*current),
                i <= s.len(),
                first_where(s, in_season) == first_where(s.skip(i as int), in_season),
            decreases s.len() - i,
        {
            let e = &self.items[i];
            proof {
                lemma_first_where_step(s, in_season, i as int);
                assert(in_season(s[i as int]) == (same_series(s[i as int], *current) && follows_in_season(
                    s[i as int],
                    *current,
                )));
            }
            if series_matches(e, current) && is_next_in_season(e, current) {
                return Some(e.clone());
            }
            i += 1;
        }
        assert(s.skip(i as int).len() == 0);
        let mut i: usize = 0;
        while i < self.items.len()
            invariant
                s == self.items@,
                in_season == next_in_season_of(*current),
                opener == next_season_opener_of(*current),
                i <= s.len(),
                first_where(s, in_season) is None,
                first_where(s, opener) == first_where(s.skip(i as int), opener),
            decreases s.len() - i,
        {
            let e = &self.items[i];
            proof {
                lemma_first_where_step(s, opener, i as int);
                assert(opener(s[i as int]) == (same_series(s[i as int], *current) && opens_next_season(
                    s[i as int],
                    *current,
                )));
            }
            if series_matches(e, current) && is_next_season_opener(e, current) {
                return Some(e.clone());
            }
            i += 1;
        }
        assert(s.skip(i as int).len() == 0);
        None
    }
}

/// `a` sorts strictly before `b` in series order.
fn key_before(a: &MediaItem, b: &MediaItem) -> (r: bool)
    ensures
        r == !key_le(*b, *a),
{
    let sa: i64 = match a.parent_index_number {
        Some(n) => n,
        None => 0,
    };
    let ea: i64 = match a.index_number {
        Some(n) => n,
        None => 0,
    };
    let sb: i64 = match b.parent_index_number {
        Some(n) => n,
        None => 0,
    };
    let eb: i64 = match b.index_number {
        Some(n) => n,
        None => 0,
    };
    sa < sb || (sa == sb && ea < eb)
}

/// Cache round trip: when a catalog with one entry per identifier is saved
/// and read back in any order, keying what was read gives back exactly the
/// saved entries, so the identifier-to-item mapping is unchanged.
pub proof fn lemma_reload_keeps_mapping(
    saved: Seq<MediaItem>,
    reloaded: Seq<MediaItem>,
    rebuilt: Seq<MediaItem>,
)
    requires
        ids_unique(saved),
        reloaded.to_multiset() == saved.to_multiset(),
        keyed_from(rebuilt, reloaded),
    ensures
        forall|i: int| 0 <= i < saved.len() ==> rebuilt.contains(#[trigger] saved[i]),
        forall|k: int| 0 <= k < rebuilt.len() ==> saved.contains(#[trigger] rebuilt[k]),
{
    saved.to_multiset_ensures();
    reloaded.to_multiset_ensures();
    assert forall|k: int| 0 <= k < rebuilt.len() implies saved.contains(#[trigger] rebuilt[k]) by {
        assert(is_last_entry(reloaded, rebuilt[k]));
        let j = choose|j: int| is_last_with_id(reloaded, j) && reloaded[j] == rebuilt[k];
        assert(reloaded.contains(reloaded[j]));
        assert(reloaded.to_multiset().count(rebuilt[k]) > 0);
        assert(saved.to_multiset().count(rebuilt[k]) > 0);
    }
    assert forall|i: int| 0 <= i < saved.len() implies rebuilt.contains(#[trigger] saved[i]) by {
        let x = saved[i];
        assert(saved.contains(x));
        assert(saved.to_multiset().count(x) > 0);
        assert(reloaded.to_multiset().count(x) > 0);
        assert(reloaded.contains(x));
        let j = choose|j: int| 0 <= j < reloaded.len() && reloaded[j] == x;
        assert(has_id(rebuilt, reloaded[j].id@));
        let k = choose|k: int| 0 <= k < rebuilt.len() && rebuilt[k].id@ == reloaded[j].id@;
        assert(saved.contains(rebuilt[k]));
        let i2 = choose|i2: int| 0 <= i2 < saved.len() && saved[i2] == rebuilt[k];
        assert(saved[i2].id@ == saved[i].id@);
        assert(i2 == i);
        assert(rebuilt[k] == x);
    }
}

} // verus!
