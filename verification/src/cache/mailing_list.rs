//! The mailing list cache: every list of the archive, sorted by name.
use vstd::prelude::*;
use vstd::multiset::Multiset;
use vstd::seq_lib::*;

use crate::lore::{copy_lists, not_later, LoreMailingList, Timestamp};
use crate::text::{
    join_path, path_join, lemma_seq_le_transitive, lemma_seq_lt_irreflexive, lemma_seq_lt_transitive,
    lemma_seq_lt_trichotomy, seq_le, seq_lt, str_lt,
};

verus! {

/// Whether the lists are in ascending order of name.
pub open spec fn sorted_by_name(s: Seq<LoreMailingList>) -> bool {
    forall|i: int, j: int| 0 <= i < j < s.len() ==> seq_le(#[trigger] s[i].name@, #[trigger] s[j].name@)
}

proof fn lemma_insert_multiset<A>(s: Seq<A>, k: int, x: A)
    requires
        0 <= k <= s.len(),
    ensures
        s.insert(k, x).to_multiset() =~= s.to_multiset().insert(x),
{
    let left = s.subrange(0, k);
    let right = s.subrange(k, s.len() as int);
    assert(s =~= left + right);
    assert(s.insert(k, x) =~= left + (seq![x] + right));
    lemma_multiset_commutative(left, seq![x] + right);
    lemma_multiset_commutative(seq![x], right);
    lemma_multiset_commutative(left, right);
    assert(seq![x].to_multiset() =~= Multiset::empty().insert(x)) by {
        broadcast use group_to_multiset_ensures;
        assert(seq![x] =~= Seq::<A>::empty().push(x));
    }
}

/// Whether a list has the name `n`.
pub open spec fn name_is(n: Seq<char>) -> spec_fn(LoreMailingList) -> bool {
    |l: LoreMailingList| l.name@ == n
}

/// The lists named `n`, in the order in which they occur.
pub open spec fn with_name(s: Seq<LoreMailingList>, n: Seq<char>) -> Seq<LoreMailingList> {
    s.filter(name_is(n))
}

proof fn lemma_filter_single(x: LoreMailingList, n: Seq<char>)
    ensures
        with_name(seq![x], n) == if x.name@ == n {
            seq![x]
        } else {
            Seq::<LoreMailingList>::empty()
        },
{
    let e = Seq::<LoreMailingList>::empty();
    assert(seq![x] =~= e.push(x));
    e.lemma_filter_push(x, name_is(n));
    reveal(Seq::filter);
    assert(e.filter(name_is(n)) =~= e);
    if x.name@ == n {
        assert(e.push(x) =~= seq![x]);
    }
}

/// In a sorted sequence, no list at or after `k` has a name below the one
/// at `k`; so when `n` is below that name, none of them is named `n`.
proof fn lemma_later_names_differ(before: Seq<LoreMailingList>, k: int, n: Seq<char>)
    requires
        sorted_by_name(before),
        0 <= k <= before.len(),
        k < before.len() ==> seq_lt(n, before[k].name@),
    ensures
        with_name(before.subrange(k, before.len() as int), n) =~= Seq::<LoreMailingList>::empty(),
{
    let r = before.subrange(k, before.len() as int);
    assert forall|j: int| 0 <= j < r.len() implies #[trigger] r[j].name@ != n by {
        assert(r[j] == before[k + j]);
        if j > 0 {
            assert(seq_le(before[k].name@, before[k + j].name@));
            lemma_seq_lt_trichotomy(before[k].name@, before[k + j].name@);
            if seq_lt(before[k].name@, before[k + j].name@) {
                lemma_seq_lt_transitive(n, before[k].name@, before[k + j].name@);
            }
        }
        lemma_seq_lt_irreflexive(n);
    }
    let f = r.filter(name_is(n));
    if f.len() > 0 {
        r.lemma_filter_pred(name_is(n), 0);
        assert(f.contains(f[0]));
        r.lemma_filter_contains_rev(name_is(n), f[0]);
        let j = choose|j: int| 0 <= j < r.len() && r[j] == f[0];
        assert(r[j].name@ != n);
    }
}

/// Sorts mailing lists by name, keeping lists of equal names in the order
/// in which they came (a stable sort): for every name, the lists of that
/// name come out in the order in which they went in.
pub fn sort_by_name(v: &Vec<LoreMailingList>) -> (r: Vec<LoreMailingList>)
    ensures
        sorted_by_name(r@),
        r@.to_multiset() == v@.to_multiset(),
        forall|n: Seq<char>| #[trigger] with_name(r@, n) == with_name(v@, n),
{
    let mut out: Vec<LoreMailingList> = Vec::new();
    let mut i: usize = 0;
    assert(out@ =~= v@.subrange(0, 0));
    while i < v.len()
        invariant
            i <= v@.len(),
            sorted_by_name(out@),
            out@.to_multiset() == v@.subrange(0, i as int).to_multiset(),
            forall|n: Seq<char>| #[trigger] with_name(out@, n) == with_name(v@.subrange(0, i as int), n),
        decreases v@.len() - i,
    {
        let x = v[i].duplicate();
        let mut k: usize = 0;
        assert(x == v@[i as int]);
        while k < out.len() && !str_lt(x.name.as_str(), out[k].name.as_str())
            invariant
                k <= out@.len(),
                forall|j: int| 0 <= j < k ==> seq_le(#[trigger] out@[j].name@, x.name@),
            decreases out@.len() - k,
        {
            k = k + 1;
        }
        let ghost before = out@;
        proof {
            if k < out@.len() {
                assert(seq_lt(x.name@, before[k as int].name@));
            }
        }
        out.insert(k, x);
        proof {
            before.insert_ensures(k as int, x);
            assert forall|a: int, b: int| 0 <= a < b < out@.len() implies seq_le(
                #[trigger] out@[a].name@,
                #[trigger] out@[b].name@,
            ) by {
                if b < k {
                    assert(out@[a] == before[a] && out@[b] == before[b]);
                } else if a > k {
                    assert(out@[a] == before[a - 1] && out@[b] == before[b - 1]);
                } else if a == k {
                    assert(out@[b] == before[b - 1]);
                    lemma_seq_lt_trichotomy(x.name@, before[k as int].name@);
                    assert(seq_le(x.name@, before[k as int].name@));
                    if b - 1 > k {
                        assert(seq_le(before[k as int].name@, before[b - 1].name@));
                        lemma_seq_le_transitive(x.name@, before[k as int].name@, before[b - 1].name@);
                    }
                } else if b == k {
                    assert(out@[a] == before[a]);
                } else {
                    assert(a < k && k < b);
                    assert(out@[a] == before[a] && out@[b] == before[b - 1]);
                    assert(seq_le(before[a].name@, x.name@));
                    lemma_seq_lt_trichotomy(x.name@, before[k as int].name@);
                    assert(seq_le(x.name@, before[k as int].name@));
                    if b - 1 > k {
                        lemma_seq_le_transitive(x.name@, before[k as int].name@, before[b - 1].name@);
                    }
                    lemma_seq_le_transitive(before[a].name@, x.name@, before[b - 1].name@);
                }
            }
            lemma_insert_multiset(before, k as int, x);
            assert(v@.subrange(0, i + 1) =~= v@.subrange(0, i as int).push(v@[i as int]));
            let left = before.subrange(0, k as int);
            let right = before.subrange(k as int, before.len() as int);
            assert(before =~= left + right);
            assert(out@ =~= (left + seq![x]) + right);
            assert(v@.subrange(0, i + 1) =~= v@.subrange(0, i as int) + seq![x]);
            assert forall|n: Seq<char>| #[trigger] with_name(out@, n) == with_name(
                v@.subrange(0, i + 1),
                n,
            ) by {
                Seq::filter_distributes_over_add(left + seq![x], right, name_is(n));
                Seq::filter_distributes_over_add(left, seq![x], name_is(n));
                Seq::filter_distributes_over_add(left, right, name_is(n));
                Seq::filter_distributes_over_add(v@.subrange(0, i as int), seq![x], name_is(n));
                lemma_filter_single(x, n);
                assert(with_name(before, n) == with_name(v@.subrange(0, i as int), n));
                if x.name@ == n {
                    lemma_later_names_differ(before, k as int, n);
                    assert(with_name(before, n) =~= left.filter(name_is(n)));
                    assert(with_name(out@, n) =~= with_name(before, n) + seq![x]);
                } else {
                    assert(with_name(out@, n) =~= with_name(before, n));
                }
            }
            broadcast use group_to_multiset_ensures;
        }
        i = i + 1;
    }
    assert(v@.subrange(0, v@.len() as int) =~= v@);
    out
}

/// The mailing lists of a range of indices, clamped to the lists held: none
/// when the range starts at or past the end.
pub open spec fn clamped_slice<A>(s: Seq<A>, start: int, end: int) -> Seq<A> {
    if start >= s.len() {
        Seq::empty()
    } else {
        s.subrange(start, if end < s.len() { end } else { s.len() as int })
    }
}

/// The time of the first list, if there is one.
pub open spec fn first_update(s: Seq<LoreMailingList>) -> Option<Timestamp> {
    if s.len() == 0 {
        None
    } else {
        Some(s[0].last_update)
    }
}

/// Whether a cache whose first list was updated at `cached` is still valid
/// against the archive whose first list was updated at `api`.
pub open spec fn cache_valid(cached: Option<Timestamp>, api: Option<Timestamp>) -> bool {
    match (cached, api) {
        (Some(c), Some(a)) => not_later(a, c),
        (Some(_), None) => true,
        (None, Some(_)) => false,
        (None, None) => true,
    }
}

/// Data structure for persisting the mailing list cache to disk.
#[derive(Debug)]
pub struct CacheData {
    /// Cached mailing lists sorted alphabetically
    pub lists: Vec<LoreMailingList>,
    /// Last updated time from the 0-th item for cache validation
    pub last_updated: Option<Timestamp>,
}

/// Internal state for the Mailing List Actor.
#[derive(Debug)]
pub struct MailingListData {
    /// Cached mailing lists sorted alphabetically
    pub lists: Vec<LoreMailingList>,
    /// Last updated time from the 0-th item for cache validation
    pub last_updated: Option<Timestamp>,
    /// Path to the cache file
    pub cache_path: String,
}

impl MailingListData {
    /// The file of the mailing list cache in the cache directory:
    /// `mailing_lists.toml`.
    pub fn cache_path_in(cache_dir: &str) -> (r: String)
        ensures
            r@ == path_join(cache_dir@, "mailing_lists.toml"@),
    {
        join_path(cache_dir, "mailing_lists.toml")
    }

    /// Creates an empty cache stored at `cache_path`.
    pub fn new(cache_path: String) -> (r: MailingListData)
        ensures
            r.lists@.len() == 0,
            r.last_updated is None,
            r.cache_path == cache_path,
    {
        MailingListData { lists: Vec::new(), last_updated: None, cache_path }
    }

    /// Sorts the mailing lists alphabetically by name.
    pub fn sort_lists(&mut self)
        ensures
            sorted_by_name(final(self).lists@),
            final(self).lists@.to_multiset() == old(self).lists@.to_multiset(),
            forall|n: Seq<char>| #[trigger] with_name(final(self).lists@, n) == with_name(old(self).lists@, n),
            final(self).last_updated == old(self).last_updated,
            final(self).cache_path == old(self).cache_path,
    {
        self.lists = sort_by_name(&self.lists);
    }

    /// Updates the last_updated time from the 0-th item.
    pub fn update_last_updated(&mut self)
        ensures
            final(self).lists == old(self).lists,
            final(self).last_updated == first_update(old(self).lists@),
            final(self).cache_path == old(self).cache_path,
    {
        self.last_updated = if self.lists.len() == 0 {
            None
        } else {
            Some(self.lists[0].last_update)
        };
    }

    /// Checks if the cache is valid by comparing the last_updated time with
    /// that of the archive: valid when it is not older, or when the archive
    /// has no time.
    pub fn is_cache_valid(&self, api_last_updated: Option<Timestamp>) -> (r: bool)
        ensures
            r == cache_valid(self.last_updated, api_last_updated),
    {
        match (self.last_updated, api_last_updated) {
            (Some(cached), Some(api)) => cached.at_or_after(&api),
            (Some(_), None) => true,
            (None, Some(_)) => false,
            (None, None) => true,
        }
    }

    /// Converts to CacheData for persistence.
    pub fn to_cache_data(&self) -> (r: CacheData)
        ensures
            r.lists@ == self.lists@,
            r.last_updated == self.last_updated,
    {
        CacheData { lists: copy_lists(&self.lists, 0, self.lists.len()), last_updated: self.last_updated }
    }

    /// Updates from CacheData after loading from disk.
    pub fn from_cache_data(&mut self, data: CacheData)
        ensures
            final(self).lists == data.lists,
            final(self).last_updated == data.last_updated,
            final(self).cache_path == old(self).cache_path,
    {
        self.lists = data.lists;
        self.last_updated = data.last_updated;
    }

    /// The list at `index`, if there is one.
    pub fn get(&self, index: usize) -> (r: Option<LoreMailingList>)
        ensures
            index < self.lists@.len() ==> r == Some(self.lists@[index as int]),
            index >= self.lists@.len() ==> r is None,
    {
        if index < self.lists.len() {
            Some(self.lists[index].duplicate())
        } else {
            None
        }
    }

    /// The lists in a range of indices, clamped to the lists held.
    pub fn get_slice(&self, range: std::ops::Range<usize>) -> (r: Vec<LoreMailingList>)
        requires
            range.start <= range.end || range.start >= self.lists@.len(),
        ensures
            r@ == clamped_slice(self.lists@, range.start as int, range.end as int),
    {
        if range.start >= self.lists.len() {
            return Vec::new();
        }
        let end = if range.end < self.lists.len() {
            range.end
        } else {
            self.lists.len()
        };
        copy_lists(&self.lists, range.start, end)
    }

    /// Whether a whole range of indices is held.
    pub fn is_available(&self, range: std::ops::Range<usize>) -> (r: bool)
        ensures
            r == (range.end <= self.lists@.len()),
    {
        range.end <= self.lists.len()
    }

    /// The number of lists held.
    pub fn len(&self) -> (r: usize)
        ensures
            r == self.lists@.len(),
    {
        self.lists.len()
    }

    /// Empties the cache.
    pub fn invalidate(&mut self)
        ensures
            final(self).lists@.len() == 0,
            final(self).last_updated is None,
            final(self).cache_path == old(self).cache_path,
    {
        self.lists.clear();
        self.last_updated = None;
    }

    /// Replaces the cached lists with every list fetched from the archive,
    /// sorted by name, and takes the time of the first one.
    pub fn apply_refresh(&mut self, fetched: Vec<LoreMailingList>)
        ensures
            sorted_by_name(final(self).lists@),
            final(self).lists@.to_multiset() == fetched@.to_multiset(),
            forall|n: Seq<char>| #[trigger] with_name(final(self).lists@, n) == with_name(fetched@, n),
            final(self).last_updated == first_update(final(self).lists@),
            final(self).cache_path == old(self).cache_path,
    {
        self.lists = fetched;
        self.sort_lists();
        self.update_last_updated();
    }
}

/// Law: the lists a refreshed cache hands out are the fetched ones in name
/// order: each read index holds a fetched list, and reads come in order.
pub proof fn law_refresh_reads_in_name_order(
    d: MailingListData,
    fetched: Seq<LoreMailingList>,
    i: int,
    j: int,
)
    requires
        sorted_by_name(d.lists@),
        d.lists@.to_multiset() == fetched.to_multiset(),
        0 <= i < j < d.lists@.len(),
    ensures
        fetched.contains(d.lists@[i]),
        seq_le(d.lists@[i].name@, d.lists@[j].name@),
        d.lists@.len() == fetched.len(),
{
    broadcast use group_to_multiset_ensures;
    assert(d.lists@.contains(d.lists@[i]));
    assert(d.lists@.to_multiset().count(d.lists@[i]) > 0);
    assert(fetched.to_multiset().count(d.lists@[i]) > 0);
    d.lists@.to_multiset_ensures();
    fetched.to_multiset_ensures();
}

/// Law: the time a cache records is that of its first list: none for no
/// lists, the first list's time otherwise, whatever lists follow it.
pub proof fn law_first_update_is_first_list(s: Seq<LoreMailingList>, rest: Seq<LoreMailingList>)
    ensures
        s.len() == 0 ==> first_update(s) is None,
        s.len() > 0 ==> first_update(s) == Some(s[0].last_update),
        s.len() > 0 ==> first_update(s + rest) == first_update(s),
{
    if s.len() > 0 {
        assert((s + rest)[0] == s[0]);
    }
}

/// Law: a slice of the cache is never longer than its range, and a range
/// within the cache is handed out whole.
pub proof fn law_slice_within_range(s: Seq<LoreMailingList>, start: int, end: int)
    requires
        0 <= start <= end,
    ensures
        clamped_slice(s, start, end).len() <= end - start,
        end <= s.len() ==> clamped_slice(s, start, end) == s.subrange(start, end),
{
}

/// Law: loading what was persisted gives back the lists and time the cache
/// had.
pub proof fn law_persist_then_load(d: MailingListData, data: CacheData, loaded: MailingListData)
    requires
        data.lists@ == d.lists@,
        data.last_updated == d.last_updated,
        loaded.lists == data.lists,
        loaded.last_updated == data.last_updated,
    ensures
        loaded.lists@ == d.lists@,
        loaded.last_updated == d.last_updated,
{
}

} // verus!
