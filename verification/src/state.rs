//! The demand-driven metadata states: mock contents, and the decisions of
//! the actor that fills the patch metadata of each list page by page.
use vstd::prelude::*;

use crate::cache::feed::feed_of;
use crate::cache::str_map::StrMap;
use crate::lore::{copy_patches, LoreMailingList, LorePage, LorePatchMetadata};

verus! {

/// Contents of a mock mailing list state.
#[derive(Debug)]
pub struct MailingListMockData {
    /// The mailing lists it holds
    pub mailing_lists: Vec<LoreMailingList>,
}

impl Default for MailingListMockData {
    /// No mailing lists.
    fn default() -> (r: MailingListMockData)
        ensures
            r.mailing_lists@.len() == 0,
    {
        MailingListMockData { mailing_lists: Vec::new() }
    }
}

/// Contents of a mock patch metadata state.
#[derive(Debug)]
pub struct PatchMetaMockData {
    /// The patch metadata it holds for each list
    pub patch_cache: StrMap<Vec<LorePatchMetadata>>,
}

impl Default for PatchMetaMockData {
    /// No lists.
    fn default() -> (r: PatchMetaMockData)
        ensures
            r.patch_cache@ == Map::<Seq<char>, Vec<LorePatchMetadata>>::empty(),
    {
        PatchMetaMockData { patch_cache: StrMap::new() }
    }
}

/// The records of `s` in `start..end` when that range lies within `s`
/// (as `slice::get` with a range gives them), else none.
pub open spec fn range_or_empty<A>(s: Seq<A>, start: int, end: int) -> Seq<A> {
    if start <= end && end <= s.len() {
        s.subrange(start, end)
    } else {
        Seq::empty()
    }
}

/// The records in a range when the range lies within the records held, else none.
pub fn checked_slice(items: &Vec<LorePatchMetadata>, range: std::ops::Range<usize>) -> (r: Vec<
    LorePatchMetadata,
>)
    ensures
        r@ == range_or_empty(items@, range.start as int, range.end as int),
{
    if range.start <= range.end && range.end <= items.len() {
        copy_patches(items, range.start, range.end)
    } else {
        Vec::new()
    }
}

/// Whether the metadata of a list is up to date: the cache holds a first
/// record, the archive's first page has one too, and both were last updated
/// at the same time.
pub open spec fn first_updates_match(
    cached: Seq<LorePatchMetadata>,
    remote: Seq<LorePatchMetadata>,
) -> bool {
    cached.len() > 0 && remote.len() > 0 && cached[0].last_update == remote[0].last_update
}

/// Compares the first cached record of a list with the first record of the
/// archive's first page.
pub fn is_first_update_same(cached: &Vec<LorePatchMetadata>, remote: &Vec<LorePatchMetadata>) -> (r:
    bool)
    ensures
        r == first_updates_match(cached@, remote@),
{
    if cached.len() > 0 && remote.len() > 0 {
        cached[0].last_update == remote[0].last_update
    } else {
        false
    }
}

/// Law: the up-to-date check looks at the first record of each side only:
/// records after the first change nothing, two first records updated at
/// different times are never up to date, at the same time always are, and
/// an empty side is never up to date.
pub proof fn law_first_update_check(
    cached: Seq<LorePatchMetadata>,
    remote: Seq<LorePatchMetadata>,
    more_cached: Seq<LorePatchMetadata>,
    more_remote: Seq<LorePatchMetadata>,
)
    ensures
        cached.len() > 0 && remote.len() > 0 ==> first_updates_match(cached + more_cached, remote + more_remote)
            == first_updates_match(cached, remote),
        cached.len() > 0 && remote.len() > 0 && cached[0].last_update != remote[0].last_update
            ==> !first_updates_match(cached + more_cached, remote + more_remote),
        cached.len() > 0 && remote.len() > 0 && cached[0].last_update == remote[0].last_update
            ==> first_updates_match(cached + more_cached, remote + more_remote),
        cached.len() == 0 ==> !first_updates_match(cached, remote),
        remote.len() == 0 ==> !first_updates_match(cached, remote),
{
    if cached.len() > 0 && remote.len() > 0 {
        assert((cached + more_cached)[0] == cached[0]);
        assert((remote + more_remote)[0] == remote[0]);
    }
}

/// The metadata of each list, filled page by page on demand.
#[derive(Debug)]
pub struct PatchMetaCache {
    /// Patch metadata per mailing list
    pub patch_cache: StrMap<Vec<LorePatchMetadata>>,
}

impl PatchMetaCache {
    /// An empty cache.
    pub fn new() -> (r: PatchMetaCache)
        ensures
            r.patch_cache@ == Map::<Seq<char>, Vec<LorePatchMetadata>>::empty(),
    {
        PatchMetaCache { patch_cache: StrMap::new() }
    }

    /// The number of records held for a list.
    pub fn len(&self, list: &str) -> (r: usize)
        ensures
            r == feed_of(self.patch_cache@, list@).len(),
    {
        match self.patch_cache.get(list) {
            Some(v) => v.len(),
            None => 0,
        }
    }

    /// Whether a request for the record at `index` must fetch another page
    /// first (the page starting at the number of records held).
    pub fn needs_page_for_index(&self, list: &str, index: usize) -> (r: bool)
        ensures
            r == (feed_of(self.patch_cache@, list@).len() <= index),
    {
        self.len(list) <= index
    }

    /// Whether a request for the records up to `end` must fetch another
    /// page first (the page starting at the number of records held).
    pub fn needs_page_for_end(&self, list: &str, end: usize) -> (r: bool)
        ensures
            r == (feed_of(self.patch_cache@, list@).len() < end),
    {
        self.len(list) < end
    }

    /// Takes in a page fetched for a list: a missing or empty page means the
    /// archive has nothing more (false); otherwise its records are appended
    /// (true). The list gets an entry either way.
    pub fn take_page(&mut self, list: &str, page: Option<LorePage<LorePatchMetadata>>) -> (r: bool)
        ensures
            final(self).patch_cache@.dom() == old(self).patch_cache@.dom().insert(list@),
            match page {
                Some(p) => if p.items@.len() > 0 {
                    r && final(self).patch_cache@[list@]@ == feed_of(
                        old(self).patch_cache@,
                        list@,
                    ) + p.items@
                } else {
                    !r && final(self).patch_cache@[list@]@ == feed_of(
                        old(self).patch_cache@,
                        list@,
                    )
                },
                None => !r && final(self).patch_cache@[list@]@ == feed_of(
                    old(self).patch_cache@,
                    list@,
                ),
            },
            forall|k: Seq<char>|
                k != list@ && #[trigger] old(self).patch_cache@.dom().contains(k)
                    ==> final(self).patch_cache@[k] == old(self).patch_cache@[k],
    {
        let mut feed = match self.patch_cache.remove(list) {
            Some(v) => v,
            None => Vec::new(),
        };
        let more = match page {
            Some(p) => {
                if p.items.len() > 0 {
                    let mut items = p.items;
                    feed.append(&mut items);
                    true
                } else {
                    false
                }
            },
            None => false,
        };
        self.patch_cache.insert(list.to_string(), feed);
        proof {
            assert(self.patch_cache@.dom() =~= old(self).patch_cache@.dom().insert(list@));
        }
        more
    }

    /// The record at `index` of a list, if held.
    pub fn get(&self, list: &str, index: usize) -> (r: Option<LorePatchMetadata>)
        ensures
            index < feed_of(self.patch_cache@, list@).len() ==> r == Some(
                feed_of(self.patch_cache@, list@)[index as int],
            ),
            index >= feed_of(self.patch_cache@, list@).len() ==> r is None,
    {
        match self.patch_cache.get(list) {
            Some(v) => if index < v.len() {
                Some(v[index].duplicate())
            } else {
                None
            },
            None => None,
        }
    }

    /// The records of a list in a range when the range lies within the
    /// records held, else none.
    pub fn get_slice(&self, list: &str, range: std::ops::Range<usize>) -> (r: Vec<LorePatchMetadata>)
        ensures
            r@ == range_or_empty(
                feed_of(self.patch_cache@, list@),
                range.start as int,
                range.end as int,
            ),
    {
        match self.patch_cache.get(list) {
            Some(v) => checked_slice(v, range),
            None => Vec::new(),
        }
    }

    /// Forgets the records of a list.
    pub fn invalidate(&mut self, list: &str)
        ensures
            final(self).patch_cache@ == old(self).patch_cache@.remove(list@),
    {
        let _ = self.patch_cache.remove(list);
    }
}

} // verus!
