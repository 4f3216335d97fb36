//! The feed cache: for each mailing list, the patch metadata fetched so far,
//! newest first, as the archive pages it.
use vstd::prelude::*;
use vstd::string::*;

use crate::cache::mailing_list::clamped_slice;
use crate::cache::str_map::StrMap;
use crate::lore::{copy_patches, LorePage, LorePatchMetadata, Timestamp};
use crate::text::{join_path, path_join, str_equals};

verus! {

/// The records held for a list: none for a list never fetched.
pub open spec fn feed_of(
    feeds: Map<Seq<char>, Vec<LorePatchMetadata>>,
    list: Seq<char>,
) -> Seq<LorePatchMetadata> {
    if feeds.dom().contains(list) {
        feeds[list]@
    } else {
        Seq::empty()
    }
}

/// Whether some record of a feed has the given message id.
pub open spec fn has_message(s: Seq<LorePatchMetadata>, message_id: Seq<char>) -> bool {
    exists|i: int| 0 <= i < s.len() && #[trigger] s[i].message_id@ == message_id
}

/// Data structure for persisting the feed cache to disk.
#[derive(Debug)]
pub struct CacheData {
    /// Cached patch metadata per mailing list
    pub feeds: StrMap<Vec<LorePatchMetadata>>,
    /// Last updated time per mailing list for cache validation
    pub last_updated: StrMap<Option<Timestamp>>,
}

impl CacheData {
    /// Cache data holding nothing.
    pub fn new() -> (r: CacheData)
        ensures
            r.feeds@ == Map::<Seq<char>, Vec<LorePatchMetadata>>::empty(),
            r.last_updated@ == Map::<Seq<char>, Option<Timestamp>>::empty(),
    {
        CacheData { feeds: StrMap::new(), last_updated: StrMap::new() }
    }
}

/// Internal state for the Feed Actor.
#[derive(Debug)]
pub struct FeedData {
    /// Cached patch metadata per mailing list
    pub feeds: StrMap<Vec<LorePatchMetadata>>,
    /// Last updated time per mailing list for cache validation
    pub last_updated: StrMap<Option<Timestamp>>,
    /// Directory for cache files
    pub cache_dir: String,
}

/// What a fetch does after a page of the archive came back.
#[derive(Debug, Clone, Copy, PartialEq, Eq, Structural)]
pub enum FetchStep {
    /// No more pages are fetched
    Stop,
    /// The page starting at this index is fetched next
    Continue(usize),
}

impl FeedData {
    /// The directory of the feed cache in the cache directory: `feed`.
    pub fn dir_in(cache_dir: &str) -> (r: String)
        ensures
            r@ == path_join(cache_dir@, "feed"@),
    {
        join_path(cache_dir, "feed")
    }

    /// Creates an empty cache stored under `cache_dir`.
    pub fn new(cache_dir: String) -> (r: FeedData)
        ensures
            r.feeds@ == Map::<Seq<char>, Vec<LorePatchMetadata>>::empty(),
            r.last_updated@ == Map::<Seq<char>, Option<Timestamp>>::empty(),
            r.cache_dir == cache_dir,
    {
        FeedData { feeds: StrMap::new(), last_updated: StrMap::new(), cache_dir }
    }

    /// Gets the cache file path for a specific mailing list: `<list>.toml`
    /// in the cache directory.
    pub fn get_cache_path(&self, list: &str) -> (r: String)
        ensures
            r@ == path_join(self.cache_dir@, list@ + ".toml"@),
    {
        let mut name = String::from_str(list);
        name.append(".toml");
        join_path(self.cache_dir.as_str(), name.as_str())
    }

    /// Updates the last_updated time for a mailing list.
    pub fn update_last_updated(&mut self, list: String, last_updated: Option<Timestamp>)
        ensures
            final(self).feeds@ == old(self).feeds@,
            final(self).last_updated@ == old(self).last_updated@.insert(list@, last_updated),
            final(self).cache_dir == old(self).cache_dir,
    {
        self.last_updated.insert(list, last_updated);
    }

    /// Gets the number of cached items for a mailing list.
    pub fn len(&self, list: &str) -> (r: usize)
        ensures
            r == feed_of(self.feeds@, list@).len(),
    {
        match self.feeds.get(list) {
            Some(v) => v.len(),
            None => 0,
        }
    }

    /// Checks if a range is available for a mailing list: the list has been
    /// fetched and holds records up to the end of the range.
    pub fn contains_range(&self, list: &str, range: std::ops::Range<usize>) -> (r: bool)
        ensures
            r == (self.feeds@.dom().contains(list@) && self.feeds@[list@]@.len() >= range.end),
    {
        match self.feeds.get(list) {
            Some(v) => v.len() >= range.end,
            None => false,
        }
    }

    /// The cached record at `index` of a list, if there is one.
    pub fn get(&self, list: &str, index: usize) -> (r: Option<LorePatchMetadata>)
        ensures
            index < feed_of(self.feeds@, list@).len() ==> r == Some(
                feed_of(self.feeds@, list@)[index as int],
            ),
            index >= feed_of(self.feeds@, list@).len() ==> r is None,
    {
        match self.feeds.get(list) {
            Some(v) => if index < v.len() {
                Some(v[index].duplicate())
            } else {
                None
            },
            None => None,
        }
    }

    /// The cached records of a list in a range, clamped to the records held.
    pub fn get_slice(&self, list: &str, range: std::ops::Range<usize>) -> (r: Vec<LorePatchMetadata>)
        requires
            range.start <= range.end || range.start >= feed_of(self.feeds@, list@).len(),
        ensures
            r@ == clamped_slice(feed_of(self.feeds@, list@), range.start as int, range.end as int),
    {
        match self.feeds.get(list) {
            Some(v) => {
                if range.start >= v.len() {
                    return Vec::new();
                }
                let end = if range.end < v.len() {
                    range.end
                } else {
                    v.len()
                };
                copy_patches(v, range.start, end)
            },
            None => Vec::new(),
        }
    }

    /// The message id of the newest cached record of a list, if there is one.
    pub fn newest_message_id(&self, list: &str) -> (r: Option<String>)
        ensures
            feed_of(self.feeds@, list@).len() == 0 ==> r is None,
            feed_of(self.feeds@, list@).len() > 0 ==> (r matches Some(id) && id@ == feed_of(
                self.feeds@,
                list@,
            )[0].message_id@),
    {
        match self.feeds.get(list) {
            Some(v) => if v.len() > 0 {
                Some(v[0].message_id.clone())
            } else {
                None
            },
            None => None,
        }
    }

    /// Checks if an item is already in the cache for a mailing list.
    pub fn has_item_in_cache(&self, list: &str, item: &LorePatchMetadata) -> (r: bool)
        ensures
            r == has_message(feed_of(self.feeds@, list@), item.message_id@),
    {
        match self.feeds.get(list) {
            Some(v) => contains_message(v, item.message_id.as_str()),
            None => false,
        }
    }

    /// Forgets everything cached for a list.
    pub fn remove_list(&mut self, list: &str)
        ensures
            final(self).feeds@ == old(self).feeds@.remove(list@),
            final(self).last_updated@ == old(self).last_updated@.remove(list@),
            final(self).cache_dir == old(self).cache_dir,
    {
        let _ = self.feeds.remove(list);
        let _ = self.last_updated.remove(list);
    }

    /// Appends fetched records to the feed of a list (creating it if
    /// needed) and takes the time of its newest record.
    pub fn append(&mut self, list: &str, items: Vec<LorePatchMetadata>)
        ensures
            final(self).feeds@ == old(self).feeds@.insert(
                list@,
                final(self).feeds@[list@],
            ),
            final(self).feeds@[list@]@ == feed_of(old(self).feeds@, list@) + items@,
            final(self).last_updated@ == if final(self).feeds@[list@]@.len() > 0 {
                old(self).last_updated@.insert(
                    list@,
                    Some(final(self).feeds@[list@]@[0].last_update),
                )
            } else {
                old(self).last_updated@
            },
            final(self).cache_dir == old(self).cache_dir,
    {
        let mut feed = match self.feeds.remove(list) {
            Some(v) => v,
            None => Vec::new(),
        };
        let mut items = items;
        feed.append(&mut items);
        let newest = if feed.len() > 0 {
            Some(feed[0].last_update)
        } else {
            None
        };
        self.feeds.insert(list.to_string(), feed);
        proof {
            assert(self.feeds@ =~= old(self).feeds@.insert(list@, self.feeds@[list@]));
        }
        match newest {
            Some(t) => self.last_updated.insert(list.to_string(), Some(t)),
            None => {},
        }
    }

    /// Takes in a page fetched while filling the feed of `list` up to
    /// `target_index`: a missing or empty page ends the fetch; otherwise its
    /// records are appended, and the fetch goes on at the next page unless
    /// the archive has none or its index passes the target.
    pub fn take_fetched_page(
        &mut self,
        list: &str,
        target_index: usize,
        page: Option<LorePage<LorePatchMetadata>>,
    ) -> (r: FetchStep)
        ensures
            match page {
                None => r == FetchStep::Stop && *final(self) == *old(self),
                Some(p) => if p.items@.len() == 0 {
                    r == FetchStep::Stop && *final(self) == *old(self)
                } else {
                    &&& final(self).feeds@ == old(self).feeds@.insert(list@, final(self).feeds@[list@])
                    &&& final(self).feeds@[list@]@ == feed_of(old(self).feeds@, list@) + p.items@
                    &&& final(self).last_updated@ == old(self).last_updated@.insert(
                        list@,
                        Some(final(self).feeds@[list@]@[0].last_update),
                    )
                    &&& final(self).cache_dir == old(self).cache_dir
                    &&& r == match p.next_page_index {
                        Some(n) => if n > target_index {
                            FetchStep::Stop
                        } else {
                            FetchStep::Continue(n)
                        },
                        None => FetchStep::Stop,
                    }
                },
            },
    {
        match page {
            None => FetchStep::Stop,
            Some(p) => {
                if p.items.len() == 0 {
                    return FetchStep::Stop;
                }
                let next = p.next_page_index;
                self.append(list, p.items);
                match next {
                    Some(n) => if n > target_index {
                        FetchStep::Stop
                    } else {
                        FetchStep::Continue(n)
                    },
                    None => FetchStep::Stop,
                }
            },
        }
    }

    /// Puts records newer than everything held in front of the feed of a
    /// list (creating it if needed); when there are any, the time of the
    /// first of them becomes the list's time.
    pub fn prepend(&mut self, list: &str, items: Vec<LorePatchMetadata>)
        ensures
            final(self).feeds@ == old(self).feeds@.insert(
                list@,
                final(self).feeds@[list@],
            ),
            final(self).feeds@[list@]@ == items@ + feed_of(old(self).feeds@, list@),
            final(self).last_updated@ == if items@.len() > 0 {
                old(self).last_updated@.insert(list@, Some(items@[0].last_update))
            } else {
                old(self).last_updated@
            },
            final(self).cache_dir == old(self).cache_dir,
    {
        let mut held = match self.feeds.remove(list) {
            Some(v) => v,
            None => Vec::new(),
        };
        let newest = if items.len() > 0 {
            Some(items[0].last_update)
        } else {
            None
        };
        let mut feed = items;
        feed.append(&mut held);
        self.feeds.insert(list.to_string(), feed);
        proof {
            assert(self.feeds@ =~= old(self).feeds@.insert(list@, self.feeds@[list@]));
        }
        match newest {
            Some(t) => self.last_updated.insert(list.to_string(), Some(t)),
            None => {},
        }
    }

    /// How a refresh of the feed of a list starts: an empty feed is filled
    /// as a fetch up to index 0 would fill it; otherwise the archive is read
    /// from its first page until the newest record held shows up.
    pub fn refresh_plan(&self, list: &str) -> (r: RefreshPlan)
        ensures
            feed_of(self.feeds@, list@).len() == 0 ==> r == (RefreshPlan::FetchUntil {
                target_index: 0,
            }),
            feed_of(self.feeds@, list@).len() > 0 ==> (r matches RefreshPlan::Scan { newest_id }
                && newest_id@ == feed_of(self.feeds@, list@)[0].message_id@),
    {
        match self.newest_message_id(list) {
            Some(id) => RefreshPlan::Scan { newest_id: id },
            None => RefreshPlan::FetchUntil { target_index: 0 },
        }
    }

    /// The data persisted for one list: its records and time, if held.
    pub fn cache_data_for(&self, list: &str) -> (r: CacheData)
        ensures
            r.feeds@ == if self.feeds@.dom().contains(list@) {
                Map::<Seq<char>, Vec<LorePatchMetadata>>::empty().insert(
                    list@,
                    r.feeds@[list@],
                )
            } else {
                Map::<Seq<char>, Vec<LorePatchMetadata>>::empty()
            },
            self.feeds@.dom().contains(list@) ==> r.feeds@[list@]@ == self.feeds@[list@]@,
            r.last_updated@ == if self.last_updated@.dom().contains(list@) {
                Map::<Seq<char>, Option<Timestamp>>::empty().insert(
                    list@,
                    self.last_updated@[list@],
                )
            } else {
                Map::<Seq<char>, Option<Timestamp>>::empty()
            },
    {
        let mut data = CacheData::new();
        match self.feeds.get(list) {
            Some(v) => data.feeds.insert(list.to_string(), copy_patches(v, 0, v.len())),
            None => {},
        }
        match self.last_updated.get(list) {
            Some(t) => data.last_updated.insert(list.to_string(), *t),
            None => {},
        }
        proof {
            assert(data.feeds@ =~= if self.feeds@.dom().contains(list@) {
                Map::<Seq<char>, Vec<LorePatchMetadata>>::empty().insert(list@, data.feeds@[list@])
            } else {
                Map::<Seq<char>, Vec<LorePatchMetadata>>::empty()
            });
            assert(data.last_updated@ =~= if self.last_updated@.dom().contains(list@) {
                Map::<Seq<char>, Option<Timestamp>>::empty().insert(list@, self.last_updated@[list@])
            } else {
                Map::<Seq<char>, Option<Timestamp>>::empty()
            });
        }
        data
    }

    /// Merges loaded data into the cache; loaded lists replace held ones.
    pub fn merge(&mut self, data: CacheData)
        ensures
            final(self).feeds@ == old(self).feeds@.union_prefer_right(data.feeds@),
            final(self).last_updated@ == old(self).last_updated@.union_prefer_right(
                data.last_updated@,
            ),
            final(self).cache_dir == old(self).cache_dir,
    {
        let CacheData { feeds, last_updated } = data;
        self.feeds.extend(feeds);
        self.last_updated.extend(last_updated);
    }
}

/// How a refresh of a feed starts.
#[derive(Debug, PartialEq, Eq)]
pub enum RefreshPlan {
    /// Fill the feed as a fetch up to this index does
    FetchUntil { target_index: usize },
    /// Read pages from the first one, collecting what is newer than the
    /// record with this message id
    Scan { newest_id: String },
}

/// Takes in a page read while refreshing a feed whose newest record has the
/// message id `newest_id`, collecting the records of the pages that came
/// before that record in `collected`, newest first: a missing or empty page
/// ends the refresh, and so does a page holding that record (none of its
/// records is taken); any other page gives all its records, and the refresh
/// goes on at the next page, if the archive has one.
pub fn take_refresh_page(
    collected: &mut Vec<LorePatchMetadata>,
    newest_id: &str,
    page: Option<LorePage<LorePatchMetadata>>,
) -> (r: FetchStep)
    ensures
        match page {
            None => r == FetchStep::Stop && final(collected)@ == old(collected)@,
            Some(p) => if p.items@.len() == 0 || has_message(p.items@, newest_id@) {
                r == FetchStep::Stop && final(collected)@ == old(collected)@
            } else {
                &&& final(collected)@ == old(collected)@ + p.items@
                &&& r == match p.next_page_index {
                    None => FetchStep::Stop,
                    Some(n) => FetchStep::Continue(n),
                }
            },
        },
{
    match page {
        None => FetchStep::Stop,
        Some(p) => {
            if p.items.len() == 0 || contains_message(&p.items, newest_id) {
                return FetchStep::Stop;
            }
            let next = p.next_page_index;
            let mut items = p.items;
            collected.append(&mut items);
            match next {
                None => FetchStep::Stop,
                Some(n) => FetchStep::Continue(n),
            }
        },
    }
}

/// Whether some record has the given message id.
pub fn contains_message(items: &Vec<LorePatchMetadata>, message_id: &str) -> (r: bool)
    ensures
        r == has_message(items@, message_id@),
{
    let mut i: usize = 0;
    while i < items.len()
        invariant
            i <= items@.len(),
            forall|j: int| 0 <= j < i ==> #[trigger] items@[j].message_id@ != message_id@,
        decreases items@.len() - i,
    {
        if str_equals(items[i].message_id.as_str(), message_id) {
            return true;
        }
        i = i + 1;
    }
    false
}

/// Where a fetch of the feed of a list up to `target_index` starts: at the
/// number of records held, unless that already passes the target.
pub fn fetch_start(held: usize, target_index: usize) -> (r: Option<usize>)
    ensures
        r == (if held > target_index {
            None
        } else {
            Some(held)
        }),
{
    if held > target_index {
        None
    } else {
        Some(held)
    }
}

/// Law: loading what was persisted for a list into an empty cache gives
/// back the records and time that the list had.
pub proof fn law_persist_then_load(d: FeedData, list: Seq<char>, data: CacheData, loaded: FeedData)
    requires
        data.feeds@ == (if d.feeds@.dom().contains(list) {
            Map::<Seq<char>, Vec<LorePatchMetadata>>::empty().insert(list, data.feeds@[list])
        } else {
            Map::<Seq<char>, Vec<LorePatchMetadata>>::empty()
        }),
        d.feeds@.dom().contains(list) ==> data.feeds@[list]@ == d.feeds@[list]@,
        data.last_updated@ == (if d.last_updated@.dom().contains(list) {
            Map::<Seq<char>, Option<Timestamp>>::empty().insert(list, d.last_updated@[list])
        } else {
            Map::<Seq<char>, Option<Timestamp>>::empty()
        }),
        loaded.feeds@ == Map::<Seq<char>, Vec<LorePatchMetadata>>::empty().union_prefer_right(
            data.feeds@,
        ),
        loaded.last_updated@ == Map::<Seq<char>, Option<Timestamp>>::empty().union_prefer_right(
            data.last_updated@,
        ),
    ensures
        feed_of(loaded.feeds@, list) == feed_of(d.feeds@, list),
        loaded.last_updated@.dom().contains(list) == d.last_updated@.dom().contains(list),
        d.last_updated@.dom().contains(list) ==> loaded.last_updated@[list]
            == d.last_updated@[list],
{
}

/// Law: fetching only ever appends: what a list held before is a prefix of
/// what it holds after a page is taken in.
pub proof fn law_fetch_appends(
    before: Map<Seq<char>, Vec<LorePatchMetadata>>,
    after: Map<Seq<char>, Vec<LorePatchMetadata>>,
    list: Seq<char>,
    items: Seq<LorePatchMetadata>,
    i: int,
)
    requires
        after.dom().contains(list),
        after[list]@ == feed_of(before, list) + items,
        0 <= i < feed_of(before, list).len(),
    ensures
        feed_of(after, list)[i] == feed_of(before, list)[i],
        feed_of(after, list).len() == feed_of(before, list).len() + items.len(),
{
}

} // verus!
