//! The records that the lore archive hands out and that the caches keep:
//! mailing lists, patch metadata, and pages of either.
use vstd::prelude::*;

verus! {

/// A point in time in UTC, as seconds since the Unix epoch and nanoseconds
/// within the second (the same order as `chrono::DateTime<Utc>`).
#[derive(Debug, Clone, Copy, PartialEq, Eq, Structural)]
pub struct Timestamp {
    /// Whole seconds since 1970-01-01T00:00:00Z
    pub secs: i64,
    /// Nanoseconds within the second
    pub nanos: u32,
}

/// Whether `a` is not later than `b`.
pub open spec fn not_later(a: Timestamp, b: Timestamp) -> bool {
    a.secs < b.secs || (a.secs == b.secs && a.nanos <= b.nanos)
}

impl Timestamp {
    /// Whether this time is at or after `other`.
    pub fn at_or_after(&self, other: &Timestamp) -> (r: bool)
        ensures
            r == not_later(*other, *self),
    {
        other.secs < self.secs || (other.secs == self.secs && other.nanos <= self.nanos)
    }
}

/// A mailing list archived on lore.
#[derive(Debug, Clone, PartialEq, Eq)]
pub struct LoreMailingList {
    /// Name of the list, as used in archive URLs
    pub name: String,
    /// Human-readable description of the list
    pub description: String,
    /// When the list last received a message
    pub last_update: Timestamp,
}

impl LoreMailingList {
    /// A copy of the record.
    pub fn duplicate(&self) -> (r: LoreMailingList)
        ensures
            r == *self,
    {
        LoreMailingList {
            name: self.name.clone(),
            description: self.description.clone(),
            last_update: self.last_update,
        }
    }
}

/// The metadata of a patch (a message) in a mailing list feed.
#[derive(Debug, Clone, PartialEq, Eq)]
pub struct LorePatchMetadata {
    /// Message-ID of the patch message
    pub message_id: String,
    /// Subject line of the patch
    pub title: String,
    /// When the patch thread was last updated
    pub last_update: Timestamp,
}

impl LorePatchMetadata {
    /// A copy of the record.
    pub fn duplicate(&self) -> (r: LorePatchMetadata)
        ensures
            r == *self,
    {
        LorePatchMetadata {
            message_id: self.message_id.clone(),
            title: self.title.clone(),
            last_update: self.last_update,
        }
    }
}

/// Copies the records of `v` from `start` (inclusive) to `end` (exclusive).
pub fn copy_lists(v: &Vec<LoreMailingList>, start: usize, end: usize) -> (r: Vec<LoreMailingList>)
    requires
        start <= end <= v@.len(),
    ensures
        r@ == v@.subrange(start as int, end as int),
{
    let mut r: Vec<LoreMailingList> = Vec::new();
    let mut i = start;
    while i < end
        invariant
            start <= i <= end,
            end <= v@.len(),
            r@ == v@.subrange(start as int, i as int),
        decreases end - i,
    {
        r.push(v[i].duplicate());
        proof {
            assert(r@ =~= v@.subrange(start as int, i + 1));
        }
        i = i + 1;
    }
    r
}

/// Copies the records of `v` from `start` (inclusive) to `end` (exclusive).
pub fn copy_patches(v: &Vec<LorePatchMetadata>, start: usize, end: usize) -> (r: Vec<
    LorePatchMetadata,
>)
    requires
        start <= end <= v@.len(),
    ensures
        r@ == v@.subrange(start as int, end as int),
{
    let mut r: Vec<LorePatchMetadata> = Vec::new();
    let mut i = start;
    while i < end
        invariant
            start <= i <= end,
            end <= v@.len(),
            r@ == v@.subrange(start as int, i as int),
        decreases end - i,
    {
        r.push(v[i].duplicate());
        proof {
            assert(r@ =~= v@.subrange(start as int, i + 1));
        }
        i = i + 1;
    }
    r
}

/// One page of results from the archive, with the index at which the next
/// page starts, if there is one.
#[derive(Debug)]
pub struct LorePage<T> {
    /// The records of the page
    pub items: Vec<T>,
    /// Index of the first record of the next page
    pub next_page_index: Option<usize>,
}

} // verus!
