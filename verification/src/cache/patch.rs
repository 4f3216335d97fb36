//! The patch cache: raw patch contents on disk, with the most recently used
//! ones also held in a small least-recently-used buffer in memory.
use vstd::prelude::*;
use vstd::string::*;

use crate::error::{lore_cache_error, CacheError, FsError, LoreApiError};
use crate::text::{concat3, join_path, path_join};

verus! {

#[verifier::external_type_specification]
#[verifier::external_body]
#[verifier::reject_recursive_types(K)]
#[verifier::reject_recursive_types(V)]
#[verifier::reject_recursive_types(S)]
pub struct ExLruCache<K, V, S>(lru::LruCache<K, V, S>);

#[verifier::external_type_specification]
#[verifier::external_body]
pub struct ExLruHasher(lru::DefaultHasher);

/// What an `lru::LruCache` holds: its entries as (key, value) pairs, the most
/// recently used first.
pub uninterp spec fn lru_entries(cache: lru::LruCache<String, String>) -> Seq<(Seq<char>, Seq<char>)>;

/// The capacity an `lru::LruCache` was made with.
pub uninterp spec fn lru_capacity(cache: lru::LruCache<String, String>) -> nat;

/// Whether some entry has the key `k`.
pub open spec fn lru_has(entries: Seq<(Seq<char>, Seq<char>)>, k: Seq<char>) -> bool {
    exists|i: int| 0 <= i < entries.len() && #[trigger] entries[i].0 == k
}

/// The position of the entry with key `k` (meaningful when there is one).
pub open spec fn lru_pos(entries: Seq<(Seq<char>, Seq<char>)>, k: Seq<char>) -> int {
    choose|i: int| 0 <= i < entries.len() && #[trigger] entries[i].0 == k
}

/// Whether no two entries have the same key.
pub open spec fn lru_keys_distinct(entries: Seq<(Seq<char>, Seq<char>)>) -> bool {
    forall|i: int, j: int|
        0 <= i < entries.len() && 0 <= j < entries.len() && i != j ==> #[trigger] entries[i].0
            != #[trigger] entries[j].0
}

/// The entries after `put(k, v)`: the pair moves to the front; an entry of
/// the same key is replaced, else the least recently used entry is dropped
/// when the cache is full.
pub open spec fn lru_after_put(
    entries: Seq<(Seq<char>, Seq<char>)>,
    cap: nat,
    k: Seq<char>,
    v: Seq<char>,
) -> Seq<(Seq<char>, Seq<char>)> {
    if lru_has(entries, k) {
        seq![(k, v)] + entries.remove(lru_pos(entries, k))
    } else if entries.len() == cap {
        seq![(k, v)] + entries.drop_last()
    } else {
        seq![(k, v)] + entries
    }
}

/// The entries after a hit of `get(k)`: the entry moves to the front.
pub open spec fn lru_after_get(entries: Seq<(Seq<char>, Seq<char>)>, k: Seq<char>) -> Seq<
    (Seq<char>, Seq<char>),
> {
    if lru_has(entries, k) {
        seq![entries[lru_pos(entries, k)]] + entries.remove(lru_pos(entries, k))
    } else {
        entries
    }
}

/// Calls `LruCache::new` with the capacity as a `NonZeroUsize`: an empty
/// cache of that capacity.
#[verifier::external_body]
fn lru_new(cap: usize) -> (r: lru::LruCache<String, String>)
    requires
        cap > 0,
    ensures
        lru_entries(r) == Seq::<(Seq<char>, Seq<char>)>::empty(),
        lru_capacity(r) == cap,
{
    lru::LruCache::new(std::num::NonZeroUsize::new(cap).unwrap())
}

/// Calls `LruCache::put`: the pair becomes the most recently used entry; it
/// replaces the entry of the same key, whose value is returned, or else the
/// least recently used entry is dropped when the cache is full
/// (`capturing_put` and `replace_or_create_node` in the crate's source).
#[verifier::external_body]
fn lru_put(cache: &mut lru::LruCache<String, String>, k: String, v: String) -> (r: Option<String>)
    ensures
        lru_capacity(*final(cache)) == lru_capacity(*old(cache)),
        lru_entries(*final(cache)) == lru_after_put(
            lru_entries(*old(cache)),
            lru_capacity(*old(cache)),
            k@,
            v@,
        ),
        lru_has(lru_entries(*old(cache)), k@) ==> (r matches Some(old_v) && old_v@ == lru_entries(
            *old(cache),
        )[lru_pos(lru_entries(*old(cache)), k@)].1),
        !lru_has(lru_entries(*old(cache)), k@) ==> r is None,
{
    cache.put(k, v)
}

/// Calls `LruCache::get` and copies the value found: on a hit the entry
/// becomes the most recently used one.
#[verifier::external_body]
fn lru_get(cache: &mut lru::LruCache<String, String>, k: &str) -> (r: Option<String>)
    ensures
        lru_capacity(*final(cache)) == lru_capacity(*old(cache)),
        lru_entries(*final(cache)) == lru_after_get(lru_entries(*old(cache)), k@),
        lru_has(lru_entries(*old(cache)), k@) ==> (r matches Some(val) && val@ == lru_entries(
            *old(cache),
        )[lru_pos(lru_entries(*old(cache)), k@)].1),
        !lru_has(lru_entries(*old(cache)), k@) ==> r is None,
{
    cache.get(k).cloned()
}

/// Calls `LruCache::contains`: whether an entry has the key; the order of
/// the entries is not changed.
#[verifier::external_body]
fn lru_contains(cache: &lru::LruCache<String, String>, k: &str) -> (r: bool)
    ensures
        r == lru_has(lru_entries(*cache), k@),
{
    cache.contains(k)
}

/// Calls `LruCache::pop`: removes the entry of the key and returns its value.
#[verifier::external_body]
fn lru_pop(cache: &mut lru::LruCache<String, String>, k: &str) -> (r: Option<String>)
    ensures
        lru_capacity(*final(cache)) == lru_capacity(*old(cache)),
        lru_has(lru_entries(*old(cache)), k@) ==> lru_entries(*final(cache)) == lru_entries(
            *old(cache),
        ).remove(lru_pos(lru_entries(*old(cache)), k@)) && (r matches Some(val) && val@
            == lru_entries(*old(cache))[lru_pos(lru_entries(*old(cache)), k@)].1),
        !lru_has(lru_entries(*old(cache)), k@) ==> lru_entries(*final(cache)) == lru_entries(
            *old(cache),
        ) && r is None,
{
    cache.pop(k)
}

/// Number of patches held in the in-memory buffer.
pub const BUFFER_CAPACITY: usize = 50;

/// The key under which a patch is buffered: `<list>:<message_id>`.
pub open spec fn buffer_key(list: Seq<char>, message_id: Seq<char>) -> Seq<char> {
    list + ":"@ + message_id
}

/// What a request for a patch that the buffer did not hold does once the
/// patch file was read.
#[derive(Debug)]
pub enum PatchStep {
    /// The request is answered
    Done(Result<String, CacheError>),
    /// The patch is to be fetched from the archive
    FetchArchive,
}

/// Internal state for the Patch Actor.
pub struct PatchData {
    /// Small in-memory buffer for fast access to recently used patches
    buffer: lru::LruCache<String, String>,
    /// Directory for cache files
    cache_dir: String,
}

proof fn lemma_distinct_remove(e: Seq<(Seq<char>, Seq<char>)>, i: int)
    requires
        lru_keys_distinct(e),
        0 <= i < e.len(),
    ensures
        lru_keys_distinct(e.remove(i)),
        forall|j: int| 0 <= j < e.remove(i).len() ==> #[trigger] e.remove(i)[j].0 != e[i].0,
{
    let r = e.remove(i);
    assert forall|a: int, b: int| 0 <= a < r.len() && 0 <= b < r.len() && a != b implies #[trigger] r[a].0 != #[trigger] r[b].0 by {
        let a0 = if a < i { a } else { a + 1 };
        let b0 = if b < i { b } else { b + 1 };
        assert(r[a] == e[a0] && r[b] == e[b0]);
    }
    assert forall|j: int| 0 <= j < r.len() implies #[trigger] r[j].0 != e[i].0 by {
        let j0 = if j < i { j } else { j + 1 };
        assert(r[j] == e[j0]);
    }
}

proof fn lemma_distinct_front(e: Seq<(Seq<char>, Seq<char>)>, x: (Seq<char>, Seq<char>))
    requires
        lru_keys_distinct(e),
        forall|j: int| 0 <= j < e.len() ==> #[trigger] e[j].0 != x.0,
    ensures
        lru_keys_distinct(seq![x] + e),
{
    let r = seq![x] + e;
    assert forall|a: int, b: int| 0 <= a < r.len() && 0 <= b < r.len() && a != b implies #[trigger] r[a].0 != #[trigger] r[b].0 by {
        if a == 0 {
            assert(r[b] == e[b - 1]);
        } else if b == 0 {
            assert(r[a] == e[a - 1]);
        } else {
            assert(r[a] == e[a - 1] && r[b] == e[b - 1]);
        }
    }
}

proof fn lemma_put_keeps_wf(e: Seq<(Seq<char>, Seq<char>)>, cap: nat, k: Seq<char>, v: Seq<char>)
    requires
        lru_keys_distinct(e),
        e.len() <= cap,
        cap > 0,
    ensures
        lru_keys_distinct(lru_after_put(e, cap, k, v)),
        lru_after_put(e, cap, k, v).len() <= cap,
        lru_after_put(e, cap, k, v)[0] == (k, v),
{
    if lru_has(e, k) {
        let i = lru_pos(e, k);
        lemma_distinct_remove(e, i);
        lemma_distinct_front(e.remove(i), (k, v));
    } else if e.len() == cap {
        let d = e.drop_last();
        assert(lru_keys_distinct(d)) by {
            assert forall|a: int, b: int| 0 <= a < d.len() && 0 <= b < d.len() && a != b implies #[trigger] d[a].0 != #[trigger] d[b].0 by {
                assert(d[a] == e[a] && d[b] == e[b]);
            }
        }
        assert forall|j: int| 0 <= j < d.len() implies #[trigger] d[j].0 != k by {
            assert(d[j] == e[j]);
        }
        lemma_distinct_front(d, (k, v));
    } else {
        lemma_distinct_front(e, (k, v));
    }
}

proof fn lemma_get_keeps_wf(e: Seq<(Seq<char>, Seq<char>)>, k: Seq<char>)
    requires
        lru_keys_distinct(e),
    ensures
        lru_keys_distinct(lru_after_get(e, k)),
        lru_after_get(e, k).len() == e.len(),
{
    if lru_has(e, k) {
        let i = lru_pos(e, k);
        lemma_distinct_remove(e, i);
        lemma_distinct_front(e.remove(i), e[i]);
    }
}

proof fn lemma_front_is_found(e: Seq<(Seq<char>, Seq<char>)>, k: Seq<char>)
    requires
        lru_keys_distinct(e),
        e.len() > 0,
        e[0].0 == k,
    ensures
        lru_has(e, k),
        lru_pos(e, k) == 0,
{
    assert(e[0].0 == k);
    assert(lru_has(e, k));
    let i = lru_pos(e, k);
    if i != 0 {
        assert(e[i].0 != e[0].0);
    }
}

impl PatchData {
    /// The directory of the patch cache in the cache directory: `patch`.
    pub fn dir_in(cache_dir: &str) -> (r: String)
        ensures
            r@ == path_join(cache_dir@, "patch"@),
    {
        join_path(cache_dir, "patch")
    }

    /// The buffered entries, the most recently used first.
    pub closed spec fn entries(&self) -> Seq<(Seq<char>, Seq<char>)> {
        lru_entries(self.buffer)
    }

    /// The directory of the patch files.
    pub closed spec fn dir(&self) -> Seq<char> {
        self.cache_dir@
    }

    /// The buffer holds at most [`BUFFER_CAPACITY`] entries of distinct keys.
    pub closed spec fn wf(&self) -> bool {
        &&& lru_capacity(self.buffer) == BUFFER_CAPACITY
        &&& lru_entries(self.buffer).len() <= BUFFER_CAPACITY
        &&& lru_keys_distinct(lru_entries(self.buffer))
    }

    /// Creates a cache under `cache_dir` with an empty buffer of
    /// [`BUFFER_CAPACITY`] patches.
    pub fn new(cache_dir: String) -> (r: PatchData)
        ensures
            r.wf(),
            r.entries() == Seq::<(Seq<char>, Seq<char>)>::empty(),
            r.dir() == cache_dir@,
    {
        PatchData { buffer: lru_new(BUFFER_CAPACITY), cache_dir }
    }

    /// Gets the cache file path for a specific patch:
    /// `<list>/<message_id>.mbox` in the cache directory.
    pub fn get_cache_path(&self, list: &str, message_id: &str) -> (r: String)
        ensures
            r@ == path_join(path_join(self.dir(), list@), message_id@ + ".mbox"@),
    {
        let dir = join_path(self.cache_dir.as_str(), list);
        let mut name = String::from_str(message_id);
        name.append(".mbox");
        join_path(dir.as_str(), name.as_str())
    }

    /// Gets the buffer key for a patch.
    pub fn get_buffer_key(&self, list: &str, message_id: &str) -> (r: String)
        ensures
            r@ == buffer_key(list@, message_id@),
    {
        proof {
            reveal_strlit(":");
        }
        concat3(list, ":", message_id)
    }

    /// Adds a patch to the buffer as its most recently used entry.
    pub fn add_to_buffer(&mut self, list: &str, message_id: &str, content: String)
        requires
            old(self).wf(),
        ensures
            final(self).wf(),
            final(self).dir() == old(self).dir(),
            final(self).entries() == lru_after_put(
                old(self).entries(),
                BUFFER_CAPACITY as nat,
                buffer_key(list@, message_id@),
                content@,
            ),
            final(self).entries()[0] == (buffer_key(list@, message_id@), content@),
            lru_has(final(self).entries(), buffer_key(list@, message_id@)),
            lru_pos(final(self).entries(), buffer_key(list@, message_id@)) == 0,
    {
        let key = self.get_buffer_key(list, message_id);
        proof {
            lemma_put_keeps_wf(self.entries(), BUFFER_CAPACITY as nat, key@, content@);
            lemma_front_is_found(
                lru_after_put(self.entries(), BUFFER_CAPACITY as nat, key@, content@),
                key@,
            );
        }
        let _ = lru_put(&mut self.buffer, key, content);
    }

    /// Gets a patch from the buffer; a hit makes it the most recently used entry.
    pub fn get_from_buffer(&mut self, list: &str, message_id: &str) -> (r: Option<String>)
        requires
            old(self).wf(),
        ensures
            final(self).wf(),
            final(self).dir() == old(self).dir(),
            final(self).entries() == lru_after_get(old(self).entries(), buffer_key(list@, message_id@)),
            lru_has(old(self).entries(), buffer_key(list@, message_id@)) ==> (r matches Some(c)
                && c@ == old(self).entries()[lru_pos(
                old(self).entries(),
                buffer_key(list@, message_id@),
            )].1),
            !lru_has(old(self).entries(), buffer_key(list@, message_id@)) ==> r is None,
    {
        let key = self.get_buffer_key(list, message_id);
        proof {
            lemma_get_keeps_wf(self.entries(), key@);
        }
        lru_get(&mut self.buffer, key.as_str())
    }

    /// Checks if a patch is in the buffer.
    pub fn is_in_buffer(&self, list: &str, message_id: &str) -> (r: bool)
        ensures
            r == lru_has(self.entries(), buffer_key(list@, message_id@)),
    {
        let key = self.get_buffer_key(list, message_id);
        lru_contains(&self.buffer, key.as_str())
    }

    /// Removes a patch from the buffer.
    pub fn remove_from_buffer(&mut self, list: &str, message_id: &str)
        requires
            old(self).wf(),
        ensures
            final(self).wf(),
            final(self).dir() == old(self).dir(),
            !lru_has(final(self).entries(), buffer_key(list@, message_id@)),
            lru_has(old(self).entries(), buffer_key(list@, message_id@)) ==> final(self).entries()
                == old(self).entries().remove(
                lru_pos(old(self).entries(), buffer_key(list@, message_id@)),
            ),
            !lru_has(old(self).entries(), buffer_key(list@, message_id@)) ==> final(self).entries()
                == old(self).entries(),
    {
        let key = self.get_buffer_key(list, message_id);
        proof {
            if lru_has(self.entries(), key@) {
                lemma_distinct_remove(self.entries(), lru_pos(self.entries(), key@));
            }
        }
        let _ = lru_pop(&mut self.buffer, key.as_str());
        proof {
            if lru_has(self.entries(), key@) {
                let e = old(self).entries();
                let i = lru_pos(e, key@);
                let j = lru_pos(self.entries(), key@);
                assert(self.entries()[j].0 != e[i].0);
            }
        }
    }

    /// A well-formed buffer holds at most [`BUFFER_CAPACITY`] entries, no two
    /// of them under the same key.
    pub proof fn lemma_wf_entries(&self)
        requires
            self.wf(),
        ensures
            lru_keys_distinct(self.entries()),
            self.entries().len() <= BUFFER_CAPACITY,
    {
    }

    /// Whether a patch can be served: the patch is always reported available,
    /// since a patch not held in the buffer is taken to be on disk.
    pub fn is_available(&self, list: &str, message_id: &str) -> (r: bool)
        ensures
            r,
    {
        true
    }

    /// Takes in the result of reading the file of a patch that the buffer
    /// did not hold: a file that was read gives the patch, which is then
    /// buffered; a fatal filesystem error ends the request with that error;
    /// any other failure means the patch is not on disk, so it is to be
    /// fetched from the archive.
    pub fn take_disk_read(
        &mut self,
        list: &str,
        message_id: &str,
        read: Result<String, FsError>,
    ) -> (r: PatchStep)
        requires
            old(self).wf(),
        ensures
            final(self).wf(),
            final(self).dir() == old(self).dir(),
            match read {
                Ok(content) => {
                    &&& r == PatchStep::Done(Ok(content))
                    &&& final(self).entries() == lru_after_put(
                        old(self).entries(),
                        BUFFER_CAPACITY as nat,
                        buffer_key(list@, message_id@),
                        content@,
                    )
                },
                Err(FsError::Fatal(f)) => r == PatchStep::Done(Err(CacheError::Fatal(f)))
                    && final(self).entries() == old(self).entries(),
                Err(FsError::OperationFailed { .. }) => r is FetchArchive && final(self).entries()
                    == old(self).entries(),
            },
    {
        match read {
            Ok(content) => {
                self.add_to_buffer(list, message_id, content.clone());
                PatchStep::Done(Ok(content))
            },
            Err(FsError::Fatal(f)) => PatchStep::Done(Err(CacheError::Fatal(f))),
            Err(FsError::OperationFailed { .. }) => PatchStep::FetchArchive,
        }
    }

    /// Takes in the result of fetching a patch from the archive (after it
    /// was saved to disk, whose failure does not change the answer): a
    /// fetched patch is buffered and is the answer; an archive error becomes
    /// the cache error for it and the buffer stays as it was.
    pub fn take_archive_fetch(
        &mut self,
        list: &str,
        message_id: &str,
        fetched: Result<String, LoreApiError>,
    ) -> (r: Result<String, CacheError>)
        requires
            old(self).wf(),
        ensures
            final(self).wf(),
            final(self).dir() == old(self).dir(),
            match fetched {
                Ok(content) => {
                    &&& r == Ok::<String, CacheError>(content)
                    &&& final(self).entries() == lru_after_put(
                        old(self).entries(),
                        BUFFER_CAPACITY as nat,
                        buffer_key(list@, message_id@),
                        content@,
                    )
                },
                Err(e) => (r matches Err(c) && lore_cache_error(e, c)) && final(self).entries()
                    == old(self).entries(),
            },
    {
        match fetched {
            Ok(content) => {
                self.add_to_buffer(list, message_id, content.clone());
                Ok(content)
            },
            Err(e) => Err(CacheError::from_lore(e)),
        }
    }
}

/// Law: a patch read right after it was added to the buffer is the content
/// that was added, and the buffer never holds more than its capacity.
pub proof fn law_read_after_add(
    entries: Seq<(Seq<char>, Seq<char>)>,
    key: Seq<char>,
    content: Seq<char>,
)
    requires
        lru_keys_distinct(entries),
        entries.len() <= BUFFER_CAPACITY,
    ensures
        ({
            let after = lru_after_put(entries, BUFFER_CAPACITY as nat, key, content);
            &&& lru_has(after, key)
            &&& after[lru_pos(after, key)].1 == content
            &&& after.len() <= BUFFER_CAPACITY
            &&& lru_after_get(after, key) == after
        }),
{
    let after = lru_after_put(entries, BUFFER_CAPACITY as nat, key, content);
    lemma_put_keeps_wf(entries, BUFFER_CAPACITY as nat, key, content);
    lemma_front_is_found(after, key);
    assert(seq![after[0]] + after.remove(0) =~= after);
}

} // verus!
