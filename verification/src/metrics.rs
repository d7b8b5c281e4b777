use vstd::prelude::*;
use vstd::rwlock::{ReadHandle, RwLock, RwLockPredicate};

verus! {

/// Cached font metrics that we can keep attached to a `Text`
/// so we don't have to keep recalculating them.
#[derive(Debug)]
pub struct CachedMetrics {
    pub string: Option<String>,
    pub width: Option<u32>,
    pub height: Option<u32>,
}

impl Default for CachedMetrics {
    fn default() -> (r: CachedMetrics)
        ensures
            r == (CachedMetrics { string: None, width: None, height: None }),
    {
        CachedMetrics { string: None, width: None, height: None }
    }
}

/// What holds of every state of a cache: a string that it keeps is `contents`, and no size is
/// kept.
pub struct KeepsContents {
    pub contents: Ghost<Seq<char>>,
}

impl RwLockPredicate<CachedMetrics> for KeepsContents {
    open spec fn inv(self, metrics: CachedMetrics) -> bool {
        &&& metrics.string matches Some(string) ==> string@ == self.contents@
        &&& metrics.width is None
        &&& metrics.height is None
    }
}

/// A cache that is filled through a shared reference, behind a lock.
pub struct MetricsCache {
    lock: RwLock<CachedMetrics, KeepsContents>,
}

impl MetricsCache {
    /// The characters of the string that this cache is for.
    pub closed spec fn contents(self) -> Seq<char> {
        self.lock.pred().contents@
    }

    /// An empty cache for a string of the given characters.
    pub(crate) fn new(Ghost(contents): Ghost<Seq<char>>) -> (r: MetricsCache)
        ensures
            r.contents() == contents,
    {
        MetricsCache {
            lock: RwLock::new(
                CachedMetrics::default(),
                Ghost(KeepsContents { contents: Ghost(contents) }),
            ),
        }
    }

    /// Gives up the cache, and with it what it keeps, which the lock would not free.
    pub(crate) fn into_metrics(self) -> (r: CachedMetrics)
        ensures
            r.string matches Some(string) ==> string@ == self.contents(),
            r.width is None,
            r.height is None,
    {
        self.lock.into_inner()
    }

    /// Whether `metrics` is a state of this cache, held for reading.
    pub closed spec fn reads(self, metrics: ReadHandle<'_, CachedMetrics, KeepsContents>) -> bool {
        metrics.rwlock() == self.lock && self.lock.inv(metrics@)
    }

    /// Holds the cache for reading. What it keeps does not change until it is released.
    pub(crate) fn read(&self) -> (r: ReadHandle<'_, CachedMetrics, KeepsContents>)
        ensures
            self.reads(r),
    {
        self.lock.acquire_read()
    }

    /// The string, where the cache keeps it in the state that is held.
    pub(crate) fn string(&self, metrics: &ReadHandle<'_, CachedMetrics, KeepsContents>) -> (r:
        Option<String>)
        requires
            self.reads(*metrics),
        ensures
            r == metrics@.string,
            r matches Some(string) ==> string@ == self.contents(),
    {
        match &metrics.borrow().string {
            Some(string) => Some(string.clone()),
            None => None,
        }
    }

    /// Stores the string and keeps the other metrics.
    pub(crate) fn set_string(&self, string: String)
        requires
            string@ == self.contents(),
    {
        let (metrics, handle) = self.lock.acquire_write();
        handle.release_write(CachedMetrics { string: Some(string), ..metrics });
    }
}

} // verus!
