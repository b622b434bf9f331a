use vstd::prelude::*;

use crate::engine::{self, GraphHandle};
use crate::errors::AppError;

verus! {

/// The single slot of the cache: the storage location whose graph is
/// currently loaded, and the shared handle to that graph.
pub struct CacheEntry {
    location: String,
    handle: GraphHandle,
}

/// The mathematical value of a [`CorpusCache`]: the cached location with
/// the handle stored for it, and the ghost counter that names the next
/// load. Every id a load has ever issued is below `next_id`, so a fresh
/// load is distinguishable from every handle issued before.
pub struct CacheV {
    pub entry: Option<(Seq<char>, GraphHandle)>,
    pub next_id: int,
}

/// Well-formedness: the stored handle was issued by an earlier load.
pub open spec fn cache_wf(c: CacheV) -> bool {
    c.entry matches Some(e) ==> e.1.id@ < c.next_id
}

/// Holds at most one loaded graph, keyed by storage location: a hit
/// returns the identical shared instance without touching the disk; a
/// different location evicts the old entry (disposing of the old graph on
/// a background thread) and loads fresh from disk.
pub struct CorpusCache {
    entry: Option<CacheEntry>,
    next_id: Ghost<int>,
}

impl View for CorpusCache {
    type V = CacheV;

    closed spec fn view(&self) -> CacheV {
        CacheV {
            entry: match self.entry {
                Some(e) => Some((e.location@, e.handle)),
                None => None,
            },
            next_id: self.next_id@,
        }
    }
}

/// Relies on `rayon::spawn`: moves the evicted entry onto a thread-pool
/// thread, where it is dropped, so the caller is not blocked by the
/// teardown cost of a large graph. The closure only takes ownership.
#[verifier::external_body]
fn dispose_in_background(e: CacheEntry) {
    rayon::spawn(move || {
        let _evicted = e;
    });
}

impl CorpusCache {
    /// An empty cache.
    pub fn new() -> (r: Self)
        ensures
            cache_wf(r@),
            r@.entry is None,
            r@.next_id == 0,
    {
        CorpusCache { entry: None, next_id: Ghost(0) }
    }

    /// The cached graph for this location. If the cached entry's location
    /// equals `location`, the identical shared instance is returned and
    /// nothing is loaded; otherwise the old entry is evicted first and the
    /// graph is loaded fresh from disk. After a failed load the slot is
    /// empty: a caller never sees a stale graph under a fresh location.
    pub fn get(&mut self, location: &String) -> (r: Result<GraphHandle, AppError>)
        requires
            cache_wf(old(self)@),
        ensures
            cache_wf(final(self)@),
            (match old(self)@.entry {
                Some(e) => e.0 == location@ ==> (final(self)@ == old(self)@ && (r matches Ok(h)
                    && h == e.1)),
                None => true,
            }),
            (match old(self)@.entry {
                Some(e) => e.0 != location@,
                None => true,
            }) ==> (match r {
                Ok(h) => {
                    &&& h.id@ == old(self)@.next_id
                    &&& final(self)@.entry == Some((location@, h))
                    &&& final(self)@.next_id == old(self)@.next_id + 1
                },
                Err(_) => final(self)@.entry is None && final(self)@.next_id == old(
                    self,
                )@.next_id,
            }),
    {
        let mut is_hit = false;
        if let Some(e) = &self.entry {
            if e.location == *location {
                is_hit = true;
            }
        }
        if is_hit {
            if let Some(e) = &self.entry {
                return Ok(e.handle.share());
            }
        }
        // Evict the old entry before loading; dropping a large graph can
        // be slow, so it happens on a separate disposal thread.
        let mut taken: Option<CacheEntry> = None;
        core::mem::swap(&mut taken, &mut self.entry);
        if let Some(e) = taken {
            dispose_in_background(e);
        }
        self.load_from_disk(location)
    }

    /// Unconditionally deserializes the graph stored at `location`,
    /// installs it as the sole cache entry and returns its handle. Undo
    /// and redo use this directly: they must reload the persisted
    /// baseline, bypassing the hit path. A failed load leaves the cache as
    /// it was.
    pub fn load_from_disk(&mut self, location: &String) -> (r: Result<GraphHandle, AppError>)
        requires
            cache_wf(old(self)@),
        ensures
            cache_wf(final(self)@),
            match r {
                Ok(h) => {
                    &&& h.id@ == old(self)@.next_id
                    &&& final(self)@.entry == Some((location@, h))
                    &&& final(self)@.next_id == old(self)@.next_id + 1
                },
                Err(_) => final(self)@ == old(self)@,
            },
    {
        let loaded = engine::load_graph(location.as_str());
        match loaded {
            Ok(g) => {
                let handle = GraphHandle { graph: g, id: Ghost(self.next_id@) };
                let shared = handle.share();
                self.entry = Some(CacheEntry { location: location.clone(), handle });
                proof {
                    self.next_id@ = self.next_id@ + 1;
                }
                Ok(shared)
            },
            Err(e) => Err(e),
        }
    }

    /// Drops the entry for this location, if it is the one cached; a later
    /// `get` for the location must then load fresh from disk (or fail
    /// cleanly), never hand out the old graph again.
    pub fn evict(&mut self, location: &String)
        requires
            cache_wf(old(self)@),
        ensures
            cache_wf(final(self)@),
            final(self)@.next_id == old(self)@.next_id,
            (match old(self)@.entry {
                Some(e) => e.0 == location@ ==> final(self)@.entry is None,
                None => true,
            }),
            (match old(self)@.entry {
                Some(e) => e.0 != location@,
                None => true,
            }) ==> final(self)@ == old(self)@,
    {
        let mut is_hit = false;
        if let Some(e) = &self.entry {
            if e.location == *location {
                is_hit = true;
            }
        }
        if is_hit {
            let mut taken: Option<CacheEntry> = None;
            core::mem::swap(&mut taken, &mut self.entry);
            if let Some(e) = taken {
                dispose_in_background(e);
            }
        }
    }
}

} // verus!
