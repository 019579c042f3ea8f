//! The page-size cache model: a process-wide value computed on first access
//! and immutable afterwards, so the page-size lookup happens exactly once.
//!
//! The runtime shell guards the real cache with an exactly-once initializer
//! for concurrent first use; this module verifies the logic of that pattern —
//! the first value installed wins and every later access observes it.
use vstd::prelude::*;

verus! {

/// A lazily initialized, write-once cache for the system page size.
pub struct PageSizeCache {
    /// The cached value; `None` until the first access installs one.
    pub value: Option<u64>,
}

impl PageSizeCache {
    /// An empty cache: no lookup has happened yet.
    pub fn new() -> (r: Self)
        ensures
            r.value is None,
    {
        PageSizeCache { value: None }
    }

    /// Returns the cached page size, installing `fresh` only if the cache is
    /// still empty: an already-initialized cache is never changed, so the
    /// freshly looked-up value matters only to the first caller.
    pub fn get_or_init(&mut self, fresh: u64) -> (r: u64)
        ensures
            final(self).value == Some(r),
            match old(self).value {
                Some(v) => r == v && *final(self) == *old(self),
                None => r == fresh,
            },
    {
        match self.value {
            Some(v) => v,
            None => {
                self.value = Some(fresh);
                fresh
            },
        }
    }
}

/// The cache contents after a run of accesses that would install the given
/// fresh values in order.
pub open spec fn cache_after_run(fresh: Seq<u64>) -> Option<u64>
    decreases fresh.len(),
{
    if fresh.len() == 0 {
        None
    } else {
        let before = cache_after_run(fresh.drop_last());
        if before is Some {
            before
        } else {
            Some(fresh.last())
        }
    }
}

/// First caller wins: however many accesses run in sequence, each with its
/// own freshly looked-up value, the cache holds the first value offered and
/// never changes again.
pub proof fn lemma_first_caller_wins(fresh: Seq<u64>)
    requires
        fresh.len() > 0,
    ensures
        cache_after_run(fresh) == Some(fresh[0]),
    decreases fresh.len(),
{
    let dl = fresh.drop_last();
    if fresh.len() == 1 {
        assert(dl.len() == 0);
        assert(cache_after_run(dl) is None);
        assert(fresh.last() == fresh[0]);
    } else {
        lemma_first_caller_wins(dl);
        assert(dl[0] == fresh[0]);
    }
}

} // verus!
