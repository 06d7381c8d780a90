//! Single-initialization cache around one optional byte buffer: the fetch
//! runs at most once per instance, and the cached outcome — present bytes or
//! the permanent "absent" sentinel — never changes afterwards.

use crate::buffer::{read_count, read_result, seek_target, AccessError, RandomAccessBuffer,
    SeekFrom};
use crate::remote::fetch_bytes;
use vstd::prelude::*;

verus! {

/// The cache's lifecycle: not yet fetched, fetched and failed (absent,
/// cached forever, never retried), or fetched with the materialized bytes.
pub enum MaterializedState {
    Unfetched,
    Absent,
    Present(RandomAccessBuffer),
}

/// The single-initialization cache. `fetches` counts, in ghost state, how
/// often the underlying store read has run for this instance; the
/// well-formedness invariant pins it to at most one.
pub struct LazyMaterializer {
    state: MaterializedState,
    fetches: Ghost<nat>,
}

impl LazyMaterializer {
    /// Whether the one fetch for this instance has already run.
    pub closed spec fn is_fetched(self) -> bool {
        !(self.state is Unfetched)
    }

    /// The cached content: `Some` bytes after a successful fetch, `None`
    /// before any fetch and after a failed one.
    pub closed spec fn cached(self) -> Option<Seq<u8>> {
        match self.state {
            MaterializedState::Unfetched => None,
            MaterializedState::Absent => None,
            MaterializedState::Present(b) => Some(b.content()),
        }
    }

    /// The cursor position within the materialized bytes; zero while none
    /// are cached.
    pub closed spec fn position(self) -> u64 {
        match self.state {
            MaterializedState::Present(b) => b.position(),
            _ => 0,
        }
    }

    /// How often the underlying store read has run for this instance.
    pub closed spec fn fetch_count(self) -> nat {
        self.fetches@
    }

    /// The invariant every operation preserves: the fetch has run exactly
    /// once if the cache is initialized and never otherwise.
    pub closed spec fn wf(self) -> bool {
        self.fetch_count() == if self.is_fetched() {
            1nat
        } else {
            0nat
        }
    }

    /// An empty cache: nothing fetched, nothing cached.
    pub fn new() -> (r: Self)
        ensures
            r.wf(),
            !r.is_fetched(),
            r.cached() is None,
            r.position() == 0,
            r.fetch_count() == 0,
    {
        LazyMaterializer { state: MaterializedState::Unfetched, fetches: Ghost(0) }
    }

    /// Runs the fetch if and only if it has never run, caching whatever came
    /// back — bytes with the cursor at the start, or the absent sentinel. An
    /// already-initialized cache is left exactly as it was: no retry, no
    /// invalidation.
    pub fn get_or_init(&mut self, operator: &opendal::Operator, path: &str)
        requires
            old(self).wf(),
        ensures
            final(self).wf(),
            final(self).is_fetched(),
            final(self).fetch_count() == if old(self).is_fetched() {
                old(self).fetch_count()
            } else {
                old(self).fetch_count() + 1
            },
            old(self).is_fetched() ==> *final(self) == *old(self),
            !old(self).is_fetched() ==> final(self).position() == 0,
    {
        let already = match &self.state {
            MaterializedState::Unfetched => false,
            _ => true,
        };
        if !already {
            self.fetches = Ghost(self.fetches@ + 1);
            match fetch_bytes(operator, path) {
                Some(data) => {
                    self.state = MaterializedState::Present(RandomAccessBuffer::new(data));
                },
                None => {
                    self.state = MaterializedState::Absent;
                },
            }
        }
    }

    /// An immutable view of the whole cached content, or `None` while the
    /// cache is uninitialized or holds the absent sentinel.
    pub fn view_bytes(&self) -> (r: Option<&[u8]>)
        ensures
            match r {
                Some(s) => self.cached() == Some(s@),
                None => self.cached() is None,
            },
    {
        match &self.state {
            MaterializedState::Present(b) => Some(b.as_bytes()),
            _ => None,
        }
    }

    /// Sequential read from the cursor within the cached content; fails when
    /// no content is cached, leaving the cache untouched.
    pub fn read_cursor(&mut self, count: usize) -> (r: Result<Vec<u8>, AccessError>)
        ensures
            old(self).wf() ==> final(self).wf(),
            final(self).is_fetched() == old(self).is_fetched(),
            final(self).fetch_count() == old(self).fetch_count(),
            final(self).cached() == old(self).cached(),
            match old(self).cached() {
                Some(c) => match r {
                    Ok(bytes) => {
                        &&& bytes@ == read_result(c, old(self).position() as nat, count as nat)
                        &&& bytes@.len() == read_count(c, old(self).position() as nat,
                            count as nat)
                        &&& final(self).position() == old(self).position() + bytes@.len()
                    },
                    Err(_) => false,
                },
                None => r == Err::<Vec<u8>, AccessError>(AccessError::SourceUnavailable)
                    && *final(self) == *old(self),
            },
    {
        match &mut self.state {
            MaterializedState::Present(b) => Ok(b.read(count)),
            _ => Err(AccessError::SourceUnavailable),
        }
    }

    /// Seek within the cached content; fails when no content is cached or
    /// the target position is invalid, leaving the cache untouched.
    pub fn seek_cursor(&mut self, from: SeekFrom) -> (r: Result<u64, AccessError>)
        ensures
            old(self).wf() ==> final(self).wf(),
            final(self).is_fetched() == old(self).is_fetched(),
            final(self).fetch_count() == old(self).fetch_count(),
            final(self).cached() == old(self).cached(),
            match old(self).cached() {
                Some(c) => match seek_target(c.len(), old(self).position(), from) {
                    Some(target) => {
                        &&& r == Ok::<u64, AccessError>(target as u64)
                        &&& final(self).position() == target
                    },
                    None => {
                        &&& r == Err::<u64, AccessError>(AccessError::InvalidSeek)
                        &&& final(self).position() == old(self).position()
                    },
                },
                None => r == Err::<u64, AccessError>(AccessError::SourceUnavailable)
                    && *final(self) == *old(self),
            },
    {
        match &mut self.state {
            MaterializedState::Present(b) => b.seek(from),
            _ => Err(AccessError::SourceUnavailable),
        }
    }
}

/// The single-flight law: for every well-formed materializer the underlying
/// fetch has run at most once, and exactly once from the moment the cache is
/// initialized — however many accesses triggered it.
pub proof fn law_fetch_at_most_once(m: LazyMaterializer)
    requires
        m.wf(),
    ensures
        m.fetch_count() <= 1,
        m.is_fetched() <==> m.fetch_count() == 1,
{
}

} // verus!
