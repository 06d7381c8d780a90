//! The adapter: a source key, a remote store client, and the
//! single-initialization cache, exposing whole-buffer view, sequential read
//! and seek to downstream decoders. The first of those accesses triggers the
//! one fetch.

use crate::buffer::{read_count, read_result, seek_target, AccessError, SeekFrom};
use crate::materializer::{law_fetch_at_most_once, LazyMaterializer};
use vstd::prelude::*;

verus! {

/// A lazily materialized, randomly addressable view of the object stored
/// under `path` in the store `operator` points at.
pub struct OpendalReader {
    operator: opendal::Operator,
    path: String,
    bytes: LazyMaterializer,
}

impl OpendalReader {
    /// The source key the adapter was constructed with.
    pub closed spec fn path_spec(self) -> Seq<char> {
        self.path@
    }

    /// Whether the one fetch for this adapter has already run.
    pub closed spec fn is_fetched(self) -> bool {
        self.bytes.is_fetched()
    }

    /// The cached content: `Some` bytes after a successful fetch, `None`
    /// before any fetch and after a failed one.
    pub closed spec fn cached(self) -> Option<Seq<u8>> {
        self.bytes.cached()
    }

    /// The cursor position within the cached content.
    pub closed spec fn position(self) -> u64 {
        self.bytes.position()
    }

    /// How often the underlying store read has run for this adapter.
    pub closed spec fn fetch_count(self) -> nat {
        self.bytes.fetch_count()
    }

    /// The adapter invariant: the fetch has run exactly once if the cache is
    /// initialized and never otherwise.
    pub closed spec fn wf(self) -> bool {
        self.bytes.wf()
    }

    /// A fresh adapter over `path`: nothing fetched, nothing cached.
    pub fn new(operator: opendal::Operator, path: String) -> (r: Self)
        ensures
            r.wf(),
            !r.is_fetched(),
            r.cached() is None,
            r.position() == 0,
            r.fetch_count() == 0,
            r.path_spec() == path@,
    {
        OpendalReader { operator, path, bytes: LazyMaterializer::new() }
    }

    /// Triggers the one fetch if it has never run; afterwards the cache is
    /// initialized, with the cursor at the start. An already-initialized
    /// cache is left exactly as it was: no retry, no invalidation.
    pub fn get_bytes(&mut self)
        requires
            old(self).wf(),
        ensures
            final(self).wf(),
            final(self).is_fetched(),
            final(self).path_spec() == old(self).path_spec(),
            final(self).fetch_count() == if old(self).is_fetched() {
                old(self).fetch_count()
            } else {
                old(self).fetch_count() + 1
            },
            old(self).is_fetched() ==> final(self).cached() == old(self).cached()
                && final(self).position() == old(self).position(),
            !old(self).is_fetched() ==> final(self).position() == 0,
    {
        self.bytes.get_or_init(&self.operator, self.path.as_str());
    }

    /// An immutable view of the whole materialized content, triggering the
    /// one fetch on first access; `None` exactly when the content is absent
    /// (the fetch failed). Never copies and never re-fetches.
    pub fn to_bytes(&mut self) -> (r: Option<&[u8]>)
        requires
            old(self).wf(),
        ensures
            final(self).wf(),
            final(self).is_fetched(),
            final(self).path_spec() == old(self).path_spec(),
            final(self).fetch_count() == if old(self).is_fetched() {
                old(self).fetch_count()
            } else {
                old(self).fetch_count() + 1
            },
            old(self).is_fetched() ==> final(self).cached() == old(self).cached()
                && final(self).position() == old(self).position(),
            match r {
                Some(s) => final(self).cached() == Some(s@),
                None => final(self).cached() is None,
            },
    {
        self.get_bytes();
        self.bytes.view_bytes()
    }

    /// Copies up to `count` bytes from the cursor out of the materialized
    /// content, advancing the cursor by the number of bytes copied; an empty
    /// vector signals end-of-data. Triggers the one fetch on first access and
    /// fails exactly when the content is absent.
    pub fn read(&mut self, count: usize) -> (r: Result<Vec<u8>, AccessError>)
        requires
            old(self).wf(),
        ensures
            final(self).wf(),
            final(self).is_fetched(),
            final(self).path_spec() == old(self).path_spec(),
            final(self).fetch_count() == if old(self).is_fetched() {
                old(self).fetch_count()
            } else {
                old(self).fetch_count() + 1
            },
            old(self).is_fetched() ==> final(self).cached() == old(self).cached(),
            ({
                let start = if old(self).is_fetched() {
                    old(self).position()
                } else {
                    0u64
                };
                match final(self).cached() {
                    Some(c) => match r {
                        Ok(bytes) => {
                            &&& bytes@ == read_result(c, start as nat, count as nat)
                            &&& bytes@.len() == read_count(c, start as nat, count as nat)
                            &&& final(self).position() == start + bytes@.len()
                        },
                        Err(_) => false,
                    },
                    None => r == Err::<Vec<u8>, AccessError>(AccessError::SourceUnavailable)
                        && final(self).position() == start,
                }
            }),
    {
        self.get_bytes();
        self.bytes.read_cursor(count)
    }

    /// Moves the cursor to the position `from` resolves to against the
    /// materialized content, returning the new position; seeking past the
    /// end is permitted. Triggers the one fetch on first access; fails when
    /// the content is absent or the target position is invalid.
    pub fn seek(&mut self, from: SeekFrom) -> (r: Result<u64, AccessError>)
        requires
            old(self).wf(),
        ensures
            final(self).wf(),
            final(self).is_fetched(),
            final(self).path_spec() == old(self).path_spec(),
            final(self).fetch_count() == if old(self).is_fetched() {
                old(self).fetch_count()
            } else {
                old(self).fetch_count() + 1
            },
            old(self).is_fetched() ==> final(self).cached() == old(self).cached(),
            ({
                let start = if old(self).is_fetched() {
                    old(self).position()
                } else {
                    0u64
                };
                match final(self).cached() {
                    Some(c) => match seek_target(c.len(), start, from) {
                        Some(target) => r == Ok::<u64, AccessError>(target as u64)
                            && final(self).position() == target,
                        None => r == Err::<u64, AccessError>(AccessError::InvalidSeek)
                            && final(self).position() == start,
                    },
                    None => r == Err::<u64, AccessError>(AccessError::SourceUnavailable)
                        && final(self).position() == start,
                }
            }),
    {
        self.get_bytes();
        self.bytes.seek_cursor(from)
    }
}

/// The single-flight law at the adapter surface: for every well-formed
/// adapter the underlying store read has run at most once, and exactly once
/// from the moment the cache is initialized — however many view, read or
/// seek calls triggered it.
pub proof fn law_adapter_fetch_at_most_once(a: OpendalReader)
    requires
        a.wf(),
    ensures
        a.fetch_count() <= 1,
        a.is_fetched() <==> a.fetch_count() == 1,
{
    law_fetch_at_most_once(a.bytes);
}

} // verus!
