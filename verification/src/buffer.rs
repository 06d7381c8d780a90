//! Cursor-style random access over a materialized byte buffer: a current
//! read position layered over owned bytes, with sequential `read` and
//! origin-relative `seek`.

use vstd::math::min;
use vstd::prelude::*;

verus! {

/// The origin a seek offset is taken from: start of the buffer, the current
/// position, or the end of the buffer.
#[derive(Clone, Copy, Debug, PartialEq, Eq, Structural)]
pub enum SeekFrom {
    Start(u64),
    End(i64),
    Current(i64),
}

/// Why a cursor operation failed: the materialized content is absent
/// (the fetch failed), or a seek resolved to a position outside `0..=u64::MAX`.
#[derive(Clone, Copy, Debug, PartialEq, Eq, Structural)]
pub enum AccessError {
    SourceUnavailable,
    InvalidSeek,
}

/// How many bytes a `read` of up to `count` bytes copies when the cursor
/// stands at `pos` in content `content`: all of `count` if that much remains,
/// the remainder if not, and nothing at or past the end.
pub open spec fn read_count(content: Seq<u8>, pos: nat, count: nat) -> nat {
    if pos >= content.len() {
        0
    } else {
        min(count as int, content.len() - pos) as nat
    }
}

/// The bytes such a `read` returns: the slice of `content` starting at `pos`
/// of length `read_count`, and nothing at or past the end.
pub open spec fn read_result(content: Seq<u8>, pos: nat, count: nat) -> Seq<u8> {
    if pos >= content.len() {
        Seq::empty()
    } else {
        content.subrange(pos as int, pos + read_count(content, pos, count) as int)
    }
}

/// The position a seek resolves to over content of length `len` with the
/// cursor at `pos`, or `None` when the target falls outside `0..=u64::MAX`.
/// Seeking past the end is permitted: the target is not clamped to `len`.
pub open spec fn seek_target(len: nat, pos: u64, from: SeekFrom) -> Option<int> {
    match from {
        SeekFrom::Start(p) => Some(p as int),
        SeekFrom::End(off) => clamp_position(len + off),
        SeekFrom::Current(off) => clamp_position(pos + off),
    }
}

/// A candidate cursor position is valid exactly when it is non-negative and
/// representable as a `u64`.
pub open spec fn clamp_position(target: int) -> Option<int> {
    if 0 <= target <= u64::MAX {
        Some(target)
    } else {
        None
    }
}

/// Owned materialized bytes together with the cursor (current read position).
/// The position may stand past the end of the content; reads there copy
/// nothing.
pub struct RandomAccessBuffer {
    data: Vec<u8>,
    pos: u64,
}

impl RandomAccessBuffer {
    /// The materialized content, as a mathematical byte sequence.
    pub closed spec fn content(self) -> Seq<u8> {
        self.data@
    }

    /// The current read position.
    pub closed spec fn position(self) -> u64 {
        self.pos
    }

    /// Wraps freshly materialized bytes with the cursor at the start.
    pub fn new(data: Vec<u8>) -> (r: Self)
        ensures
            r.content() == data@,
            r.position() == 0,
    {
        RandomAccessBuffer { data, pos: 0 }
    }

    /// An immutable view of the entire materialized content, without copying.
    pub fn as_bytes(&self) -> (r: &[u8])
        ensures
            r@ == self.content(),
    {
        self.data.as_slice()
    }

    /// Copies up to `count` bytes from the current position, advancing the
    /// position by the number of bytes copied. Returns the empty vector at or
    /// past the end of the content.
    pub fn read(&mut self, count: usize) -> (r: Vec<u8>)
        ensures
            final(self).content() == old(self).content(),
            r@ == read_result(old(self).content(), old(self).position() as nat, count as nat),
            r@.len() == read_count(old(self).content(), old(self).position() as nat, count as nat),
            final(self).position() == old(self).position() + r@.len(),
    {
        let len: usize = self.data.len();
        if self.pos >= len as u64 {
            return Vec::new();
        }
        let start: usize = self.pos as usize;
        let avail: usize = len - start;
        let n: usize = if count < avail {
            count
        } else {
            avail
        };
        let mut out: Vec<u8> = Vec::new();
        let mut i: usize = 0;
        while i < n
            invariant
                i <= n,
                start + n <= self.data.len(),
                out@ == self.data@.subrange(start as int, start + i),
            decreases n - i,
        {
            out.push(self.data[start + i]);
            i = i + 1;
        }
        self.pos = self.pos + n as u64;
        out
    }

    /// Moves the cursor to the position `from` resolves to, returning the new
    /// position; fails, leaving the cursor in place, when the target would be
    /// negative or would overflow `u64`.
    pub fn seek(&mut self, from: SeekFrom) -> (r: Result<u64, AccessError>)
        ensures
            final(self).content() == old(self).content(),
            match seek_target(old(self).content().len(), old(self).position(), from) {
                Some(target) => {
                    &&& r == Ok::<u64, AccessError>(target as u64)
                    &&& final(self).position() == target
                },
                None => {
                    &&& r == Err::<u64, AccessError>(AccessError::InvalidSeek)
                    &&& final(self).position() == old(self).position()
                },
            },
    {
        match from {
            SeekFrom::Start(p) => {
                self.pos = p;
                Ok(p)
            },
            SeekFrom::End(off) => {
                let base: u64 = self.data.len() as u64;
                match offset_position(base, off) {
                    Some(p) => {
                        self.pos = p;
                        Ok(p)
                    },
                    None => Err(AccessError::InvalidSeek),
                }
            },
            SeekFrom::Current(off) => {
                match offset_position(self.pos, off) {
                    Some(p) => {
                        self.pos = p;
                        Ok(p)
                    },
                    None => Err(AccessError::InvalidSeek),
                }
            },
        }
    }
}

/// `base + off` as a cursor position, or `None` when the sum falls outside
/// `0..=u64::MAX`.
fn offset_position(base: u64, off: i64) -> (r: Option<u64>)
    ensures
        match clamp_position(base + off) {
            Some(target) => r == Some(target as u64),
            None => r == None::<u64>,
        },
{
    if off >= 0 {
        let off_u: u64 = off as u64;
        if base <= u64::MAX - off_u {
            Some(base + off_u)
        } else {
            None
        }
    } else {
        let magnitude: u64 = if off == i64::MIN {
            9223372036854775808u64
        } else {
            (-off) as u64
        };
        if base >= magnitude {
            Some(base - magnitude)
        } else {
            None
        }
    }
}

/// Seeking to a position `p` within the content and then reading up to `k`
/// bytes yields exactly `min(k, L - p)` bytes, equal to the content slice
/// starting at `p`, and leaves the position at `p` plus that count.
pub proof fn law_seek_start_then_read(c: Seq<u8>, pos: u64, p: u64, k: nat)
    requires
        p <= c.len(),
    ensures
        seek_target(c.len(), pos, SeekFrom::Start(p)) == Some(p as int),
        read_count(c, p as nat, k) == min(k as int, c.len() - p),
        read_result(c, p as nat, k) == c.subrange(p as int, p + min(k as int, c.len() - p)),
{
    if p == c.len() {
        assert(read_result(c, p as nat, k) =~= c.subrange(
            p as int,
            p + min(k as int, c.len() - p),
        ));
    }
}

/// Seeking to the end with offset zero yields position `L`, the content
/// length; any read from there returns no bytes.
pub proof fn law_seek_end_then_read(c: Seq<u8>, pos: u64, k: nat)
    requires
        c.len() <= u64::MAX,
    ensures
        seek_target(c.len(), pos, SeekFrom::End(0)) == Some(c.len() as int),
        read_count(c, c.len(), k) == 0,
        read_result(c, c.len(), k) == Seq::<u8>::empty(),
{
}

/// Seeking from the start to a position `p` beyond the content length
/// succeeds, with the position set to `p`; any read from there returns no
/// bytes.
pub proof fn law_seek_past_end_then_read(c: Seq<u8>, pos: u64, p: u64, k: nat)
    requires
        p > c.len(),
    ensures
        seek_target(c.len(), pos, SeekFrom::Start(p)) == Some(p as int),
        read_count(c, p as nat, k) == 0,
        read_result(c, p as nat, k) == Seq::<u8>::empty(),
{
}

} // verus!
