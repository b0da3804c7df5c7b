//! Range expressions over UTF-8 code-unit offsets, and their resolution
//! against a buffer length into concrete half-open ranges.

use vstd::prelude::*;

verus! {

/// One end of a range expression.
#[derive(Clone, Copy, Debug, PartialEq, Eq, Structural)]
pub enum RangeBound {
    Included(usize),
    Excluded(usize),
    Unbounded,
}

/// A range expression: `a..b`, `a..=b`, `a..`, `..b` or `..`, with either end
/// possibly open.
#[derive(Clone, Copy, Debug, PartialEq, Eq, Structural)]
pub struct TextRange {
    pub start: RangeBound,
    pub end: RangeBound,
}

/// A concrete half-open byte range `[start, end)`.
#[derive(Clone, Copy, Debug, PartialEq, Eq, Structural)]
pub struct SpanRange {
    pub start: usize,
    pub end: usize,
}

impl SpanRange {
    /// The range is a (possibly empty) slice of a buffer of `len` bytes.
    pub open spec fn valid_for(self, len: nat) -> bool {
        self.start <= self.end && self.end <= len
    }
}

pub open spec fn min_nat(a: nat, b: nat) -> nat {
    if a <= b { a } else { b }
}

pub open spec fn max_nat(a: nat, b: nat) -> nat {
    if a >= b { a } else { b }
}

/// The first offset that a start bound admits.
pub open spec fn start_offset(b: RangeBound) -> nat {
    match b {
        RangeBound::Included(n) => n as nat,
        RangeBound::Excluded(n) => n as nat + 1,
        RangeBound::Unbounded => 0,
    }
}

/// The offset one past the last that an end bound admits, on a buffer of `len` bytes.
pub open spec fn end_offset(b: RangeBound, len: nat) -> nat {
    match b {
        RangeBound::Included(n) => n as nat + 1,
        RangeBound::Excluded(n) => n as nat,
        RangeBound::Unbounded => len,
    }
}

/// Start of the resolved range: the admitted start, clamped to the buffer.
pub open spec fn resolved_start(r: TextRange, len: nat) -> nat {
    min_nat(start_offset(r.start), len)
}

/// End of the resolved range: the admitted end, clamped to the buffer, and
/// never before the start (an inverted range resolves to an empty one).
pub open spec fn resolved_end(r: TextRange, len: nat) -> nat {
    max_nat(resolved_start(r, len), min_nat(end_offset(r.end, len), len))
}

impl TextRange {
    /// `start..end`
    pub fn new(start: usize, end: usize) -> (r: TextRange)
        ensures
            r == (TextRange { start: RangeBound::Included(start), end: RangeBound::Excluded(end) }),
    {
        TextRange { start: RangeBound::Included(start), end: RangeBound::Excluded(end) }
    }

    /// `start..=last`
    pub fn inclusive(start: usize, last: usize) -> (r: TextRange)
        ensures
            r == (TextRange { start: RangeBound::Included(start), end: RangeBound::Included(last) }),
    {
        TextRange { start: RangeBound::Included(start), end: RangeBound::Included(last) }
    }

    /// `start..`
    pub fn from(start: usize) -> (r: TextRange)
        ensures
            r == (TextRange { start: RangeBound::Included(start), end: RangeBound::Unbounded }),
    {
        TextRange { start: RangeBound::Included(start), end: RangeBound::Unbounded }
    }

    /// `..end`
    pub fn to(end: usize) -> (r: TextRange)
        ensures
            r == (TextRange { start: RangeBound::Unbounded, end: RangeBound::Excluded(end) }),
    {
        TextRange { start: RangeBound::Unbounded, end: RangeBound::Excluded(end) }
    }

    /// `..`
    pub fn full() -> (r: TextRange)
        ensures
            r == (TextRange { start: RangeBound::Unbounded, end: RangeBound::Unbounded }),
    {
        TextRange { start: RangeBound::Unbounded, end: RangeBound::Unbounded }
    }
}

/// Resolves a range expression against a buffer of `len` bytes, clamping
/// both ends into `[0, len]` and an inverted range to an empty one.
pub fn resolve_range(range: TextRange, len: usize) -> (r: SpanRange)
    ensures
        r.start == resolved_start(range, len as nat),
        r.end == resolved_end(range, len as nat),
        r.valid_for(len as nat),
{
    let start: usize = match range.start {
        RangeBound::Included(n) => n,
        RangeBound::Excluded(n) => if n < len { n + 1 } else { len },
        RangeBound::Unbounded => 0,
    };
    let start: usize = if start <= len { start } else { len };
    let end: usize = match range.end {
        RangeBound::Included(n) => if n < len { n + 1 } else { len },
        RangeBound::Excluded(n) => n,
        RangeBound::Unbounded => len,
    };
    let end: usize = if end <= len { end } else { len };
    let end: usize = if end >= start { end } else { start };
    SpanRange { start, end }
}

/// Whatever the range expression and buffer length, the resolved range is a
/// valid half-open sub-range of `[0, len]`.
pub proof fn lemma_resolved_range_in_bounds(range: TextRange, len: nat)
    ensures
        resolved_start(range, len) <= resolved_end(range, len) <= len,
{
}

} // verus!
