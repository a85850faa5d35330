//! Frame-relative views.
//!
//! A value placed in a frame is referred to by offsets into the frame rather
//! than by absolute addresses: the frame's bytes may live anywhere, but a
//! `Span` keeps denoting the same region for as long as the frame is only
//! ever grown. `Span` is the base case for an immutable view and `SpanMut`
//! the base case for a mutable one; composite types hold several of them.

use vstd::prelude::*;

verus! {

/// An immutable view into a frame: `len` bytes starting at offset `start`.
#[derive(Clone, Copy, PartialEq, Eq, Structural, Debug)]
pub struct Span {
    pub start: usize,
    pub len: usize,
}

/// A mutable view into a frame; the same region as `Span`, but writable.
#[derive(Clone, Copy, PartialEq, Eq, Structural, Debug)]
pub struct SpanMut {
    pub start: usize,
    pub len: usize,
}

impl SpanMut {
    /// The region this mutable view covers, as a plain `Span`.
    pub open spec fn spec_span(&self) -> Span {
        Span { start: self.start, len: self.len }
    }

    /// Exec twin of [`Self::spec_span`].
    pub fn span(&self) -> (s: Span)
        ensures
            s == self.spec_span(),
    {
        Span { start: self.start, len: self.len }
    }
}

/// The view `s` lies entirely within a frame of `bound` bytes.
pub open spec fn span_in_bounds(s: Span, bound: int) -> bool {
    s.start + s.len <= bound
}

/// Every view of `rs` lies within a frame of `bound` bytes.
pub open spec fn all_in_bounds(rs: Seq<Span>, bound: int) -> bool {
    forall|i: int| 0 <= i < rs.len() ==> span_in_bounds(#[trigger] rs[i], bound)
}

/// The two views denote non-overlapping regions.
pub open spec fn spans_disjoint(a: Span, b: Span) -> bool {
    a.start + a.len <= b.start || b.start + b.len <= a.start
}

/// The bytes a view denotes within the frame contents `frame`.
pub open spec fn view_of(frame: Seq<u8>, s: Span) -> Seq<u8>
    recommends
        span_in_bounds(s, frame.len() as int),
{
    frame.subrange(s.start as int, s.start + s.len)
}

/// The frame contents after writing `data` over the region of `s`.
pub open spec fn store_at(frame: Seq<u8>, s: Span, data: Seq<u8>) -> Seq<u8>
    recommends
        span_in_bounds(s, frame.len() as int),
        data.len() == s.len,
{
    Seq::new(
        frame.len(),
        |i: int|
            if s.start <= i < s.start + s.len {
                data[i - s.start]
            } else {
                frame[i]
            },
    )
}

/// A value holding no view is contained in any frame.
pub proof fn lemma_all_in_bounds_empty(bound: int)
    ensures
        all_in_bounds(Seq::empty(), bound),
{
}

/// A value holding one view is contained exactly when that view is.
pub proof fn lemma_all_in_bounds_singleton(x: Span, bound: int)
    ensures
        all_in_bounds(seq![x], bound) == span_in_bounds(x, bound),
{
    let rs = seq![x];
    assert(rs[0] == x);
    if span_in_bounds(x, bound) {
        assert forall|i: int| 0 <= i < rs.len() implies span_in_bounds(#[trigger] rs[i], bound) by {
            assert(rs[i] == x);
        }
    }
    if all_in_bounds(rs, bound) {
        assert(span_in_bounds(rs[0], bound));
    }
}

/// A value holding two views is contained exactly when both are.
pub proof fn lemma_all_in_bounds_pair(x: Span, y: Span, bound: int)
    ensures
        all_in_bounds(seq![x, y], bound) == (span_in_bounds(x, bound) && span_in_bounds(y, bound)),
{
    let rs = seq![x, y];
    assert(rs[0] == x);
    assert(rs[1] == y);
    if span_in_bounds(x, bound) && span_in_bounds(y, bound) {
        assert forall|i: int| 0 <= i < rs.len() implies span_in_bounds(#[trigger] rs[i], bound) by {
            if i == 0 {
                assert(rs[i] == x);
            } else {
                assert(rs[i] == y);
            }
        }
    }
    if all_in_bounds(rs, bound) {
        assert(span_in_bounds(rs[0], bound));
        assert(span_in_bounds(rs[1], bound));
    }
}

/// Exec check that a view lies within a frame of `bound` bytes.
pub fn span_fits(s: &Span, bound: usize) -> (r: bool)
    ensures
        r == span_in_bounds(*s, bound as int),
{
    s.len <= bound && s.start <= bound - s.len
}

} // verus!
