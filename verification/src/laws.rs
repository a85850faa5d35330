//! Laws of the frame and its views.
//!
//! These proof functions state, over the byte-level model of [`crate::span`]
//! and [`crate::frame`], the guarantees the container's accessors compose
//! into: a captured view returns the bytes placed under it, writes through
//! one view are visible to the next read and invisible to disjoint views,
//! and borrowing is free of side effects.

use vstd::prelude::*;

use crate::span::Span;
use crate::span::span_in_bounds;
use crate::span::spans_disjoint;
use crate::span::store_at;
use crate::span::view_of;

verus! {

/// Capturing a view over data placed in the frame and reading it back
/// yields exactly that data: for any frame contents `base` and any byte
/// sequence `d`, the view that an allocation of `d` returns denotes `d`.
pub proof fn lemma_capture_round_trip(base: Seq<u8>, d: Seq<u8>, s: Span)
    requires
        s.start == base.len(),
        s.len == d.len(),
    ensures
        view_of(base + d, s) == d,
{
    assert(view_of(base + d, s) =~= d);
}

/// Growing the frame preserves every view already in bounds: data placed
/// later cannot disturb what an earlier view denotes.
pub proof fn lemma_place_preserves_views(base: Seq<u8>, tail: Seq<u8>, s: Span)
    requires
        span_in_bounds(s, base.len() as int),
    ensures
        view_of(base + tail, s) == view_of(base, s),
{
    assert(view_of(base + tail, s) =~= view_of(base, s));
}

/// A mutation through a view is visible on the next read of that view.
pub proof fn lemma_mutation_visible(frame: Seq<u8>, s: Span, d: Seq<u8>)
    requires
        span_in_bounds(s, frame.len() as int),
        d.len() == s.len,
    ensures
        view_of(store_at(frame, s, d), s) == d,
{
    assert(view_of(store_at(frame, s, d), s) =~= d);
}

/// Distinct views are independent: a write through one leaves what any
/// disjoint view denotes untouched, so the fields of a composite value
/// keep their values independently.
pub proof fn lemma_views_independent(frame: Seq<u8>, s: Span, other: Span, d: Seq<u8>)
    requires
        span_in_bounds(s, frame.len() as int),
        span_in_bounds(other, frame.len() as int),
        spans_disjoint(s, other),
        d.len() == other.len,
    ensures
        view_of(store_at(frame, other, d), s) == view_of(frame, s),
{
    assert(view_of(store_at(frame, other, d), s) =~= view_of(frame, s));
}

/// Borrowing is free of side effects: what a view denotes is a function of
/// the frame contents alone, so repeated reads of an unmodified container
/// return equal values.
pub proof fn lemma_borrow_idempotent(frame1: Seq<u8>, frame2: Seq<u8>, s: Span)
    requires
        frame1 == frame2,
    ensures
        view_of(frame1, s) == view_of(frame2, s),
{
}

} // verus!
