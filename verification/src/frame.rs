//! The frame: an owned, append-only byte arena.
//!
//! The frame plays the part of the pinned region that a suspended
//! computation's state lives in: the builder places its owned data here, and
//! the views of the captured value are offsets into it. Because views are
//! frame-relative and the frame is only ever grown, a view placed once keeps
//! denoting the same bytes for the life of the container that owns the
//! frame, wherever the container is moved.

use vstd::prelude::*;
use vstd::slice::slice_subrange;

use crate::span::Span;
use crate::span::span_in_bounds;
use crate::span::store_at;
use crate::span::view_of;

verus! {

/// An owned, append-only byte arena that a builder places its data in.
pub struct Frame {
    bytes: Vec<u8>,
}

impl View for Frame {
    type V = Seq<u8>;

    closed spec fn view(&self) -> Seq<u8> {
        self.bytes@
    }
}

impl Frame {
    /// An empty frame.
    pub fn new() -> (f: Frame)
        ensures
            f@ == Seq::<u8>::empty(),
    {
        Frame { bytes: Vec::new() }
    }

    /// The size of the frame in bytes.
    pub fn len(&self) -> (n: usize)
        ensures
            n == self@.len(),
    {
        self.bytes.len()
    }

    /// Place `data` in the frame and return the view that denotes it.
    ///
    /// Everything placed earlier keeps its offsets: the frame only grows.
    pub fn place(&mut self, data: Vec<u8>) -> (s: Span)
        ensures
            final(self)@ == old(self)@ + data@,
            s.start == old(self)@.len(),
            s.len == data@.len(),
            span_in_bounds(s, final(self)@.len() as int),
    {
        let start = self.bytes.len();
        let len = data.len();
        let mut moved = data;
        self.bytes.append(&mut moved);
        Span { start, len }
    }

    /// The bytes a view denotes.
    pub fn read_at(&self, s: &Span) -> (r: &[u8])
        requires
            span_in_bounds(*s, self@.len() as int),
        ensures
            r@ == view_of(self@, *s),
    {
        // the frame length fits in a machine word, which bounds s.start + s.len
        let _frame_len = self.bytes.len();
        slice_subrange(self.bytes.as_slice(), s.start, s.start + s.len)
    }

    /// Overwrite the region a view denotes with `data`, byte for byte.
    /// The frame's size, and every byte outside the region, are untouched.
    pub fn write_at(&mut self, s: &Span, data: &[u8])
        requires
            span_in_bounds(*s, old(self)@.len() as int),
            data@.len() == s.len,
        ensures
            final(self)@ == store_at(old(self)@, *s, data@),
    {
        let ghost orig = self.bytes@;
        // the frame length fits in a machine word, which bounds the offsets below
        let _frame_len = self.bytes.len();
        let mut j: usize = 0;
        while j < s.len
            invariant
                j <= s.len,
                s.start + s.len <= orig.len(),
                orig.len() <= usize::MAX,
                data@.len() == s.len,
                self.bytes@.len() == orig.len(),
                forall|k: int|
                    0 <= k < orig.len() && !(s.start <= k < s.start + j) ==> self.bytes@[k]
                        == orig[k],
                forall|k: int|
                    s.start <= k < s.start + j ==> self.bytes@[k] == data@[k - s.start],
            decreases s.len - j,
        {
            let target = s.start + j;
            self.bytes[target] = data[j];
            j += 1;
        }
        proof {
            assert(self.bytes@ =~= store_at(orig, *s, data@));
        }
    }
}

} // verus!
