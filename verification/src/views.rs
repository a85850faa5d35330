//! Capturable view types.
//!
//! [`Span`] and [`SpanMut`] are the base cases of the rebind rule: a plain
//! immutable or mutable reference to owned data. The composite types here
//! carry the mappings that a code generator derives mechanically for a
//! struct or enum from its parameter list: each one reports exactly the
//! views its fields hold.

use vstd::prelude::*;

use crate::bind::Bind;
use crate::span::Span;
use crate::span::SpanMut;
use crate::span::lemma_all_in_bounds_empty;
use crate::span::lemma_all_in_bounds_pair;
use crate::span::lemma_all_in_bounds_singleton;
use crate::span::span_fits;

verus! {

impl Bind for Span {
    open spec fn refs(&self) -> Seq<Span> {
        seq![*self]
    }

    fn within_frame(&self, bound: usize) -> (r: bool) {
        proof {
            lemma_all_in_bounds_singleton(*self, bound as int);
        }
        span_fits(self, bound)
    }
}

impl Bind for SpanMut {
    open spec fn refs(&self) -> Seq<Span> {
        seq![self.spec_span()]
    }

    fn within_frame(&self, bound: usize) -> (r: bool) {
        proof {
            lemma_all_in_bounds_singleton(self.spec_span(), bound as int);
        }
        let plain = self.span();
        span_fits(&plain, bound)
    }
}

/// A text view paired with the byte view of the same owned data.
#[derive(Clone, Copy, PartialEq, Eq, Structural, Debug)]
pub struct VecStr {
    pub data: Span,
    pub s: Span,
}

impl Bind for VecStr {
    open spec fn refs(&self) -> Seq<Span> {
        seq![self.data, self.s]
    }

    fn within_frame(&self, bound: usize) -> (r: bool) {
        proof {
            lemma_all_in_bounds_pair(self.data, self.s, bound as int);
        }
        span_fits(&self.data, bound) && span_fits(&self.s, bound)
    }
}

/// A single text view.
#[derive(Clone, Copy, PartialEq, Eq, Structural, Debug)]
pub struct MyStr(pub Span);

impl Bind for MyStr {
    open spec fn refs(&self) -> Seq<Span> {
        seq![self.0]
    }

    fn within_frame(&self, bound: usize) -> (r: bool) {
        proof {
            lemma_all_in_bounds_singleton(self.0, bound as int);
        }
        span_fits(&self.0, bound)
    }
}

/// A text view that may be absent: a two-variant capturable value.
#[derive(Clone, Copy, PartialEq, Eq, Structural, Debug)]
pub enum MaybeStr {
    Present(Span),
    Absent,
}

impl Bind for MaybeStr {
    open spec fn refs(&self) -> Seq<Span> {
        match *self {
            MaybeStr::Present(s) => seq![s],
            MaybeStr::Absent => Seq::empty(),
        }
    }

    fn within_frame(&self, bound: usize) -> (r: bool) {
        match self {
            MaybeStr::Present(s) => {
                proof {
                    lemma_all_in_bounds_singleton(*s, bound as int);
                }
                span_fits(s, bound)
            },
            MaybeStr::Absent => {
                proof {
                    lemma_all_in_bounds_empty(bound as int);
                }
                true
            },
        }
    }
}

/// An immutable view and a mutable view into distinct owned substructures.
#[derive(Clone, Copy, PartialEq, Eq, Structural, Debug)]
pub struct Mixed {
    pub left: Span,
    pub right: SpanMut,
}

impl Bind for Mixed {
    open spec fn refs(&self) -> Seq<Span> {
        seq![self.left, self.right.spec_span()]
    }

    fn within_frame(&self, bound: usize) -> (r: bool) {
        proof {
            lemma_all_in_bounds_pair(self.left, self.right.spec_span(), bound as int);
        }
        let right_plain = self.right.span();
        span_fits(&self.left, bound) && span_fits(&right_plain, bound)
    }
}

} // verus!
