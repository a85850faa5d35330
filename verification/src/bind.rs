//! The rebind obligation, seen at runtime.
//!
//! A type whose values may be captured into a frame declares which views it
//! holds. The declaration is the runtime counterpart of the type-level rule
//! that a rebind mapping must change only lifetimes: a value's views are the
//! places where a lifetime occurs, and the containment check of the driver
//! ranges over exactly those. An implementation that misreports its views
//! weakens only the containment check; it is the same caller-asserted
//! obligation that a hand-rolled rebind mapping carries.

use vstd::prelude::*;

use crate::span::Span;
use crate::span::all_in_bounds;

verus! {

/// A value that can be captured into a frame: it reports the frame views it
/// holds, so the driver can check that all of them lie within the frame.
pub trait Bind {
    /// The views this value holds, as regions of its frame.
    spec fn refs(&self) -> Seq<Span>;

    /// Whether every view this value holds lies within a frame of `bound`
    /// bytes.
    fn within_frame(&self, bound: usize) -> (r: bool)
        ensures
            r == all_in_bounds(self.refs(), bound as int),
    ;
}

/// Marker for capturable types, implemented for everything that has a
/// [`Bind`] mapping.
pub trait Rebindable: Bind {

}

impl<T: Bind> Rebindable for T {

}

} // verus!
