//! The capture token and the permanent suspension.
//!
//! A token is issued by the driver and threaded into the builder. It is a
//! move-only, single-use resource: the only way to exercise it is
//! [`Ref::capture`], which consumes it, records the captured value, and
//! parks it in a [`Suspended`] — the witness that the capturing computation
//! came to rest inside the act of capturing and will never resume. Because a
//! token cannot be copied, at most one capture can ever happen per token,
//! and because `Suspended` can only be produced by `capture`, handing one
//! back to the driver is evidence that the capture is still live.

use core::marker::PhantomData;

use vstd::prelude::*;

use crate::bind::Bind;

verus! {

/// The single-use capture token handed to a builder.
///
/// It carries the write-once slot that the driver reads after the one
/// construction step; consuming the token is what makes the slot write-once.
pub struct Ref<T> {
    _target: PhantomData<T>,
}

/// A computation parked, permanently, inside the act of capturing.
///
/// Values of this type come from [`Ref::capture`] alone; the captured value
/// rests inside and is released only to the driver.
pub struct Suspended<T> {
    value: T,
}

impl<T> Suspended<T> {
    /// The value the parked computation holds.
    pub closed spec fn value_model(&self) -> T {
        self.value
    }

    /// Release the held value to the driver.
    pub(crate) fn into_value(self) -> (v: T)
        ensures
            v == self.value_model(),
    {
        self.value
    }
}

impl<T: Bind> Ref<T> {
    /// Issue a fresh token. The driver does this once per construction.
    pub fn issue() -> (r: Ref<T>) {
        Ref { _target: PhantomData }
    }

    /// Exercise the token: record `value` and park it in a permanent
    /// suspension. Consuming `self` is what guarantees at most one capture;
    /// the builder's last act must be to hand the suspension back.
    pub fn capture(self, value: T) -> (s: Suspended<T>)
        ensures
            s.value_model() == value,
    {
        Suspended { value }
    }
}

} // verus!
