//! The frame driver and the container.
//!
//! Construction is a one-shot handshake: the driver issues a token, runs the
//! builder for its single step, and then validates what came back. Two
//! checks gate the result. The liveness check demands the suspension
//! produced by the capture itself — evidence that the builder came to rest
//! inside the act of capturing, rather than finishing or discarding the
//! suspension. The containment check demands that every view the captured
//! value holds lies within the frame. A value that passes both is wrapped in
//! an [`Escher`] container, whose accessors never fail: the container owns
//! the frame, the frame only ever grew, so every validated view keeps
//! denoting the bytes it was placed over.
//!
//! A container's life runs one way: the single step in which the builder
//! runs, then the two-check gate, then the steady state in which the borrow
//! accessors are available, then destruction, which frees the frame and
//! with it everything the captured views denote. Validation never hands
//! control back to the builder: exactly one step is ever taken.

use vstd::prelude::*;

use crate::bind::Bind;
use crate::bind::Rebindable;
use crate::frame::Frame;
use crate::span::Span;
use crate::span::SpanMut;
use crate::span::all_in_bounds;
use crate::span::lemma_all_in_bounds_singleton;
use crate::span::span_in_bounds;
use crate::span::store_at;
use crate::span::view_of;
use crate::token::Ref;
use crate::token::Suspended;

verus! {

/// The two fatal construction-time conditions. Both are programmer errors
/// in the builder; neither can arise from a validated container.
#[derive(Clone, Copy, PartialEq, Eq, Structural, Debug)]
pub enum CaptureError {
    /// The builder never exercised the token, or exercised it but did not
    /// hand the suspension back: the capture is no longer live.
    TokenAbandoned,
    /// The captured value holds a view that lies outside its own frame.
    OutsideFrame,
}

impl CaptureError {
    /// The diagnostic for this condition; the two conditions have distinct
    /// diagnostics.
    pub fn message(&self) -> (m: &'static str)
        ensures
            *self is TokenAbandoned ==> m@ == "capture no longer live"@,
            *self is OutsideFrame ==> m@ == "captured value outside of frame"@,
    {
        match self {
            CaptureError::TokenAbandoned => "capture no longer live",
            CaptureError::OutsideFrame => "captured value outside of frame",
        }
    }
}

/// A container of a self-referential value: the frame the value's views
/// point into, and the value itself, validated so that every view lies
/// within the frame.
pub struct Escher<T> {
    frame: Frame,
    value: T,
}

impl<T> Escher<T> {
    /// The contents of the owned frame.
    pub closed spec fn frame_model(&self) -> Seq<u8> {
        self.frame@
    }

    /// The captured value.
    pub closed spec fn value_model(&self) -> T {
        self.value
    }
}

impl<T: Rebindable> Escher<T> {
    /// Every view of the captured value lies within the frame.
    pub open spec fn wf(&self) -> bool {
        all_in_bounds(self.value_model().refs(), self.frame_model().len() as int)
    }

    /// Construct a container by running `builder` for its single step.
    ///
    /// The builder receives the empty frame and the capture token; it is
    /// expected to place its owned data in the frame, capture a value of
    /// views into it, and hand back the frame together with the suspension
    /// that [`Ref::capture`] parked the value in. Whatever the builder does,
    /// the result is exactly what validation makes of its outcome: a
    /// container is produced if and only if the suspension is live and the
    /// captured value is contained in the frame.
    pub fn new<B>(builder: B) -> (r: Result<Escher<T>, CaptureError>) where
        B: FnOnce(Frame, Ref<T>) -> (Frame, Option<Suspended<T>>),

        requires
            forall|f: Frame, t: Ref<T>|
                f@ == Seq::<u8>::empty() ==> #[trigger] call_requires(builder, (f, t)),
        ensures
            r is Ok ==> r->Ok_0.wf(),
            exists|f0: Frame, t0: Ref<T>, f1: Frame, step: Option<Suspended<T>>|
                {
                    &&& f0@ == Seq::<u8>::empty()
                    &&& #[trigger] call_ensures(builder, (f0, t0), (f1, step))
                    &&& validated(r, f1@, step)
                },
    {
        let f0 = Frame::new();
        let t0 = Ref::issue();
        let (f1, step) = builder(f0, t0);
        Self::validate(f1, step)
    }

    /// The two-check gate between the builder's single step and the
    /// container: liveness first, then containment.
    pub fn validate(frame: Frame, step: Option<Suspended<T>>) -> (r: Result<
        Escher<T>,
        CaptureError,
    >)
        ensures
            validated(r, frame@, step),
            r is Ok ==> r->Ok_0.wf(),
    {
        match step {
            None => Err(CaptureError::TokenAbandoned),
            Some(parked) => {
                let value = parked.into_value();
                let bound = frame.len();
                if value.within_frame(bound) {
                    Ok(Escher { frame, value })
                } else {
                    Err(CaptureError::OutsideFrame)
                }
            },
        }
    }

    /// Borrow the captured value.
    pub fn as_ref(&self) -> (r: &T)
        ensures
            *r == self.value_model(),
    {
        &self.value
    }

    /// Borrow the captured value mutably. The frame is untouched: only the
    /// value changes, to whatever the caller leaves behind the borrow.
    pub fn as_mut(&mut self) -> (r: &mut T)
        ensures
            *r == old(self).value_model(),
            final(self).value_model() == *final(r),
            final(self).frame_model() == old(self).frame_model(),
    {
        &mut self.value
    }

    /// Read the bytes an immutable view denotes.
    pub fn read(&self, s: &Span) -> (r: &[u8])
        requires
            span_in_bounds(*s, self.frame_model().len() as int),
        ensures
            r@ == view_of(self.frame_model(), *s),
    {
        self.frame.read_at(s)
    }

    /// Read the bytes a mutable view denotes.
    pub fn read_mut_view(&self, s: &SpanMut) -> (r: &[u8])
        requires
            span_in_bounds(s.spec_span(), self.frame_model().len() as int),
        ensures
            r@ == view_of(self.frame_model(), s.spec_span()),
    {
        let plain = s.span();
        self.frame.read_at(&plain)
    }

    /// Write `data` over the region of a mutable view. The captured value
    /// and the frame's size are untouched; the next read of the same view
    /// returns `data`.
    pub fn write(&mut self, s: &SpanMut, data: &[u8])
        requires
            span_in_bounds(s.spec_span(), old(self).frame_model().len() as int),
            data@.len() == s.len,
        ensures
            final(self).frame_model() == store_at(old(self).frame_model(), s.spec_span(), data@),
            final(self).value_model() == old(self).value_model(),
    {
        let plain = s.span();
        self.frame.write_at(&plain, data);
    }
}

impl Escher<Span> {
    /// Capture a text view over an owned copy of `data`: the driver
    /// sequence for the simplest builder, which places the bytes in the
    /// frame and captures the view denoting them. Such a capture is always
    /// contained, so construction always succeeds, and reading the view
    /// back yields exactly `data`.
    pub fn of_bytes(data: Vec<u8>) -> (esc: Escher<Span>)
        ensures
            esc.wf(),
            esc.frame_model() == data@,
            esc.value_model() == (Span { start: 0, len: data@.len() as usize }),
            view_of(esc.frame_model(), esc.value_model()) == data@,
    {
        let ghost d = data@;
        let mut frame = Frame::new();
        let s = frame.place(data);
        let token = Ref::<Span>::issue();
        let parked = token.capture(s);
        proof {
            lemma_all_in_bounds_singleton(s, frame@.len() as int);
            assert(view_of(frame@, s) =~= d);
        }
        match Self::validate(frame, Some(parked)) {
            Ok(esc) => esc,
            Err(_) => unreached(),
        }
    }
}

/// What the validation gate makes of a builder outcome: abandonment and
/// containment decide the result, and a produced container holds exactly
/// the frame and the parked value.
pub open spec fn validated<T: Rebindable>(
    r: Result<Escher<T>, CaptureError>,
    frame: Seq<u8>,
    step: Option<Suspended<T>>,
) -> bool {
    match step {
        None => r == Err::<Escher<T>, CaptureError>(CaptureError::TokenAbandoned),
        Some(parked) => {
            if all_in_bounds(parked.value_model().refs(), frame.len() as int) {
                &&& r is Ok
                &&& r->Ok_0.frame_model() == frame
                &&& r->Ok_0.value_model() == parked.value_model()
            } else {
                r == Err::<Escher<T>, CaptureError>(CaptureError::OutsideFrame)
            }
        },
    }
}

/// The address-level form of the two-check gate, for a driver whose frame
/// is a real memory region. `holders` is the number of live holders of the
/// shared slot: the driver's retained handle plus, exactly when the capture
/// is parked inside the suspended computation, that computation's own — two
/// in all. The captured address must lie within
/// `[frame_low, frame_low + frame_size]`. Success comes if and only if both
/// checks pass, and each failure names the check that failed.
pub fn validate_handshake(holders: usize, addr: usize, frame_low: usize, frame_size: usize) -> (r:
    Result<(), CaptureError>)
    requires
        frame_low + frame_size <= usize::MAX,
    ensures
        r == Ok::<(), CaptureError>(()) <==> (holders == 2 && frame_low <= addr <= frame_low
            + frame_size),
        r == Err::<(), CaptureError>(CaptureError::TokenAbandoned) <==> holders != 2,
        r == Err::<(), CaptureError>(CaptureError::OutsideFrame) <==> (holders == 2 && !(frame_low
            <= addr <= frame_low + frame_size)),
{
    if holders != 2 {
        Err(CaptureError::TokenAbandoned)
    } else if frame_low <= addr && addr <= frame_low + frame_size {
        Ok(())
    } else {
        Err(CaptureError::OutsideFrame)
    }
}

} // verus!
