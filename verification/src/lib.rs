//! Containers for self-referential values.
//!
//! A caller builds a value that holds, alongside owned data, views into that
//! same data, and later reads those views safely even though the value has
//! been handed over to a container the caller owns and may move freely.
//!
//! The construction runs as a one-shot handshake: the driver hands the
//! builder an empty [`frame::Frame`] and a single-use capture token
//! ([`token::Ref`]); the builder places its owned data in the frame, builds a
//! value of frame-relative views ([`span::Span`], [`span::SpanMut`]) over it,
//! and exercises the token exactly once, which parks the value in a permanent
//! suspension ([`token::Suspended`]). The driver then validates the outcome:
//! the suspension must still be live, and every view the value holds must lie
//! within the frame. Only a value that passes both checks becomes an
//! [`escher::Escher`] container, whose borrow accessors are therefore
//! infallible.
//!
//! What views a value holds is declared through the [`bind::Bind`] trait,
//! the runtime counterpart of a rebind mapping: the type-level rule that
//! replaces every lifetime parameter of a composite type with a single
//! target lifetime while carrying type and constant parameters through
//! unchanged. That rule itself is computed, over descriptors, in [`rebind`].

pub mod bind;
pub mod escher;
pub mod frame;
pub mod laws;
pub mod rebind;
pub mod span;
pub mod token;
pub mod views;

pub use crate::bind::Bind;
pub use crate::bind::Rebindable;
pub use crate::escher::CaptureError;
pub use crate::escher::Escher;
pub use crate::escher::validate_handshake;
pub use crate::frame::Frame;
pub use crate::rebind::Arg;
pub use crate::rebind::GenericParam;
pub use crate::rebind::ImplParam;
pub use crate::rebind::RebindMapping;
pub use crate::rebind::rebind_mapping;
pub use crate::span::Span;
pub use crate::span::SpanMut;
pub use crate::token::Ref;
pub use crate::token::Suspended;
