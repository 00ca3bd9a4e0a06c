//! A compact binary encoding for the algebraic data types that a graphics
//! display list is made of.
//!
//! The wire format is deliberately bare: a record or tuple is the
//! concatenation of its fields' encodings in declaration order, with no
//! names, lengths or separators; a tagged union is a single discriminant
//! byte — the variant's 0-based position in declaration order — followed by
//! the encodings of that variant's fields.  Both sides must agree on the
//! declared field and variant order, byte for byte; nothing on the wire is
//! self-describing.
//!
//! The [`codec`] module holds the sink and source abstractions, the error
//! taxonomy, the [`codec::Wire`] trait that binds a type to its codec, and
//! the round-trip law.  [`geometry`] models the scalar carriers (floating
//! point values travel as their raw bit patterns), and [`types`] and
//! [`display_item`] declare the display-list vocabulary together with its
//! codecs, so the two can never drift apart.

pub mod codec;
pub mod display_item;
pub mod geometry;
pub mod types;
