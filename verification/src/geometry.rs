//! Scalar and geometric carriers for the display-list types.
//!
//! The wire format's numeric fields are IEEE single-precision values and
//! fixed-point app units.  Floating-point arithmetic is no business of the
//! codec: a value travels as its raw 32-bit pattern, so the codec layer
//! carries exactly that pattern and leaves arithmetic to the callers that
//! convert at the boundary.

use vstd::prelude::*;

use crate::codec::{prefix_of, DecodeError, EncodeError, Sink, Source, Wire};

verus! {

broadcast use crate::codec::group_wire_axioms;

/// An IEEE single-precision value, carried as its raw bit pattern.
#[derive(Clone, Copy, Debug, PartialEq, Eq, Structural)]
pub struct FloatBits {
    pub bits: u32,
}

impl Wire for FloatBits {
    open spec fn wire(&self) -> Seq<u8> {
        self.bits.wire()
    }

    fn encode(&self, sink: &mut Sink) -> (r: Result<(), EncodeError>) {
        self.bits.encode(sink)
    }

    fn decode(source: &mut Source) -> (r: Result<FloatBits, DecodeError>)
        ensures
            r is Ok <==> old(source).rem().len() >= 4,
            r is Err ==> r == Err::<FloatBits, DecodeError>(DecodeError::UnexpectedEnd),
    {
        let bits: u32 = match u32::decode(source) {
            Ok(x) => x,
            Err(e) => return Err(e),
        };
        Ok(FloatBits { bits })
    }
}

/// A fixed-point length in app units, 1/60 of a device pixel.
#[derive(Clone, Copy, Debug, PartialEq, Eq, Structural)]
pub struct Au(pub i32);

impl Wire for Au {
    open spec fn wire(&self) -> Seq<u8> {
        self.0.wire()
    }

    fn encode(&self, sink: &mut Sink) -> (r: Result<(), EncodeError>) {
        self.0.encode(sink)
    }

    fn decode(source: &mut Source) -> (r: Result<Au, DecodeError>)
        ensures
            r is Ok <==> old(source).rem().len() >= 4,
            r is Err ==> r == Err::<Au, DecodeError>(DecodeError::UnexpectedEnd),
    {
        let units: i32 = match i32::decode(source) {
            Ok(x) => x,
            Err(e) => return Err(e),
        };
        Ok(Au(units))
    }
}

/// A width/height pair.
#[derive(Clone, Copy, Debug, PartialEq, Eq, Structural)]
pub struct Size2D {
    pub width: FloatBits,
    pub height: FloatBits,
}

impl Size2D {
    pub fn new(width: FloatBits, height: FloatBits) -> (s: Size2D)
        ensures
            s == (Size2D { width, height }),
    {
        Size2D { width, height }
    }
}

impl Wire for Size2D {
    open spec fn wire(&self) -> Seq<u8> {
        self.width.wire() + self.height.wire()
    }

    fn encode(&self, sink: &mut Sink) -> (r: Result<(), EncodeError>) {
        self.width.encode(sink)?;
        self.height.encode(sink)?;
        proof {
            assert(sink.bytes@ =~= old(sink).bytes@ + self.wire());
        }
        Ok(())
    }

    fn decode(source: &mut Source) -> (r: Result<Size2D, DecodeError>)
        ensures
            r is Ok <==> old(source).rem().len() >= 8,
            r is Err ==> r == Err::<Size2D, DecodeError>(DecodeError::UnexpectedEnd),
    {
        let ghost s0 = *source;
        let width = match FloatBits::decode(source) {
            Ok(v) => v,
            Err(e) => return Err(e),
        };
        proof {
            assert(source.rem() == s0.rem().skip(width.wire().len() as int));
        }
        let height = match FloatBits::decode(source) {
            Ok(v) => v,
            Err(e) => return Err(e),
        };
        Ok(Size2D { width, height })
    }
}

/// An x/y position.
#[derive(Clone, Copy, Debug, PartialEq, Eq, Structural)]
pub struct Point2D {
    pub x: FloatBits,
    pub y: FloatBits,
}

impl Point2D {
    pub fn new(x: FloatBits, y: FloatBits) -> (p: Point2D)
        ensures
            p == (Point2D { x, y }),
    {
        Point2D { x, y }
    }
}

impl Wire for Point2D {
    open spec fn wire(&self) -> Seq<u8> {
        self.x.wire() + self.y.wire()
    }

    fn encode(&self, sink: &mut Sink) -> (r: Result<(), EncodeError>) {
        self.x.encode(sink)?;
        self.y.encode(sink)?;
        proof {
            assert(sink.bytes@ =~= old(sink).bytes@ + self.wire());
        }
        Ok(())
    }

    fn decode(source: &mut Source) -> (r: Result<Point2D, DecodeError>)
        ensures
            r is Ok <==> old(source).rem().len() >= 8,
            r is Err ==> r == Err::<Point2D, DecodeError>(DecodeError::UnexpectedEnd),
    {
        let ghost s0 = *source;
        let x = match FloatBits::decode(source) {
            Ok(v) => v,
            Err(e) => return Err(e),
        };
        proof {
            assert(source.rem() == s0.rem().skip(x.wire().len() as int));
        }
        let y = match FloatBits::decode(source) {
            Ok(v) => v,
            Err(e) => return Err(e),
        };
        Ok(Point2D { x, y })
    }
}

/// An axis-aligned rectangle: an origin and a size.
#[derive(Clone, Copy, Debug, PartialEq, Eq, Structural)]
pub struct Rect {
    pub origin: Point2D,
    pub size: Size2D,
}

impl Rect {
    pub fn new(origin: Point2D, size: Size2D) -> (rect: Rect)
        ensures
            rect == (Rect { origin, size }),
    {
        Rect { origin, size }
    }
}

impl Wire for Rect {
    open spec fn wire(&self) -> Seq<u8> {
        self.origin.wire() + self.size.wire()
    }

    fn encode(&self, sink: &mut Sink) -> (r: Result<(), EncodeError>) {
        self.origin.encode(sink)?;
        self.size.encode(sink)?;
        proof {
            assert(sink.bytes@ =~= old(sink).bytes@ + self.wire());
        }
        Ok(())
    }

    fn decode(source: &mut Source) -> (r: Result<Rect, DecodeError>)
        ensures
            r is Ok <==> old(source).rem().len() >= 16,
            r is Err ==> r == Err::<Rect, DecodeError>(DecodeError::UnexpectedEnd),
    {
        let ghost s0 = *source;
        let origin = match Point2D::decode(source) {
            Ok(v) => v,
            Err(e) => return Err(e),
        };
        proof {
            assert(source.rem() == s0.rem().skip(origin.wire().len() as int));
        }
        let size = match Size2D::decode(source) {
            Ok(v) => v,
            Err(e) => return Err(e),
        };
        Ok(Rect { origin, size })
    }
}

/// A re-declaration of [`Size2D`] that lists the same two named fields in
/// the opposite order.  Nothing on the wire carries a field name, so this
/// declaration reads the same bytes differently; it exists to state the
/// order-sensitivity law below.
#[derive(Clone, Copy, Debug, PartialEq, Eq, Structural)]
pub struct SwappedSize2D {
    pub height: FloatBits,
    pub width: FloatBits,
}

impl SwappedSize2D {
    /// The same fields read back as a [`Size2D`], matched by name.
    pub open spec fn as_size(self) -> Size2D {
        Size2D { width: self.width, height: self.height }
    }
}

impl Wire for SwappedSize2D {
    open spec fn wire(&self) -> Seq<u8> {
        self.height.wire() + self.width.wire()
    }

    fn encode(&self, sink: &mut Sink) -> (r: Result<(), EncodeError>) {
        self.height.encode(sink)?;
        self.width.encode(sink)?;
        proof {
            assert(sink.bytes@ =~= old(sink).bytes@ + self.wire());
        }
        Ok(())
    }

    fn decode(source: &mut Source) -> (r: Result<SwappedSize2D, DecodeError>)
        ensures
            r is Ok <==> old(source).rem().len() >= 8,
            r is Err ==> r == Err::<SwappedSize2D, DecodeError>(DecodeError::UnexpectedEnd),
    {
        let ghost s0 = *source;
        let height = match FloatBits::decode(source) {
            Ok(v) => v,
            Err(e) => return Err(e),
        };
        proof {
            assert(source.rem() == s0.rem().skip(height.wire().len() as int));
        }
        let width = match FloatBits::decode(source) {
            Ok(v) => v,
            Err(e) => return Err(e),
        };
        Ok(SwappedSize2D { height, width })
    }
}

/// Order sensitivity: field order, not field identity, governs the wire
/// layout.  Decoding the bytes of a `Size2D` under a declaration that lists
/// the same two fields in the opposite order binds the first-declared field
/// of the reader to the first-encoded field of the writer, whatever the
/// names say: the width comes back under the name `height` and the height
/// under the name `width`.
pub fn decode_as_swapped(v: &Size2D) -> (r: Result<SwappedSize2D, DecodeError>)
    ensures
        r == Ok::<SwappedSize2D, DecodeError>(
            SwappedSize2D { height: v.width, width: v.height },
        ),
{
    let mut sink = Sink::new();
    let outcome = v.encode(&mut sink);
    proof {
        assert(outcome is Ok);
        assert(sink.bytes@ == v.wire());
    }
    let mut source = Source::new(sink.into_bytes());
    proof {
        assert(prefix_of(
            (SwappedSize2D { height: v.width, width: v.height }).wire(),
            source.rem(),
        ));
    }
    SwappedSize2D::decode(&mut source)
}

/// The round trip through the swapped declaration restores the original
/// value only when the two fields are equal.
pub proof fn lemma_swapped_round_trip(v: Size2D)
    ensures
        (SwappedSize2D { height: v.width, width: v.height }).as_size() == v <==> v.width
            == v.height,
{
}

} // verus!
