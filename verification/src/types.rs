//! The display-list vocabulary: every wire type is declared here together
//! with its codec, in one place, so the declared field and variant order and
//! the bytes on the wire can never drift apart.
//!
//! Records and tuples encode their fields in declaration order with nothing
//! between them; tagged unions write one discriminant byte — the variant's
//! 0-based position in declaration order — and then the variant's fields.

use vstd::prelude::*;

use crate::codec::{byte, DecodeError, EncodeError, Sink, Source, UnionName, Wire};
use crate::geometry::{Au, FloatBits, Point2D, Rect, Size2D};

verus! {

broadcast use crate::codec::group_wire_axioms;

// ---------------------------------------------------------------------------
// Colors
// ---------------------------------------------------------------------------

/// A color with red, green, blue and alpha channels, each an IEEE
/// single-precision value carried as its bit pattern.
#[derive(Clone, Copy, Debug, PartialEq, Eq, Structural)]
pub struct ColorF {
    pub r: FloatBits,
    pub g: FloatBits,
    pub b: FloatBits,
    pub a: FloatBits,
}

impl ColorF {
    pub fn new(r: FloatBits, g: FloatBits, b: FloatBits, a: FloatBits) -> (c: ColorF)
        ensures
            c == (ColorF { r, g, b, a }),
    {
        ColorF { r, g, b, a }
    }
}

impl Wire for ColorF {
    open spec fn wire(&self) -> Seq<u8> {
        self.r.wire() + self.g.wire() + self.b.wire() + self.a.wire()
    }

    fn encode(&self, sink: &mut Sink) -> (r: Result<(), EncodeError>) {
        self.r.encode(sink)?;
        self.g.encode(sink)?;
        self.b.encode(sink)?;
        self.a.encode(sink)?;
        proof {
            assert(sink.bytes@ =~= old(sink).bytes@ + self.wire());
        }
        Ok(())
    }

    fn decode(source: &mut Source) -> (res: Result<ColorF, DecodeError>)
        ensures
            res is Ok <==> old(source).rem().len() >= 16,
            res is Err ==> res == Err::<ColorF, DecodeError>(DecodeError::UnexpectedEnd),
    {
        let ghost s0 = *source;
        let r = match FloatBits::decode(source) {
            Ok(v) => v,
            Err(e) => return Err(e),
        };
        proof {
            assert(source.rem() == s0.rem().skip(r.wire().len() as int));
        }
        let ghost s1 = *source;
        let g = match FloatBits::decode(source) {
            Ok(v) => v,
            Err(e) => return Err(e),
        };
        proof {
            assert(source.rem() == s1.rem().skip(g.wire().len() as int));
        }
        let ghost s2 = *source;
        let b = match FloatBits::decode(source) {
            Ok(v) => v,
            Err(e) => return Err(e),
        };
        proof {
            assert(source.rem() == s2.rem().skip(b.wire().len() as int));
        }
        let a = match FloatBits::decode(source) {
            Ok(v) => v,
            Err(e) => return Err(e),
        };
        Ok(ColorF { r, g, b, a })
    }
}

// ---------------------------------------------------------------------------
// Border radii and sides
// ---------------------------------------------------------------------------

/// The corner radii of a rounded rectangle, one size per corner, declared
/// and encoded in the order top-left, top-right, bottom-left, bottom-right.
#[derive(Clone, Copy, Debug, PartialEq, Eq, Structural)]
pub struct BorderRadius {
    pub top_left: Size2D,
    pub top_right: Size2D,
    pub bottom_left: Size2D,
    pub bottom_right: Size2D,
}

impl BorderRadius {
    /// All four corners set to the same radius in both axes.
    pub open spec fn uniform_spec(radius: FloatBits) -> BorderRadius {
        BorderRadius {
            top_left: Size2D { width: radius, height: radius },
            top_right: Size2D { width: radius, height: radius },
            bottom_left: Size2D { width: radius, height: radius },
            bottom_right: Size2D { width: radius, height: radius },
        }
    }

    pub fn zero() -> (r: BorderRadius)
        ensures
            r == BorderRadius::uniform_spec(FloatBits { bits: 0 }),
    {
        BorderRadius::uniform(FloatBits { bits: 0 })
    }

    pub fn uniform(radius: FloatBits) -> (r: BorderRadius)
        ensures
            r == BorderRadius::uniform_spec(radius),
    {
        BorderRadius {
            top_left: Size2D { width: radius, height: radius },
            top_right: Size2D { width: radius, height: radius },
            bottom_left: Size2D { width: radius, height: radius },
            bottom_right: Size2D { width: radius, height: radius },
        }
    }
}

impl Wire for BorderRadius {
    open spec fn wire(&self) -> Seq<u8> {
        self.top_left.wire() + self.top_right.wire() + self.bottom_left.wire()
            + self.bottom_right.wire()
    }

    fn encode(&self, sink: &mut Sink) -> (r: Result<(), EncodeError>) {
        self.top_left.encode(sink)?;
        self.top_right.encode(sink)?;
        self.bottom_left.encode(sink)?;
        self.bottom_right.encode(sink)?;
        proof {
            assert(sink.bytes@ =~= old(sink).bytes@ + self.wire());
        }
        Ok(())
    }

    fn decode(source: &mut Source) -> (r: Result<BorderRadius, DecodeError>)
        ensures
            r is Ok <==> old(source).rem().len() >= 32,
            r is Err ==> r == Err::<BorderRadius, DecodeError>(DecodeError::UnexpectedEnd),
    {
        let ghost s0 = *source;
        let top_left = match Size2D::decode(source) {
            Ok(v) => v,
            Err(e) => return Err(e),
        };
        proof {
            assert(source.rem() == s0.rem().skip(top_left.wire().len() as int));
        }
        let ghost s1 = *source;
        let top_right = match Size2D::decode(source) {
            Ok(v) => v,
            Err(e) => return Err(e),
        };
        proof {
            assert(source.rem() == s1.rem().skip(top_right.wire().len() as int));
        }
        let ghost s2 = *source;
        let bottom_left = match Size2D::decode(source) {
            Ok(v) => v,
            Err(e) => return Err(e),
        };
        proof {
            assert(source.rem() == s2.rem().skip(bottom_left.wire().len() as int));
        }
        let bottom_right = match Size2D::decode(source) {
            Ok(v) => v,
            Err(e) => return Err(e),
        };
        Ok(BorderRadius { top_left, top_right, bottom_left, bottom_right })
    }
}

/// How one border edge is drawn.
#[derive(Clone, Copy, Debug, PartialEq, Eq, Structural)]
pub enum BorderStyle {
    NoBorder,
    Solid,
    Double,
    Dotted,
    Dashed,
    Hidden,
    Groove,
    Ridge,
    Inset,
    Outset,
}

impl BorderStyle {
    /// The variant's 0-based position in declaration order: its wire
    /// discriminant.
    pub open spec fn tag(self) -> u8 {
        match self {
            BorderStyle::NoBorder => 0,
            BorderStyle::Solid => 1,
            BorderStyle::Double => 2,
            BorderStyle::Dotted => 3,
            BorderStyle::Dashed => 4,
            BorderStyle::Hidden => 5,
            BorderStyle::Groove => 6,
            BorderStyle::Ridge => 7,
            BorderStyle::Inset => 8,
            BorderStyle::Outset => 9,
        }
    }
}

impl Wire for BorderStyle {
    open spec fn wire(&self) -> Seq<u8> {
        byte(self.tag())
    }

    fn encode(&self, sink: &mut Sink) -> (r: Result<(), EncodeError>) {
        let t: u8 = match self {
            BorderStyle::NoBorder => 0,
            BorderStyle::Solid => 1,
            BorderStyle::Double => 2,
            BorderStyle::Dotted => 3,
            BorderStyle::Dashed => 4,
            BorderStyle::Hidden => 5,
            BorderStyle::Groove => 6,
            BorderStyle::Ridge => 7,
            BorderStyle::Inset => 8,
            BorderStyle::Outset => 9,
        };
        t.encode(sink)
    }

    fn decode(source: &mut Source) -> (r: Result<BorderStyle, DecodeError>)
        ensures
            old(source).rem().len() == 0 ==> r == Err::<BorderStyle, DecodeError>(
                DecodeError::UnexpectedEnd,
            ),
            old(source).rem().len() >= 1 && old(source).rem()[0] >= 10 ==> r == Err::<
                BorderStyle,
                DecodeError,
            >(DecodeError::UnknownVariant(UnionName::BorderStyle)),
            old(source).rem().len() >= 1 && old(source).rem()[0] < 10 ==> r is Ok,
            r matches Ok(v) ==> v.tag() == old(source).rem()[0],
    {
        let t: u8 = match u8::decode(source) {
            Ok(b) => b,
            Err(e) => return Err(e),
        };
        match t {
            0 => Ok(BorderStyle::NoBorder),
            1 => Ok(BorderStyle::Solid),
            2 => Ok(BorderStyle::Double),
            3 => Ok(BorderStyle::Dotted),
            4 => Ok(BorderStyle::Dashed),
            5 => Ok(BorderStyle::Hidden),
            6 => Ok(BorderStyle::Groove),
            7 => Ok(BorderStyle::Ridge),
            8 => Ok(BorderStyle::Inset),
            9 => Ok(BorderStyle::Outset),
            _ => Err(DecodeError::UnknownVariant(UnionName::BorderStyle)),
        }
    }
}

/// Discriminant density for border styles: every encoding is exactly the
/// variant's 0-based declaration index as one byte, and the ten declared
/// variants take the dense range below ten.
pub proof fn lemma_border_style_discriminant(v: BorderStyle)
    ensures
        v.wire().len() == 1,
        v.wire()[0] == v.tag(),
        v.tag() < 10,
{
}

/// One edge of a border: its width, color and style, encoded in that order.
#[derive(Clone, Copy, Debug, PartialEq, Eq, Structural)]
pub struct BorderSide {
    pub width: FloatBits,
    pub color: ColorF,
    pub style: BorderStyle,
}

impl Wire for BorderSide {
    open spec fn wire(&self) -> Seq<u8> {
        self.width.wire() + self.color.wire() + self.style.wire()
    }

    fn encode(&self, sink: &mut Sink) -> (r: Result<(), EncodeError>) {
        self.width.encode(sink)?;
        self.color.encode(sink)?;
        self.style.encode(sink)?;
        proof {
            assert(sink.bytes@ =~= old(sink).bytes@ + self.wire());
        }
        Ok(())
    }

    fn decode(source: &mut Source) -> (r: Result<BorderSide, DecodeError>)
        ensures
            r is Ok <==> old(source).rem().len() >= 21 && old(source).rem()[20] < 10,
            old(source).rem().len() >= 21 && old(source).rem()[20] >= 10 ==> r == Err::<
                BorderSide,
                DecodeError,
            >(DecodeError::UnknownVariant(UnionName::BorderStyle)),
            old(source).rem().len() < 21 ==> r == Err::<BorderSide, DecodeError>(
                DecodeError::UnexpectedEnd,
            ),
    {
        let ghost s0 = *source;
        let width = match FloatBits::decode(source) {
            Ok(v) => v,
            Err(e) => return Err(e),
        };
        proof {
            assert(source.rem() == s0.rem().skip(width.wire().len() as int));
        }
        let ghost s1 = *source;
        let color = match ColorF::decode(source) {
            Ok(v) => v,
            Err(e) => return Err(e),
        };
        proof {
            assert(source.rem() == s1.rem().skip(color.wire().len() as int));
        }
        let style = match BorderStyle::decode(source) {
            Ok(v) => v,
            Err(e) => return Err(e),
        };
        Ok(BorderSide { width, color, style })
    }
}

/// Whether a box shadow clips away its inside or its outside.
#[derive(Clone, Copy, Debug, PartialEq, Eq, Structural)]
pub enum BoxShadowClipMode {
    NoClip,
    Outset,
    Inset,
}

impl BoxShadowClipMode {
    /// The variant's 0-based position in declaration order: its wire
    /// discriminant.
    pub open spec fn tag(self) -> u8 {
        match self {
            BoxShadowClipMode::NoClip => 0,
            BoxShadowClipMode::Outset => 1,
            BoxShadowClipMode::Inset => 2,
        }
    }
}

impl Wire for BoxShadowClipMode {
    open spec fn wire(&self) -> Seq<u8> {
        byte(self.tag())
    }

    fn encode(&self, sink: &mut Sink) -> (r: Result<(), EncodeError>) {
        let t: u8 = match self {
            BoxShadowClipMode::NoClip => 0,
            BoxShadowClipMode::Outset => 1,
            BoxShadowClipMode::Inset => 2,
        };
        t.encode(sink)
    }

    fn decode(source: &mut Source) -> (r: Result<BoxShadowClipMode, DecodeError>)
        ensures
            old(source).rem().len() == 0 ==> r == Err::<BoxShadowClipMode, DecodeError>(
                DecodeError::UnexpectedEnd,
            ),
            old(source).rem().len() >= 1 && old(source).rem()[0] >= 3 ==> r == Err::<
                BoxShadowClipMode,
                DecodeError,
            >(DecodeError::UnknownVariant(UnionName::BoxShadowClipMode)),
            old(source).rem().len() >= 1 && old(source).rem()[0] < 3 ==> r is Ok,
            r matches Ok(v) ==> v.tag() == old(source).rem()[0],
    {
        let t: u8 = match u8::decode(source) {
            Ok(b) => b,
            Err(e) => return Err(e),
        };
        match t {
            0 => Ok(BoxShadowClipMode::NoClip),
            1 => Ok(BoxShadowClipMode::Outset),
            2 => Ok(BoxShadowClipMode::Inset),
            _ => Err(DecodeError::UnknownVariant(UnionName::BoxShadowClipMode)),
        }
    }
}

/// Discriminant density for box-shadow clip modes.
pub proof fn lemma_box_shadow_clip_mode_discriminant(v: BoxShadowClipMode)
    ensures
        v.wire().len() == 1,
        v.wire()[0] == v.tag(),
        v.tag() < 3,
{
}

// ---------------------------------------------------------------------------
// Identifier tuples
// ---------------------------------------------------------------------------

/// A stacking-context identifier: two positional 32-bit words.  Tuple
/// fields have no names; they are encoded purely by position.
#[derive(Clone, Copy, Debug, PartialEq, Eq, Hash, Structural)]
pub struct StackingContextId(pub u32, pub u32);

impl Wire for StackingContextId {
    open spec fn wire(&self) -> Seq<u8> {
        self.0.wire() + self.1.wire()
    }

    fn encode(&self, sink: &mut Sink) -> (r: Result<(), EncodeError>) {
        self.0.encode(sink)?;
        self.1.encode(sink)?;
        proof {
            assert(sink.bytes@ =~= old(sink).bytes@ + self.wire());
        }
        Ok(())
    }

    fn decode(source: &mut Source) -> (r: Result<StackingContextId, DecodeError>)
        ensures
            r is Ok <==> old(source).rem().len() >= 8,
            r is Err ==> r == Err::<StackingContextId, DecodeError>(DecodeError::UnexpectedEnd),
    {
        let ghost s0 = *source;
        let first: u32 = match u32::decode(source) {
            Ok(v) => v,
            Err(e) => return Err(e),
        };
        proof {
            assert(source.rem() == s0.rem().skip(first.wire().len() as int));
        }
        let second: u32 = match u32::decode(source) {
            Ok(v) => v,
            Err(e) => return Err(e),
        };
        Ok(StackingContextId(first, second))
    }
}

/// A display-list identifier: two positional 32-bit words.
#[derive(Clone, Copy, Debug, PartialEq, Eq, Hash, Structural)]
pub struct DisplayListId(pub u32, pub u32);

impl Wire for DisplayListId {
    open spec fn wire(&self) -> Seq<u8> {
        self.0.wire() + self.1.wire()
    }

    fn encode(&self, sink: &mut Sink) -> (r: Result<(), EncodeError>) {
        self.0.encode(sink)?;
        self.1.encode(sink)?;
        proof {
            assert(sink.bytes@ =~= old(sink).bytes@ + self.wire());
        }
        Ok(())
    }

    fn decode(source: &mut Source) -> (r: Result<DisplayListId, DecodeError>)
        ensures
            r is Ok <==> old(source).rem().len() >= 8,
            r is Err ==> r == Err::<DisplayListId, DecodeError>(DecodeError::UnexpectedEnd),
    {
        let ghost s0 = *source;
        let first: u32 = match u32::decode(source) {
            Ok(v) => v,
            Err(e) => return Err(e),
        };
        proof {
            assert(source.rem() == s0.rem().skip(first.wire().len() as int));
        }
        let second: u32 = match u32::decode(source) {
            Ok(v) => v,
            Err(e) => return Err(e),
        };
        Ok(DisplayListId(first, second))
    }
}

/// A generation counter for a pipeline's display lists.
#[derive(Clone, Copy, Debug, PartialEq, Eq, Hash, Structural)]
pub struct Epoch(pub u32);

impl Wire for Epoch {
    open spec fn wire(&self) -> Seq<u8> {
        self.0.wire()
    }

    fn encode(&self, sink: &mut Sink) -> (r: Result<(), EncodeError>) {
        self.0.encode(sink)
    }

    fn decode(source: &mut Source) -> (r: Result<Epoch, DecodeError>)
        ensures
            r is Ok <==> old(source).rem().len() >= 4,
            r is Err ==> r == Err::<Epoch, DecodeError>(DecodeError::UnexpectedEnd),
    {
        let value: u32 = match u32::decode(source) {
            Ok(v) => v,
            Err(e) => return Err(e),
        };
        Ok(Epoch(value))
    }
}

/// A font resource key: two positional 32-bit words.
#[derive(Clone, Copy, Debug, PartialEq, Eq, Hash, Structural)]
pub struct FontKey(pub u32, pub u32);

impl FontKey {
    pub fn new(key0: u32, key1: u32) -> (k: FontKey)
        ensures
            k == FontKey(key0, key1),
    {
        FontKey(key0, key1)
    }
}

impl Wire for FontKey {
    open spec fn wire(&self) -> Seq<u8> {
        self.0.wire() + self.1.wire()
    }

    fn encode(&self, sink: &mut Sink) -> (r: Result<(), EncodeError>) {
        self.0.encode(sink)?;
        self.1.encode(sink)?;
        proof {
            assert(sink.bytes@ =~= old(sink).bytes@ + self.wire());
        }
        Ok(())
    }

    fn decode(source: &mut Source) -> (r: Result<FontKey, DecodeError>)
        ensures
            r is Ok <==> old(source).rem().len() >= 8,
            r is Err ==> r == Err::<FontKey, DecodeError>(DecodeError::UnexpectedEnd),
    {
        let ghost s0 = *source;
        let first: u32 = match u32::decode(source) {
            Ok(v) => v,
            Err(e) => return Err(e),
        };
        proof {
            assert(source.rem() == s0.rem().skip(first.wire().len() as int));
        }
        let second: u32 = match u32::decode(source) {
            Ok(v) => v,
            Err(e) => return Err(e),
        };
        Ok(FontKey(first, second))
    }
}

/// An image resource key: two positional 32-bit words.
#[derive(Clone, Copy, Debug, PartialEq, Eq, Hash, Structural)]
pub struct ImageKey(pub u32, pub u32);

impl ImageKey {
    pub fn new(key0: u32, key1: u32) -> (k: ImageKey)
        ensures
            k == ImageKey(key0, key1),
    {
        ImageKey(key0, key1)
    }
}

impl Wire for ImageKey {
    open spec fn wire(&self) -> Seq<u8> {
        self.0.wire() + self.1.wire()
    }

    fn encode(&self, sink: &mut Sink) -> (r: Result<(), EncodeError>) {
        self.0.encode(sink)?;
        self.1.encode(sink)?;
        proof {
            assert(sink.bytes@ =~= old(sink).bytes@ + self.wire());
        }
        Ok(())
    }

    fn decode(source: &mut Source) -> (r: Result<ImageKey, DecodeError>)
        ensures
            r is Ok <==> old(source).rem().len() >= 8,
            r is Err ==> r == Err::<ImageKey, DecodeError>(DecodeError::UnexpectedEnd),
    {
        let ghost s0 = *source;
        let first: u32 = match u32::decode(source) {
            Ok(v) => v,
            Err(e) => return Err(e),
        };
        proof {
            assert(source.rem() == s0.rem().skip(first.wire().len() as int));
        }
        let second: u32 = match u32::decode(source) {
            Ok(v) => v,
            Err(e) => return Err(e),
        };
        Ok(ImageKey(first, second))
    }
}

/// A pipeline identifier: two positional 32-bit words.
#[derive(Clone, Copy, Debug, PartialEq, Eq, Hash, Structural)]
pub struct PipelineId(pub u32, pub u32);

impl Wire for PipelineId {
    open spec fn wire(&self) -> Seq<u8> {
        self.0.wire() + self.1.wire()
    }

    fn encode(&self, sink: &mut Sink) -> (r: Result<(), EncodeError>) {
        self.0.encode(sink)?;
        self.1.encode(sink)?;
        proof {
            assert(sink.bytes@ =~= old(sink).bytes@ + self.wire());
        }
        Ok(())
    }

    fn decode(source: &mut Source) -> (r: Result<PipelineId, DecodeError>)
        ensures
            r is Ok <==> old(source).rem().len() >= 8,
            r is Err ==> r == Err::<PipelineId, DecodeError>(DecodeError::UnexpectedEnd),
    {
        let ghost s0 = *source;
        let first: u32 = match u32::decode(source) {
            Ok(v) => v,
            Err(e) => return Err(e),
        };
        proof {
            assert(source.rem() == s0.rem().skip(first.wire().len() as int));
        }
        let second: u32 = match u32::decode(source) {
            Ok(v) => v,
            Err(e) => return Err(e),
        };
        Ok(PipelineId(first, second))
    }
}

/// Which generated fragment of an element a stacking context belongs to.
#[derive(Clone, Copy, Debug, PartialEq, Eq, Hash, Structural)]
pub enum FragmentType {
    FragmentBody,
    BeforePseudoContent,
    AfterPseudoContent,
}

impl FragmentType {
    /// The variant's 0-based position in declaration order: its wire
    /// discriminant.
    pub open spec fn tag(self) -> u8 {
        match self {
            FragmentType::FragmentBody => 0,
            FragmentType::BeforePseudoContent => 1,
            FragmentType::AfterPseudoContent => 2,
        }
    }
}

impl Wire for FragmentType {
    open spec fn wire(&self) -> Seq<u8> {
        byte(self.tag())
    }

    fn encode(&self, sink: &mut Sink) -> (r: Result<(), EncodeError>) {
        let t: u8 = match self {
            FragmentType::FragmentBody => 0,
            FragmentType::BeforePseudoContent => 1,
            FragmentType::AfterPseudoContent => 2,
        };
        t.encode(sink)
    }

    fn decode(source: &mut Source) -> (r: Result<FragmentType, DecodeError>)
        ensures
            old(source).rem().len() == 0 ==> r == Err::<FragmentType, DecodeError>(
                DecodeError::UnexpectedEnd,
            ),
            old(source).rem().len() >= 1 && old(source).rem()[0] >= 3 ==> r == Err::<
                FragmentType,
                DecodeError,
            >(DecodeError::UnknownVariant(UnionName::FragmentType)),
            old(source).rem().len() >= 1 && old(source).rem()[0] < 3 ==> r is Ok,
            r matches Ok(v) ==> v.tag() == old(source).rem()[0],
    {
        let t: u8 = match u8::decode(source) {
            Ok(b) => b,
            Err(e) => return Err(e),
        };
        match t {
            0 => Ok(FragmentType::FragmentBody),
            1 => Ok(FragmentType::BeforePseudoContent),
            2 => Ok(FragmentType::AfterPseudoContent),
            _ => Err(DecodeError::UnknownVariant(UnionName::FragmentType)),
        }
    }
}

/// Discriminant density for fragment types.
pub proof fn lemma_fragment_type_discriminant(v: FragmentType)
    ensures
        v.wire().len() == 1,
        v.wire()[0] == v.tag(),
        v.tag() < 3,
{
}

/// How a display list is positioned relative to its stacking context.
#[derive(Clone, Copy, Debug, PartialEq, Eq, Hash, Structural)]
pub enum DisplayListMode {
    Default,
    PseudoFloat,
    PseudoPositionedContent,
}

impl DisplayListMode {
    /// The variant's 0-based position in declaration order: its wire
    /// discriminant.
    pub open spec fn tag(self) -> u8 {
        match self {
            DisplayListMode::Default => 0,
            DisplayListMode::PseudoFloat => 1,
            DisplayListMode::PseudoPositionedContent => 2,
        }
    }
}

impl Wire for DisplayListMode {
    open spec fn wire(&self) -> Seq<u8> {
        byte(self.tag())
    }

    fn encode(&self, sink: &mut Sink) -> (r: Result<(), EncodeError>) {
        let t: u8 = match self {
            DisplayListMode::Default => 0,
            DisplayListMode::PseudoFloat => 1,
            DisplayListMode::PseudoPositionedContent => 2,
        };
        t.encode(sink)
    }

    fn decode(source: &mut Source) -> (r: Result<DisplayListMode, DecodeError>)
        ensures
            old(source).rem().len() == 0 ==> r == Err::<DisplayListMode, DecodeError>(
                DecodeError::UnexpectedEnd,
            ),
            old(source).rem().len() >= 1 && old(source).rem()[0] >= 3 ==> r == Err::<
                DisplayListMode,
                DecodeError,
            >(DecodeError::UnknownVariant(UnionName::DisplayListMode)),
            old(source).rem().len() >= 1 && old(source).rem()[0] < 3 ==> r is Ok,
            r matches Ok(v) ==> v.tag() == old(source).rem()[0],
    {
        let t: u8 = match u8::decode(source) {
            Ok(b) => b,
            Err(e) => return Err(e),
        };
        match t {
            0 => Ok(DisplayListMode::Default),
            1 => Ok(DisplayListMode::PseudoFloat),
            2 => Ok(DisplayListMode::PseudoPositionedContent),
            _ => Err(DecodeError::UnknownVariant(UnionName::DisplayListMode)),
        }
    }
}

/// Discriminant density for display-list modes.
pub proof fn lemma_display_list_mode_discriminant(v: DisplayListMode)
    ensures
        v.wire().len() == 1,
        v.wire()[0] == v.tag(),
        v.tag() < 3,
{
}

/// The pixel format of an image resource.
#[derive(Clone, Copy, Debug, PartialEq, Eq, Hash, Structural)]
pub enum ImageFormat {
    Invalid,
    A8,
    RGB8,
    RGBA8,
}

impl ImageFormat {
    /// The variant's 0-based position in declaration order: its wire
    /// discriminant.
    pub open spec fn tag(self) -> u8 {
        match self {
            ImageFormat::Invalid => 0,
            ImageFormat::A8 => 1,
            ImageFormat::RGB8 => 2,
            ImageFormat::RGBA8 => 3,
        }
    }
}

impl Wire for ImageFormat {
    open spec fn wire(&self) -> Seq<u8> {
        byte(self.tag())
    }

    fn encode(&self, sink: &mut Sink) -> (r: Result<(), EncodeError>) {
        let t: u8 = match self {
            ImageFormat::Invalid => 0,
            ImageFormat::A8 => 1,
            ImageFormat::RGB8 => 2,
            ImageFormat::RGBA8 => 3,
        };
        t.encode(sink)
    }

    fn decode(source: &mut Source) -> (r: Result<ImageFormat, DecodeError>)
        ensures
            old(source).rem().len() == 0 ==> r == Err::<ImageFormat, DecodeError>(
                DecodeError::UnexpectedEnd,
            ),
            old(source).rem().len() >= 1 && old(source).rem()[0] >= 4 ==> r == Err::<
                ImageFormat,
                DecodeError,
            >(DecodeError::UnknownVariant(UnionName::ImageFormat)),
            old(source).rem().len() >= 1 && old(source).rem()[0] < 4 ==> r is Ok,
            r matches Ok(v) ==> v.tag() == old(source).rem()[0],
    {
        let t: u8 = match u8::decode(source) {
            Ok(b) => b,
            Err(e) => return Err(e),
        };
        match t {
            0 => Ok(ImageFormat::Invalid),
            1 => Ok(ImageFormat::A8),
            2 => Ok(ImageFormat::RGB8),
            3 => Ok(ImageFormat::RGBA8),
            _ => Err(DecodeError::UnknownVariant(UnionName::ImageFormat)),
        }
    }
}

/// Discriminant density for image formats.
pub proof fn lemma_image_format_discriminant(v: ImageFormat)
    ensures
        v.wire().len() == 1,
        v.wire()[0] == v.tag(),
        v.tag() < 4,
{
}

/// How an image is resampled when it is scaled.
#[derive(Clone, Copy, Debug, PartialEq, Eq, Hash, Structural)]
pub enum ImageRendering {
    Auto,
    CrispEdges,
    Pixelated,
}

impl ImageRendering {
    /// The variant's 0-based position in declaration order: its wire
    /// discriminant.
    pub open spec fn tag(self) -> u8 {
        match self {
            ImageRendering::Auto => 0,
            ImageRendering::CrispEdges => 1,
            ImageRendering::Pixelated => 2,
        }
    }
}

impl Wire for ImageRendering {
    open spec fn wire(&self) -> Seq<u8> {
        byte(self.tag())
    }

    fn encode(&self, sink: &mut Sink) -> (r: Result<(), EncodeError>) {
        let t: u8 = match self {
            ImageRendering::Auto => 0,
            ImageRendering::CrispEdges => 1,
            ImageRendering::Pixelated => 2,
        };
        t.encode(sink)
    }

    fn decode(source: &mut Source) -> (r: Result<ImageRendering, DecodeError>)
        ensures
            old(source).rem().len() == 0 ==> r == Err::<ImageRendering, DecodeError>(
                DecodeError::UnexpectedEnd,
            ),
            old(source).rem().len() >= 1 && old(source).rem()[0] >= 3 ==> r == Err::<
                ImageRendering,
                DecodeError,
            >(DecodeError::UnknownVariant(UnionName::ImageRendering)),
            old(source).rem().len() >= 1 && old(source).rem()[0] < 3 ==> r is Ok,
            r matches Ok(v) ==> v.tag() == old(source).rem()[0],
    {
        let t: u8 = match u8::decode(source) {
            Ok(b) => b,
            Err(e) => return Err(e),
        };
        match t {
            0 => Ok(ImageRendering::Auto),
            1 => Ok(ImageRendering::CrispEdges),
            2 => Ok(ImageRendering::Pixelated),
            _ => Err(DecodeError::UnknownVariant(UnionName::ImageRendering)),
        }
    }
}

/// Discriminant density for image rendering modes.
pub proof fn lemma_image_rendering_discriminant(v: ImageRendering)
    ensures
        v.wire().len() == 1,
        v.wire()[0] == v.tag(),
        v.tag() < 3,
{
}

/// How a stacking context blends with what lies behind it.
#[derive(Clone, Copy, Debug, PartialEq, Eq, Hash, Structural)]
pub enum MixBlendMode {
    Normal,
    Multiply,
    Screen,
    Overlay,
    Darken,
    Lighten,
    ColorDodge,
    ColorBurn,
    HardLight,
    SoftLight,
    Difference,
    Exclusion,
    Hue,
    Saturation,
    Color,
    Luminosity,
}

impl MixBlendMode {
    /// The variant's 0-based position in declaration order: its wire
    /// discriminant.
    pub open spec fn tag(self) -> u8 {
        match self {
            MixBlendMode::Normal => 0,
            MixBlendMode::Multiply => 1,
            MixBlendMode::Screen => 2,
            MixBlendMode::Overlay => 3,
            MixBlendMode::Darken => 4,
            MixBlendMode::Lighten => 5,
            MixBlendMode::ColorDodge => 6,
            MixBlendMode::ColorBurn => 7,
            MixBlendMode::HardLight => 8,
            MixBlendMode::SoftLight => 9,
            MixBlendMode::Difference => 10,
            MixBlendMode::Exclusion => 11,
            MixBlendMode::Hue => 12,
            MixBlendMode::Saturation => 13,
            MixBlendMode::Color => 14,
            MixBlendMode::Luminosity => 15,
        }
    }
}

impl Wire for MixBlendMode {
    open spec fn wire(&self) -> Seq<u8> {
        byte(self.tag())
    }

    fn encode(&self, sink: &mut Sink) -> (r: Result<(), EncodeError>) {
        let t: u8 = match self {
            MixBlendMode::Normal => 0,
            MixBlendMode::Multiply => 1,
            MixBlendMode::Screen => 2,
            MixBlendMode::Overlay => 3,
            MixBlendMode::Darken => 4,
            MixBlendMode::Lighten => 5,
            MixBlendMode::ColorDodge => 6,
            MixBlendMode::ColorBurn => 7,
            MixBlendMode::HardLight => 8,
            MixBlendMode::SoftLight => 9,
            MixBlendMode::Difference => 10,
            MixBlendMode::Exclusion => 11,
            MixBlendMode::Hue => 12,
            MixBlendMode::Saturation => 13,
            MixBlendMode::Color => 14,
            MixBlendMode::Luminosity => 15,
        };
        t.encode(sink)
    }

    fn decode(source: &mut Source) -> (r: Result<MixBlendMode, DecodeError>)
        ensures
            old(source).rem().len() == 0 ==> r == Err::<MixBlendMode, DecodeError>(
                DecodeError::UnexpectedEnd,
            ),
            old(source).rem().len() >= 1 && old(source).rem()[0] >= 16 ==> r == Err::<
                MixBlendMode,
                DecodeError,
            >(DecodeError::UnknownVariant(UnionName::MixBlendMode)),
            old(source).rem().len() >= 1 && old(source).rem()[0] < 16 ==> r is Ok,
            r matches Ok(v) ==> v.tag() == old(source).rem()[0],
    {
        let t: u8 = match u8::decode(source) {
            Ok(b) => b,
            Err(e) => return Err(e),
        };
        match t {
            0 => Ok(MixBlendMode::Normal),
            1 => Ok(MixBlendMode::Multiply),
            2 => Ok(MixBlendMode::Screen),
            3 => Ok(MixBlendMode::Overlay),
            4 => Ok(MixBlendMode::Darken),
            5 => Ok(MixBlendMode::Lighten),
            6 => Ok(MixBlendMode::ColorDodge),
            7 => Ok(MixBlendMode::ColorBurn),
            8 => Ok(MixBlendMode::HardLight),
            9 => Ok(MixBlendMode::SoftLight),
            10 => Ok(MixBlendMode::Difference),
            11 => Ok(MixBlendMode::Exclusion),
            12 => Ok(MixBlendMode::Hue),
            13 => Ok(MixBlendMode::Saturation),
            14 => Ok(MixBlendMode::Color),
            15 => Ok(MixBlendMode::Luminosity),
            _ => Err(DecodeError::UnknownVariant(UnionName::MixBlendMode)),
        }
    }
}

/// Discriminant density for blend modes.
pub proof fn lemma_mix_blend_mode_discriminant(v: MixBlendMode)
    ensures
        v.wire().len() == 1,
        v.wire()[0] == v.tag(),
        v.tag() < 16,
{
}

/// Whether a layer scrolls with its content or stays fixed.
#[derive(Clone, Copy, Debug, PartialEq, Eq, Structural)]
pub enum ScrollPolicy {
    Scrollable,
    Fixed,
}

impl ScrollPolicy {
    /// The variant's 0-based position in declaration order: its wire
    /// discriminant.
    pub open spec fn tag(self) -> u8 {
        match self {
            ScrollPolicy::Scrollable => 0,
            ScrollPolicy::Fixed => 1,
        }
    }
}

impl Wire for ScrollPolicy {
    open spec fn wire(&self) -> Seq<u8> {
        byte(self.tag())
    }

    fn encode(&self, sink: &mut Sink) -> (r: Result<(), EncodeError>) {
        let t: u8 = match self {
            ScrollPolicy::Scrollable => 0,
            ScrollPolicy::Fixed => 1,
        };
        t.encode(sink)
    }

    fn decode(source: &mut Source) -> (r: Result<ScrollPolicy, DecodeError>)
        ensures
            old(source).rem().len() == 0 ==> r == Err::<ScrollPolicy, DecodeError>(
                DecodeError::UnexpectedEnd,
            ),
            old(source).rem().len() >= 1 && old(source).rem()[0] >= 2 ==> r == Err::<
                ScrollPolicy,
                DecodeError,
            >(DecodeError::UnknownVariant(UnionName::ScrollPolicy)),
            old(source).rem().len() >= 1 && old(source).rem()[0] < 2 ==> r is Ok,
            r matches Ok(v) ==> v.tag() == old(source).rem()[0],
    {
        let t: u8 = match u8::decode(source) {
            Ok(b) => b,
            Err(e) => return Err(e),
        };
        match t {
            0 => Ok(ScrollPolicy::Scrollable),
            1 => Ok(ScrollPolicy::Fixed),
            _ => Err(DecodeError::UnknownVariant(UnionName::ScrollPolicy)),
        }
    }
}

/// Discriminant density for scroll policies.
pub proof fn lemma_scroll_policy_discriminant(v: ScrollPolicy)
    ensures
        v.wire().len() == 1,
        v.wire()[0] == v.tag(),
        v.tag() < 2,
{
}

// ---------------------------------------------------------------------------
// Out-of-line ranges and the auxiliary-lists builder
// ---------------------------------------------------------------------------

/// A handle to a variable-length run stored out of line in an auxiliary
/// list: its start index and length there.  The handle itself is fixed
/// size, so items that embed one stay fixed size on the wire.
#[derive(Clone, Copy, Debug, PartialEq, Eq, Hash, Structural)]
pub struct ItemRange {
    pub start: usize,
    pub length: usize,
}

impl Wire for ItemRange {
    open spec fn wire(&self) -> Seq<u8> {
        self.start.wire() + self.length.wire()
    }

    fn encode(&self, sink: &mut Sink) -> (r: Result<(), EncodeError>) {
        self.start.encode(sink)?;
        self.length.encode(sink)?;
        proof {
            assert(sink.bytes@ =~= old(sink).bytes@ + self.wire());
        }
        Ok(())
    }

    fn decode(source: &mut Source) -> (r: Result<ItemRange, DecodeError>) {
        let ghost s0 = *source;
        let start: usize = match usize::decode(source) {
            Ok(v) => v,
            Err(e) => return Err(e),
        };
        proof {
            assert(source.rem() == s0.rem().skip(start.wire().len() as int));
        }
        let length: usize = match usize::decode(source) {
            Ok(v) => v,
            Err(e) => return Err(e),
        };
        Ok(ItemRange { start, length })
    }
}

/// Collects the variable-length runs that display items refer to by
/// [`ItemRange`] handles.  Only the complex clip regions are collected
/// here; the builder hands each added run a handle to where it was stored.
pub struct AuxiliaryListsBuilder {
    pub complex_clip_regions: Vec<ComplexClipRegion>,
}

impl AuxiliaryListsBuilder {
    pub fn new() -> (b: AuxiliaryListsBuilder)
        ensures
            b.complex_clip_regions@ == Seq::<ComplexClipRegion>::empty(),
    {
        AuxiliaryListsBuilder { complex_clip_regions: Vec::new() }
    }

    /// Append the given runs to the out-of-line storage and hand back the
    /// range they occupy there.
    pub fn add_complex_clip_regions(&mut self, regions: &Vec<ComplexClipRegion>) -> (r: ItemRange)
        ensures
            final(self).complex_clip_regions@ == old(self).complex_clip_regions@ + regions@,
            r.start == old(self).complex_clip_regions@.len(),
            r.length == regions@.len(),
    {
        let start: usize = self.complex_clip_regions.len();
        let n: usize = regions.len();
        proof {
            assert(old(self).complex_clip_regions@ + regions@.subrange(0, 0) =~= old(
                self,
            ).complex_clip_regions@);
        }
        let mut i: usize = 0;
        while i < n
            invariant
                i <= n,
                n == regions@.len(),
                self.complex_clip_regions@ == old(self).complex_clip_regions@
                    + regions@.subrange(0, i as int),
            decreases n - i,
        {
            self.complex_clip_regions.push(regions[i]);
            i = i + 1;
            proof {
                assert(old(self).complex_clip_regions@ + regions@.subrange(0, i as int) =~= (old(
                    self,
                ).complex_clip_regions@ + regions@.subrange(0, i - 1)).push(regions@[i - 1]));
            }
        }
        proof {
            assert(regions@.subrange(0, n as int) =~= regions@);
        }
        ItemRange { start, length: n }
    }
}

// ---------------------------------------------------------------------------
// Clip regions
// ---------------------------------------------------------------------------

/// A rounded-corner rectangle used to clip: its boundary and corner radii.
#[derive(Clone, Copy, Debug, PartialEq, Eq, Structural)]
pub struct ComplexClipRegion {
    /// The boundaries of the rectangle.
    pub rect: Rect,
    /// Border radii of this rectangle.
    pub radii: BorderRadius,
}

impl ComplexClipRegion {
    pub fn new(rect: Rect, radii: BorderRadius) -> (c: ComplexClipRegion)
        ensures
            c == (ComplexClipRegion { rect, radii }),
    {
        ComplexClipRegion { rect, radii }
    }
}

impl Wire for ComplexClipRegion {
    open spec fn wire(&self) -> Seq<u8> {
        self.rect.wire() + self.radii.wire()
    }

    fn encode(&self, sink: &mut Sink) -> (r: Result<(), EncodeError>) {
        self.rect.encode(sink)?;
        self.radii.encode(sink)?;
        proof {
            assert(sink.bytes@ =~= old(sink).bytes@ + self.wire());
        }
        Ok(())
    }

    fn decode(source: &mut Source) -> (r: Result<ComplexClipRegion, DecodeError>) {
        let ghost s0 = *source;
        let rect = match Rect::decode(source) {
            Ok(v) => v,
            Err(e) => return Err(e),
        };
        proof {
            assert(source.rem() == s0.rem().skip(rect.wire().len() as int));
        }
        let radii = match BorderRadius::decode(source) {
            Ok(v) => v,
            Err(e) => return Err(e),
        };
        Ok(ComplexClipRegion { rect, radii })
    }
}

/// The clip of a display item: its main rectangle and a handle to its
/// out-of-line complex clip regions.
#[derive(Clone, Copy, Debug, PartialEq, Eq, Structural)]
pub struct ClipRegion {
    pub main: Rect,
    pub complex: ItemRange,
}

impl ClipRegion {
    /// Store the complex regions out of line through the builder and keep
    /// only the fixed-size handle to them beside the main rectangle.
    pub fn new(
        rect: &Rect,
        complex: Vec<ComplexClipRegion>,
        auxiliary_lists_builder: &mut AuxiliaryListsBuilder,
    ) -> (c: ClipRegion)
        ensures
            c.main == *rect,
            c.complex.start == old(auxiliary_lists_builder).complex_clip_regions@.len(),
            c.complex.length == complex@.len(),
            final(auxiliary_lists_builder).complex_clip_regions@ == old(
                auxiliary_lists_builder,
            ).complex_clip_regions@ + complex@,
    {
        ClipRegion { main: *rect, complex: auxiliary_lists_builder.add_complex_clip_regions(&complex) }
    }
}

impl Wire for ClipRegion {
    open spec fn wire(&self) -> Seq<u8> {
        self.main.wire() + self.complex.wire()
    }

    fn encode(&self, sink: &mut Sink) -> (r: Result<(), EncodeError>) {
        self.main.encode(sink)?;
        self.complex.encode(sink)?;
        proof {
            assert(sink.bytes@ =~= old(sink).bytes@ + self.wire());
        }
        Ok(())
    }

    fn decode(source: &mut Source) -> (r: Result<ClipRegion, DecodeError>) {
        let ghost s0 = *source;
        let main = match Rect::decode(source) {
            Ok(v) => v,
            Err(e) => return Err(e),
        };
        proof {
            assert(source.rem() == s0.rem().skip(main.wire().len() as int));
        }
        let complex = match ItemRange::decode(source) {
            Ok(v) => v,
            Err(e) => return Err(e),
        };
        Ok(ClipRegion { main, complex })
    }
}

// ---------------------------------------------------------------------------
// Glyphs, gradients and filters
// ---------------------------------------------------------------------------

/// One positioned glyph of a text run.
#[derive(Clone, Copy, Debug, PartialEq, Eq, Structural)]
pub struct GlyphInstance {
    pub index: u32,
    pub x: FloatBits,
    pub y: FloatBits,
}

impl Wire for GlyphInstance {
    open spec fn wire(&self) -> Seq<u8> {
        self.index.wire() + self.x.wire() + self.y.wire()
    }

    fn encode(&self, sink: &mut Sink) -> (r: Result<(), EncodeError>) {
        self.index.encode(sink)?;
        self.x.encode(sink)?;
        self.y.encode(sink)?;
        proof {
            assert(sink.bytes@ =~= old(sink).bytes@ + self.wire());
        }
        Ok(())
    }

    fn decode(source: &mut Source) -> (r: Result<GlyphInstance, DecodeError>)
        ensures
            r is Ok <==> old(source).rem().len() >= 12,
            r is Err ==> r == Err::<GlyphInstance, DecodeError>(DecodeError::UnexpectedEnd),
    {
        let ghost s0 = *source;
        let index: u32 = match u32::decode(source) {
            Ok(v) => v,
            Err(e) => return Err(e),
        };
        proof {
            assert(source.rem() == s0.rem().skip(index.wire().len() as int));
        }
        let ghost s1 = *source;
        let x = match FloatBits::decode(source) {
            Ok(v) => v,
            Err(e) => return Err(e),
        };
        proof {
            assert(source.rem() == s1.rem().skip(x.wire().len() as int));
        }
        let y = match FloatBits::decode(source) {
            Ok(v) => v,
            Err(e) => return Err(e),
        };
        Ok(GlyphInstance { index, x, y })
    }
}

/// One color stop of a gradient.
#[derive(Clone, Copy, Debug, PartialEq, Eq, Structural)]
pub struct GradientStop {
    pub offset: FloatBits,
    pub color: ColorF,
}

impl Wire for GradientStop {
    open spec fn wire(&self) -> Seq<u8> {
        self.offset.wire() + self.color.wire()
    }

    fn encode(&self, sink: &mut Sink) -> (r: Result<(), EncodeError>) {
        self.offset.encode(sink)?;
        self.color.encode(sink)?;
        proof {
            assert(sink.bytes@ =~= old(sink).bytes@ + self.wire());
        }
        Ok(())
    }

    fn decode(source: &mut Source) -> (r: Result<GradientStop, DecodeError>)
        ensures
            r is Ok <==> old(source).rem().len() >= 20,
            r is Err ==> r == Err::<GradientStop, DecodeError>(DecodeError::UnexpectedEnd),
    {
        let ghost s0 = *source;
        let offset = match FloatBits::decode(source) {
            Ok(v) => v,
            Err(e) => return Err(e),
        };
        proof {
            assert(source.rem() == s0.rem().skip(offset.wire().len() as int));
        }
        let color = match ColorF::decode(source) {
            Ok(v) => v,
            Err(e) => return Err(e),
        };
        Ok(GradientStop { offset, color })
    }
}

/// A filter applied to a stacking context.  The blur radius is a length in
/// app units; every other variant carries one single-precision amount as
/// its bit pattern.
#[derive(Clone, Copy, Debug, PartialEq, Eq, Structural)]
pub enum FilterOp {
    Blur(Au),
    Brightness(FloatBits),
    Contrast(FloatBits),
    Grayscale(FloatBits),
    HueRotate(FloatBits),
    Invert(FloatBits),
    Opacity(FloatBits),
    Saturate(FloatBits),
    Sepia(FloatBits),
}

impl FilterOp {
    /// The variant's 0-based position in declaration order: its wire
    /// discriminant.
    pub open spec fn tag(self) -> u8 {
        match self {
            FilterOp::Blur(_) => 0,
            FilterOp::Brightness(_) => 1,
            FilterOp::Contrast(_) => 2,
            FilterOp::Grayscale(_) => 3,
            FilterOp::HueRotate(_) => 4,
            FilterOp::Invert(_) => 5,
            FilterOp::Opacity(_) => 6,
            FilterOp::Saturate(_) => 7,
            FilterOp::Sepia(_) => 8,
        }
    }
}

impl Wire for FilterOp {
    open spec fn wire(&self) -> Seq<u8> {
        match *self {
            FilterOp::Blur(amount) => byte(0) + amount.wire(),
            FilterOp::Brightness(amount) => byte(1) + amount.wire(),
            FilterOp::Contrast(amount) => byte(2) + amount.wire(),
            FilterOp::Grayscale(amount) => byte(3) + amount.wire(),
            FilterOp::HueRotate(amount) => byte(4) + amount.wire(),
            FilterOp::Invert(amount) => byte(5) + amount.wire(),
            FilterOp::Opacity(amount) => byte(6) + amount.wire(),
            FilterOp::Saturate(amount) => byte(7) + amount.wire(),
            FilterOp::Sepia(amount) => byte(8) + amount.wire(),
        }
    }

    fn encode(&self, sink: &mut Sink) -> (r: Result<(), EncodeError>) {
        match self {
            FilterOp::Blur(amount) => {
                let t: u8 = 0;
                t.encode(sink)?;
                amount.encode(sink)?;
            },
            FilterOp::Brightness(amount) => {
                let t: u8 = 1;
                t.encode(sink)?;
                amount.encode(sink)?;
            },
            FilterOp::Contrast(amount) => {
                let t: u8 = 2;
                t.encode(sink)?;
                amount.encode(sink)?;
            },
            FilterOp::Grayscale(amount) => {
                let t: u8 = 3;
                t.encode(sink)?;
                amount.encode(sink)?;
            },
            FilterOp::HueRotate(amount) => {
                let t: u8 = 4;
                t.encode(sink)?;
                amount.encode(sink)?;
            },
            FilterOp::Invert(amount) => {
                let t: u8 = 5;
                t.encode(sink)?;
                amount.encode(sink)?;
            },
            FilterOp::Opacity(amount) => {
                let t: u8 = 6;
                t.encode(sink)?;
                amount.encode(sink)?;
            },
            FilterOp::Saturate(amount) => {
                let t: u8 = 7;
                t.encode(sink)?;
                amount.encode(sink)?;
            },
            FilterOp::Sepia(amount) => {
                let t: u8 = 8;
                t.encode(sink)?;
                amount.encode(sink)?;
            },
        }
        proof {
            assert(sink.bytes@ =~= old(sink).bytes@ + self.wire());
        }
        Ok(())
    }

    fn decode(source: &mut Source) -> (r: Result<FilterOp, DecodeError>)
        ensures
            old(source).rem().len() == 0 ==> r == Err::<FilterOp, DecodeError>(
                DecodeError::UnexpectedEnd,
            ),
            old(source).rem().len() >= 1 && old(source).rem()[0] >= 9 ==> r == Err::<
                FilterOp,
                DecodeError,
            >(DecodeError::UnknownVariant(UnionName::FilterOp)),
            r matches Ok(v) ==> v.tag() == old(source).rem()[0],
    {
        let ghost s0 = *source;
        let t: u8 = match u8::decode(source) {
            Ok(b) => b,
            Err(e) => return Err(e),
        };
        proof {
            assert(source.rem() == s0.rem().skip(1));
        }
        match t {
            0 => {
                let amount = match Au::decode(source) {
                    Ok(v) => v,
                    Err(e) => return Err(e),
                };
                Ok(FilterOp::Blur(amount))
            },
            1 => {
                let amount = match FloatBits::decode(source) {
                    Ok(v) => v,
                    Err(e) => return Err(e),
                };
                Ok(FilterOp::Brightness(amount))
            },
            2 => {
                let amount = match FloatBits::decode(source) {
                    Ok(v) => v,
                    Err(e) => return Err(e),
                };
                Ok(FilterOp::Contrast(amount))
            },
            3 => {
                let amount = match FloatBits::decode(source) {
                    Ok(v) => v,
                    Err(e) => return Err(e),
                };
                Ok(FilterOp::Grayscale(amount))
            },
            4 => {
                let amount = match FloatBits::decode(source) {
                    Ok(v) => v,
                    Err(e) => return Err(e),
                };
                Ok(FilterOp::HueRotate(amount))
            },
            5 => {
                let amount = match FloatBits::decode(source) {
                    Ok(v) => v,
                    Err(e) => return Err(e),
                };
                Ok(FilterOp::Invert(amount))
            },
            6 => {
                let amount = match FloatBits::decode(source) {
                    Ok(v) => v,
                    Err(e) => return Err(e),
                };
                Ok(FilterOp::Opacity(amount))
            },
            7 => {
                let amount = match FloatBits::decode(source) {
                    Ok(v) => v,
                    Err(e) => return Err(e),
                };
                Ok(FilterOp::Saturate(amount))
            },
            8 => {
                let amount = match FloatBits::decode(source) {
                    Ok(v) => v,
                    Err(e) => return Err(e),
                };
                Ok(FilterOp::Sepia(amount))
            },
            _ => Err(DecodeError::UnknownVariant(UnionName::FilterOp)),
        }
    }
}

/// Discriminant density for filters: every encoding begins with the
/// variant's 0-based declaration index, and the nine declared variants take
/// the dense range below nine.
pub proof fn lemma_filter_op_discriminant(v: FilterOp)
    ensures
        v.wire().len() >= 1,
        v.wire()[0] == v.tag(),
        v.tag() < 9,
{
}

// ---------------------------------------------------------------------------
// Fonts
// ---------------------------------------------------------------------------

/// Native font handles carry no data in this build: every font travels as
/// raw bytes.  A build that does carry a platform handle keeps the same
/// zero-byte wire shape, so the wire contract is identical across
/// configurations.
#[derive(Clone, Copy, Debug, PartialEq, Eq, Structural)]
pub struct NativeFontHandle;

impl Wire for NativeFontHandle {
    open spec fn wire(&self) -> Seq<u8> {
        Seq::<u8>::empty()
    }

    fn encode(&self, sink: &mut Sink) -> (r: Result<(), EncodeError>) {
        if sink.bytes.len() <= sink.limit {
            proof {
                assert(sink.bytes@ + Seq::<u8>::empty() =~= sink.bytes@);
            }
            Ok(())
        } else {
            Err(EncodeError::SinkFull)
        }
    }

    fn decode(source: &mut Source) -> (r: Result<NativeFontHandle, DecodeError>)
        ensures
            r == Ok::<NativeFontHandle, DecodeError>(NativeFontHandle),
    {
        proof {
            assert(source.rem().subrange(0, 0) =~= Seq::<u8>::empty());
        }
        Ok(NativeFontHandle)
    }
}

// ---------------------------------------------------------------------------
// Scroll layers
// ---------------------------------------------------------------------------

/// What a scroll layer is: fixed to the viewport, or scrollable with its
/// 0-based index among the scrollable layers.
#[derive(Clone, Copy, Debug, PartialEq, Eq, Hash, Structural)]
pub enum ScrollLayerInfo {
    Fixed,
    Scrollable(usize),
}

impl ScrollLayerInfo {
    /// The variant's 0-based position in declaration order: its wire
    /// discriminant.
    pub open spec fn tag(self) -> u8 {
        match self {
            ScrollLayerInfo::Fixed => 0,
            ScrollLayerInfo::Scrollable(_) => 1,
        }
    }
}

impl Wire for ScrollLayerInfo {
    open spec fn wire(&self) -> Seq<u8> {
        match *self {
            ScrollLayerInfo::Fixed => byte(0),
            ScrollLayerInfo::Scrollable(index) => byte(1) + index.wire(),
        }
    }

    fn encode(&self, sink: &mut Sink) -> (r: Result<(), EncodeError>) {
        match self {
            ScrollLayerInfo::Fixed => {
                let t: u8 = 0;
                t.encode(sink)?;
            },
            ScrollLayerInfo::Scrollable(index) => {
                let t: u8 = 1;
                t.encode(sink)?;
                index.encode(sink)?;
            },
        }
        proof {
            assert(sink.bytes@ =~= old(sink).bytes@ + self.wire());
        }
        Ok(())
    }

    fn decode(source: &mut Source) -> (r: Result<ScrollLayerInfo, DecodeError>)
        ensures
            old(source).rem().len() == 0 ==> r == Err::<ScrollLayerInfo, DecodeError>(
                DecodeError::UnexpectedEnd,
            ),
            old(source).rem().len() >= 1 && old(source).rem()[0] >= 2 ==> r == Err::<
                ScrollLayerInfo,
                DecodeError,
            >(DecodeError::UnknownVariant(UnionName::ScrollLayerInfo)),
            r matches Ok(v) ==> v.tag() == old(source).rem()[0],
    {
        let ghost s0 = *source;
        let t: u8 = match u8::decode(source) {
            Ok(b) => b,
            Err(e) => return Err(e),
        };
        proof {
            assert(source.rem() == s0.rem().skip(1));
        }
        match t {
            0 => Ok(ScrollLayerInfo::Fixed),
            1 => {
                let index: usize = match usize::decode(source) {
                    Ok(v) => v,
                    Err(e) => return Err(e),
                };
                Ok(ScrollLayerInfo::Scrollable(index))
            },
            _ => Err(DecodeError::UnknownVariant(UnionName::ScrollLayerInfo)),
        }
    }
}

/// Discriminant density for scroll-layer kinds, and the unit variant's
/// zero payload: the fixed kind is exactly its one discriminant byte.
pub proof fn lemma_scroll_layer_info_discriminant(v: ScrollLayerInfo)
    ensures
        v.wire().len() >= 1,
        v.wire()[0] == v.tag(),
        v.tag() < 2,
        v is Fixed ==> v.wire().len() == 1,
{
}

/// A scroll layer within one pipeline.
#[derive(Clone, Copy, Debug, PartialEq, Eq, Hash, Structural)]
pub struct ScrollLayerId {
    pub pipeline_id: PipelineId,
    pub info: ScrollLayerInfo,
}

impl ScrollLayerId {
    pub fn new(pipeline_id: PipelineId, index: usize) -> (s: ScrollLayerId)
        ensures
            s == (ScrollLayerId { pipeline_id, info: ScrollLayerInfo::Scrollable(index) }),
    {
        ScrollLayerId { pipeline_id, info: ScrollLayerInfo::Scrollable(index) }
    }

    pub fn create_fixed(pipeline_id: PipelineId) -> (s: ScrollLayerId)
        ensures
            s == (ScrollLayerId { pipeline_id, info: ScrollLayerInfo::Fixed }),
    {
        ScrollLayerId { pipeline_id, info: ScrollLayerInfo::Fixed }
    }
}

impl Wire for ScrollLayerId {
    open spec fn wire(&self) -> Seq<u8> {
        self.pipeline_id.wire() + self.info.wire()
    }

    fn encode(&self, sink: &mut Sink) -> (r: Result<(), EncodeError>) {
        self.pipeline_id.encode(sink)?;
        self.info.encode(sink)?;
        proof {
            assert(sink.bytes@ =~= old(sink).bytes@ + self.wire());
        }
        Ok(())
    }

    fn decode(source: &mut Source) -> (r: Result<ScrollLayerId, DecodeError>) {
        let ghost s0 = *source;
        let pipeline_id = match PipelineId::decode(source) {
            Ok(v) => v,
            Err(e) => return Err(e),
        };
        proof {
            assert(source.rem() == s0.rem().skip(pipeline_id.wire().len() as int));
        }
        let info = match ScrollLayerInfo::decode(source) {
            Ok(v) => v,
            Err(e) => return Err(e),
        };
        Ok(ScrollLayerId { pipeline_id, info })
    }
}

/// A stacking-context identifier as the layout side names one: which
/// generated fragment it is for, and a positional index.
#[derive(Clone, Copy, Debug, PartialEq, Eq, Hash, Structural)]
pub struct ServoStackingContextId(pub FragmentType, pub usize);

impl Wire for ServoStackingContextId {
    open spec fn wire(&self) -> Seq<u8> {
        self.0.wire() + self.1.wire()
    }

    fn encode(&self, sink: &mut Sink) -> (r: Result<(), EncodeError>) {
        self.0.encode(sink)?;
        self.1.encode(sink)?;
        proof {
            assert(sink.bytes@ =~= old(sink).bytes@ + self.wire());
        }
        Ok(())
    }

    fn decode(source: &mut Source) -> (r: Result<ServoStackingContextId, DecodeError>) {
        let ghost s0 = *source;
        let fragment_type = match FragmentType::decode(source) {
            Ok(v) => v,
            Err(e) => return Err(e),
        };
        proof {
            assert(source.rem() == s0.rem().skip(fragment_type.wire().len() as int));
        }
        let index: usize = match usize::decode(source) {
            Ok(v) => v,
            Err(e) => return Err(e),
        };
        Ok(ServoStackingContextId(fragment_type, index))
    }
}

/// Where one scroll layer currently stands: which pipeline and stacking
/// context it belongs to, and its scroll offset.
#[derive(Clone, Copy, Debug, PartialEq, Eq, Structural)]
pub struct ScrollLayerState {
    pub pipeline_id: PipelineId,
    pub stacking_context_id: ServoStackingContextId,
    pub scroll_offset: Point2D,
}

impl Wire for ScrollLayerState {
    open spec fn wire(&self) -> Seq<u8> {
        self.pipeline_id.wire() + self.stacking_context_id.wire() + self.scroll_offset.wire()
    }

    fn encode(&self, sink: &mut Sink) -> (r: Result<(), EncodeError>) {
        self.pipeline_id.encode(sink)?;
        self.stacking_context_id.encode(sink)?;
        self.scroll_offset.encode(sink)?;
        proof {
            assert(sink.bytes@ =~= old(sink).bytes@ + self.wire());
        }
        Ok(())
    }

    fn decode(source: &mut Source) -> (r: Result<ScrollLayerState, DecodeError>) {
        let ghost s0 = *source;
        let pipeline_id = match PipelineId::decode(source) {
            Ok(v) => v,
            Err(e) => return Err(e),
        };
        proof {
            assert(source.rem() == s0.rem().skip(pipeline_id.wire().len() as int));
        }
        let ghost s1 = *source;
        let stacking_context_id = match ServoStackingContextId::decode(source) {
            Ok(v) => v,
            Err(e) => return Err(e),
        };
        proof {
            assert(source.rem() == s1.rem().skip(stacking_context_id.wire().len() as int));
        }
        let scroll_offset = match Point2D::decode(source) {
            Ok(v) => v,
            Err(e) => return Err(e),
        };
        Ok(ScrollLayerState { pipeline_id, stacking_context_id, scroll_offset })
    }
}

// ---------------------------------------------------------------------------
// Notifications
// ---------------------------------------------------------------------------

/// Implemented by whoever wants to hear that a new frame is ready or that a
/// pipeline's size changed.
pub trait RenderNotifier: Send {
    fn new_frame_ready(&mut self);

    fn pipeline_size_changed(&mut self, pipeline_id: PipelineId, size: Option<Size2D>);
}

} // verus!
