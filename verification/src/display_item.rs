//! The display items themselves: what a frame draws, each item a record,
//! all of them gathered into one tagged union, and the top-level
//! [`DisplayItem`] that pairs the specific item with its bounds and clip.

use vstd::prelude::*;

use crate::codec::{byte, prefix_of, DecodeError, EncodeError, Sink, Source, UnionName, Wire};
use crate::geometry::{Au, FloatBits, Point2D, Rect, Size2D};
use crate::types::{
    BorderRadius, BorderSide, BoxShadowClipMode, ClipRegion, ColorF, FontKey, ImageKey,
    ImageRendering, ItemRange,
};

verus! {

broadcast use crate::codec::group_wire_axioms;

/// A rendering context handle, a positional index.
#[derive(Clone, Copy, Debug, PartialEq, Eq, Hash, Structural)]
pub struct WebGLContextId(pub usize);

impl Wire for WebGLContextId {
    open spec fn wire(&self) -> Seq<u8> {
        self.0.wire()
    }

    fn encode(&self, sink: &mut Sink) -> (r: Result<(), EncodeError>) {
        self.0.encode(sink)
    }

    fn decode(source: &mut Source) -> (r: Result<WebGLContextId, DecodeError>) {
        let id: usize = match usize::decode(source) {
            Ok(v) => v,
            Err(e) => return Err(e),
        };
        Ok(WebGLContextId(id))
    }
}

/// A border: one side per edge, in the order left, right, top, bottom,
/// then the corner radii.
#[derive(Clone, Copy, Debug, PartialEq, Eq, Structural)]
pub struct BorderDisplayItem {
    pub left: BorderSide,
    pub right: BorderSide,
    pub top: BorderSide,
    pub bottom: BorderSide,
    pub radius: BorderRadius,
}

impl Wire for BorderDisplayItem {
    open spec fn wire(&self) -> Seq<u8> {
        self.left.wire() + self.right.wire() + self.top.wire() + self.bottom.wire() + self.radius.wire()
    }

    #[verifier::rlimit(100)]
    #[verifier::spinoff_prover]
    fn encode(&self, sink: &mut Sink) -> (r: Result<(), EncodeError>) {
        self.left.encode(sink)?;
        self.right.encode(sink)?;
        self.top.encode(sink)?;
        self.bottom.encode(sink)?;
        self.radius.encode(sink)?;
        proof {
            assert(sink.bytes@ =~= old(sink).bytes@ + self.wire());
        }
        Ok(())
    }

    #[verifier::rlimit(100)]
    fn decode(source: &mut Source) -> (r: Result<BorderDisplayItem, DecodeError>) {
        let ghost s0 = *source;
        let left = match BorderSide::decode(source) {
            Ok(v) => v,
            Err(e) => return Err(e),
        };
        proof {
            assert(source.rem() == s0.rem().skip(left.wire().len() as int));
        }
        let ghost s1 = *source;
        let right = match BorderSide::decode(source) {
            Ok(v) => v,
            Err(e) => return Err(e),
        };
        proof {
            assert(source.rem() == s1.rem().skip(right.wire().len() as int));
        }
        let ghost s2 = *source;
        let top = match BorderSide::decode(source) {
            Ok(v) => v,
            Err(e) => return Err(e),
        };
        proof {
            assert(source.rem() == s2.rem().skip(top.wire().len() as int));
        }
        let ghost s3 = *source;
        let bottom = match BorderSide::decode(source) {
            Ok(v) => v,
            Err(e) => return Err(e),
        };
        proof {
            assert(source.rem() == s3.rem().skip(bottom.wire().len() as int));
        }
        let ghost s4 = *source;
        let radius = match BorderRadius::decode(source) {
            Ok(v) => v,
            Err(e) => return Err(e),
        };
        Ok(BorderDisplayItem { left, right, top, bottom, radius })
    }
}

/// A box shadow.
#[derive(Clone, Copy, Debug, PartialEq, Eq, Structural)]
pub struct BoxShadowDisplayItem {
    pub box_bounds: Rect,
    pub offset: Point2D,
    pub color: ColorF,
    pub blur_radius: FloatBits,
    pub spread_radius: FloatBits,
    pub border_radius: FloatBits,
    pub clip_mode: BoxShadowClipMode,
}

impl Wire for BoxShadowDisplayItem {
    open spec fn wire(&self) -> Seq<u8> {
        self.box_bounds.wire() + self.offset.wire() + self.color.wire() + self.blur_radius.wire() + self.spread_radius.wire() + self.border_radius.wire() + self.clip_mode.wire()
    }

    #[verifier::rlimit(100)]
    #[verifier::spinoff_prover]
    fn encode(&self, sink: &mut Sink) -> (r: Result<(), EncodeError>) {
        self.box_bounds.encode(sink)?;
        self.offset.encode(sink)?;
        self.color.encode(sink)?;
        self.blur_radius.encode(sink)?;
        self.spread_radius.encode(sink)?;
        self.border_radius.encode(sink)?;
        self.clip_mode.encode(sink)?;
        proof {
            assert(sink.bytes@ =~= old(sink).bytes@ + self.wire());
        }
        Ok(())
    }

    #[verifier::rlimit(100)]
    fn decode(source: &mut Source) -> (r: Result<BoxShadowDisplayItem, DecodeError>) {
        let ghost s0 = *source;
        let box_bounds = match Rect::decode(source) {
            Ok(v) => v,
            Err(e) => return Err(e),
        };
        proof {
            assert(source.rem() == s0.rem().skip(box_bounds.wire().len() as int));
        }
        let ghost s1 = *source;
        let offset = match Point2D::decode(source) {
            Ok(v) => v,
            Err(e) => return Err(e),
        };
        proof {
            assert(source.rem() == s1.rem().skip(offset.wire().len() as int));
        }
        let ghost s2 = *source;
        let color = match ColorF::decode(source) {
            Ok(v) => v,
            Err(e) => return Err(e),
        };
        proof {
            assert(source.rem() == s2.rem().skip(color.wire().len() as int));
        }
        let ghost s3 = *source;
        let blur_radius = match FloatBits::decode(source) {
            Ok(v) => v,
            Err(e) => return Err(e),
        };
        proof {
            assert(source.rem() == s3.rem().skip(blur_radius.wire().len() as int));
        }
        let ghost s4 = *source;
        let spread_radius = match FloatBits::decode(source) {
            Ok(v) => v,
            Err(e) => return Err(e),
        };
        proof {
            assert(source.rem() == s4.rem().skip(spread_radius.wire().len() as int));
        }
        let ghost s5 = *source;
        let border_radius = match FloatBits::decode(source) {
            Ok(v) => v,
            Err(e) => return Err(e),
        };
        proof {
            assert(source.rem() == s5.rem().skip(border_radius.wire().len() as int));
        }
        let ghost s6 = *source;
        let clip_mode = match BoxShadowClipMode::decode(source) {
            Ok(v) => v,
            Err(e) => return Err(e),
        };
        Ok(BoxShadowDisplayItem { box_bounds, offset, color, blur_radius, spread_radius, border_radius, clip_mode })
    }
}

/// A linear gradient between two points, with a handle to its out-of-line
/// color stops.
#[derive(Clone, Copy, Debug, PartialEq, Eq, Structural)]
pub struct GradientDisplayItem {
    pub start_point: Point2D,
    pub end_point: Point2D,
    pub stops: ItemRange,
}

impl Wire for GradientDisplayItem {
    open spec fn wire(&self) -> Seq<u8> {
        self.start_point.wire() + self.end_point.wire() + self.stops.wire()
    }

    fn encode(&self, sink: &mut Sink) -> (r: Result<(), EncodeError>) {
        self.start_point.encode(sink)?;
        self.end_point.encode(sink)?;
        self.stops.encode(sink)?;
        proof {
            assert(sink.bytes@ =~= old(sink).bytes@ + self.wire());
        }
        Ok(())
    }

    fn decode(source: &mut Source) -> (r: Result<GradientDisplayItem, DecodeError>) {
        let ghost s0 = *source;
        let start_point = match Point2D::decode(source) {
            Ok(v) => v,
            Err(e) => return Err(e),
        };
        proof {
            assert(source.rem() == s0.rem().skip(start_point.wire().len() as int));
        }
        let ghost s1 = *source;
        let end_point = match Point2D::decode(source) {
            Ok(v) => v,
            Err(e) => return Err(e),
        };
        proof {
            assert(source.rem() == s1.rem().skip(end_point.wire().len() as int));
        }
        let ghost s2 = *source;
        let stops = match ItemRange::decode(source) {
            Ok(v) => v,
            Err(e) => return Err(e),
        };
        Ok(GradientDisplayItem { start_point, end_point, stops })
    }
}

/// An image, stretched to a size and resampled by a rendering mode.
#[derive(Clone, Copy, Debug, PartialEq, Eq, Structural)]
pub struct ImageDisplayItem {
    pub image_key: ImageKey,
    pub stretch_size: Size2D,
    pub image_rendering: ImageRendering,
}

impl Wire for ImageDisplayItem {
    open spec fn wire(&self) -> Seq<u8> {
        self.image_key.wire() + self.stretch_size.wire() + self.image_rendering.wire()
    }

    fn encode(&self, sink: &mut Sink) -> (r: Result<(), EncodeError>) {
        self.image_key.encode(sink)?;
        self.stretch_size.encode(sink)?;
        self.image_rendering.encode(sink)?;
        proof {
            assert(sink.bytes@ =~= old(sink).bytes@ + self.wire());
        }
        Ok(())
    }

    fn decode(source: &mut Source) -> (r: Result<ImageDisplayItem, DecodeError>)
        ensures
            r is Ok <==> old(source).rem().len() >= 17 && old(source).rem()[16] < 3,
            old(source).rem().len() >= 17 && old(source).rem()[16] >= 3 ==> r == Err::<
                ImageDisplayItem,
                DecodeError,
            >(DecodeError::UnknownVariant(UnionName::ImageRendering)),
            old(source).rem().len() < 17 ==> r == Err::<ImageDisplayItem, DecodeError>(
                DecodeError::UnexpectedEnd,
            ),
    {
        let ghost s0 = *source;
        let image_key = match ImageKey::decode(source) {
            Ok(v) => v,
            Err(e) => return Err(e),
        };
        proof {
            assert(source.rem() == s0.rem().skip(image_key.wire().len() as int));
        }
        let ghost s1 = *source;
        let stretch_size = match Size2D::decode(source) {
            Ok(v) => v,
            Err(e) => return Err(e),
        };
        proof {
            assert(source.rem() == s1.rem().skip(stretch_size.wire().len() as int));
        }
        let ghost s2 = *source;
        let image_rendering = match ImageRendering::decode(source) {
            Ok(v) => v,
            Err(e) => return Err(e),
        };
        Ok(ImageDisplayItem { image_key, stretch_size, image_rendering })
    }
}

/// A solid rectangle of one color.
#[derive(Clone, Copy, Debug, PartialEq, Eq, Structural)]
pub struct RectangleDisplayItem {
    pub color: ColorF,
}

impl Wire for RectangleDisplayItem {
    open spec fn wire(&self) -> Seq<u8> {
        self.color.wire()
    }

    fn encode(&self, sink: &mut Sink) -> (r: Result<(), EncodeError>) {
        self.color.encode(sink)?;
        proof {
            assert(sink.bytes@ =~= old(sink).bytes@ + self.wire());
        }
        Ok(())
    }

    fn decode(source: &mut Source) -> (r: Result<RectangleDisplayItem, DecodeError>)
        ensures
            r is Ok <==> old(source).rem().len() >= 16,
            r is Err ==> r == Err::<RectangleDisplayItem, DecodeError>(
                DecodeError::UnexpectedEnd,
            ),
    {
        let ghost s0 = *source;
        let color = match ColorF::decode(source) {
            Ok(v) => v,
            Err(e) => return Err(e),
        };
        Ok(RectangleDisplayItem { color })
    }
}

/// A text run: a handle to its out-of-line glyphs, the font, its size,
/// color and blur radius.
#[derive(Clone, Copy, Debug, PartialEq, Eq, Structural)]
pub struct TextDisplayItem {
    pub glyphs: ItemRange,
    pub font_key: FontKey,
    pub size: Au,
    pub color: ColorF,
    pub blur_radius: Au,
}

impl Wire for TextDisplayItem {
    open spec fn wire(&self) -> Seq<u8> {
        self.glyphs.wire() + self.font_key.wire() + self.size.wire() + self.color.wire() + self.blur_radius.wire()
    }

    #[verifier::rlimit(100)]
    #[verifier::spinoff_prover]
    fn encode(&self, sink: &mut Sink) -> (r: Result<(), EncodeError>) {
        self.glyphs.encode(sink)?;
        self.font_key.encode(sink)?;
        self.size.encode(sink)?;
        self.color.encode(sink)?;
        self.blur_radius.encode(sink)?;
        proof {
            assert(sink.bytes@ =~= old(sink).bytes@ + self.wire());
        }
        Ok(())
    }

    fn decode(source: &mut Source) -> (r: Result<TextDisplayItem, DecodeError>) {
        let ghost s0 = *source;
        let glyphs = match ItemRange::decode(source) {
            Ok(v) => v,
            Err(e) => return Err(e),
        };
        proof {
            assert(source.rem() == s0.rem().skip(glyphs.wire().len() as int));
        }
        let ghost s1 = *source;
        let font_key = match FontKey::decode(source) {
            Ok(v) => v,
            Err(e) => return Err(e),
        };
        proof {
            assert(source.rem() == s1.rem().skip(font_key.wire().len() as int));
        }
        let ghost s2 = *source;
        let size = match Au::decode(source) {
            Ok(v) => v,
            Err(e) => return Err(e),
        };
        proof {
            assert(source.rem() == s2.rem().skip(size.wire().len() as int));
        }
        let ghost s3 = *source;
        let color = match ColorF::decode(source) {
            Ok(v) => v,
            Err(e) => return Err(e),
        };
        proof {
            assert(source.rem() == s3.rem().skip(color.wire().len() as int));
        }
        let ghost s4 = *source;
        let blur_radius = match Au::decode(source) {
            Ok(v) => v,
            Err(e) => return Err(e),
        };
        Ok(TextDisplayItem { glyphs, font_key, size, color, blur_radius })
    }
}

/// The output of a rendering context, referred to by its identifier.
#[derive(Clone, Copy, Debug, PartialEq, Eq, Structural)]
pub struct WebGLDisplayItem {
    pub context_id: WebGLContextId,
}

impl Wire for WebGLDisplayItem {
    open spec fn wire(&self) -> Seq<u8> {
        self.context_id.wire()
    }

    fn encode(&self, sink: &mut Sink) -> (r: Result<(), EncodeError>) {
        self.context_id.encode(sink)?;
        proof {
            assert(sink.bytes@ =~= old(sink).bytes@ + self.wire());
        }
        Ok(())
    }

    fn decode(source: &mut Source) -> (r: Result<WebGLDisplayItem, DecodeError>) {
        let ghost s0 = *source;
        let context_id = match WebGLContextId::decode(source) {
            Ok(v) => v,
            Err(e) => return Err(e),
        };
        Ok(WebGLDisplayItem { context_id })
    }
}

/// One drawn thing, whichever kind it is.
#[derive(Clone, Copy, Debug, PartialEq, Eq, Structural)]
pub enum SpecificDisplayItem {
    Rectangle(RectangleDisplayItem),
    Text(TextDisplayItem),
    Image(ImageDisplayItem),
    WebGL(WebGLDisplayItem),
    Border(BorderDisplayItem),
    BoxShadow(BoxShadowDisplayItem),
    Gradient(GradientDisplayItem),
}

impl SpecificDisplayItem {
    /// The variant's 0-based position in declaration order: its wire
    /// discriminant.
    pub open spec fn tag(self) -> u8 {
        match self {
            SpecificDisplayItem::Rectangle(_) => 0,
            SpecificDisplayItem::Text(_) => 1,
            SpecificDisplayItem::Image(_) => 2,
            SpecificDisplayItem::WebGL(_) => 3,
            SpecificDisplayItem::Border(_) => 4,
            SpecificDisplayItem::BoxShadow(_) => 5,
            SpecificDisplayItem::Gradient(_) => 6,
        }
    }
}

impl Wire for SpecificDisplayItem {
    open spec fn wire(&self) -> Seq<u8> {
        match *self {
            SpecificDisplayItem::Rectangle(item) => byte(0) + item.wire(),
            SpecificDisplayItem::Text(item) => byte(1) + item.wire(),
            SpecificDisplayItem::Image(item) => byte(2) + item.wire(),
            SpecificDisplayItem::WebGL(item) => byte(3) + item.wire(),
            SpecificDisplayItem::Border(item) => byte(4) + item.wire(),
            SpecificDisplayItem::BoxShadow(item) => byte(5) + item.wire(),
            SpecificDisplayItem::Gradient(item) => byte(6) + item.wire(),
        }
    }

    #[verifier::rlimit(100)]
    fn encode(&self, sink: &mut Sink) -> (r: Result<(), EncodeError>) {
        match self {
            SpecificDisplayItem::Rectangle(item) => {
                let t: u8 = 0;
                t.encode(sink)?;
                item.encode(sink)?;
            },
            SpecificDisplayItem::Text(item) => {
                let t: u8 = 1;
                t.encode(sink)?;
                item.encode(sink)?;
            },
            SpecificDisplayItem::Image(item) => {
                let t: u8 = 2;
                t.encode(sink)?;
                item.encode(sink)?;
            },
            SpecificDisplayItem::WebGL(item) => {
                let t: u8 = 3;
                t.encode(sink)?;
                item.encode(sink)?;
            },
            SpecificDisplayItem::Border(item) => {
                let t: u8 = 4;
                t.encode(sink)?;
                item.encode(sink)?;
            },
            SpecificDisplayItem::BoxShadow(item) => {
                let t: u8 = 5;
                t.encode(sink)?;
                item.encode(sink)?;
            },
            SpecificDisplayItem::Gradient(item) => {
                let t: u8 = 6;
                t.encode(sink)?;
                item.encode(sink)?;
            },
        }
        proof {
            assert(sink.bytes@ =~= old(sink).bytes@ + self.wire());
        }
        Ok(())
    }

    #[verifier::rlimit(100)]
    #[verifier::spinoff_prover]
    fn decode(source: &mut Source) -> (r: Result<SpecificDisplayItem, DecodeError>)
        ensures
            old(source).rem().len() == 0 ==> r == Err::<SpecificDisplayItem, DecodeError>(
                DecodeError::UnexpectedEnd,
            ),
            old(source).rem().len() >= 1 && old(source).rem()[0] >= 7 ==> r == Err::<
                SpecificDisplayItem,
                DecodeError,
            >(DecodeError::UnknownVariant(UnionName::SpecificDisplayItem)),
            r matches Ok(v) ==> v.tag() == old(source).rem()[0],
    {
        let ghost s0 = *source;
        let t: u8 = match u8::decode(source) {
            Ok(b) => b,
            Err(e) => return Err(e),
        };
        proof {
            assert(source.rem() == s0.rem().skip(1));
            assert forall|v: SpecificDisplayItem| prefix_of(v.wire(), s0.rem()) implies v.tag()
                == t && v.tag() < 7 by {
                lemma_specific_display_item_discriminant(v);
                assert(s0.rem().subrange(0, v.wire().len() as int)[0] == s0.rem()[0]);
            }
        }
        match t {
            0 => decode_rectangle_variant(source, Ghost(s0)),
            1 => decode_text_variant(source, Ghost(s0)),
            2 => decode_image_variant(source, Ghost(s0)),
            3 => decode_webgl_variant(source, Ghost(s0)),
            4 => decode_border_variant(source, Ghost(s0)),
            5 => decode_box_shadow_variant(source, Ghost(s0)),
            6 => decode_gradient_variant(source, Ghost(s0)),
            _ => Err(DecodeError::UnknownVariant(UnionName::SpecificDisplayItem)),
        }
    }
}


/// One dispatch arm of the tagged-union decode: the discriminant byte was
/// `0`, so the payload is read as the variant's field list.
#[verifier::rlimit(100)]
fn decode_rectangle_variant(source: &mut Source, Ghost(s0): Ghost<Source>) -> (r: Result<
    SpecificDisplayItem,
    DecodeError,
>)
    requires
        old(source).inv(),
        old(source).bytes@ == s0.bytes@,
        s0.pos + 1 == old(source).pos,
        s0.rem().len() >= 1,
        s0.rem()[0] == 0,
        old(source).rem() == s0.rem().skip(1),
        forall|v: SpecificDisplayItem| #[trigger] prefix_of(v.wire(), s0.rem()) ==> v.tag()
            == 0,
    ensures
        final(source).inv(),
        final(source).bytes@ == s0.bytes@,
        s0.pos <= final(source).pos,
        r matches Ok(v) ==> final(source).pos == s0.pos + v.wire().len() && prefix_of(
            v.wire(),
            s0.rem(),
        ),
        forall|v: SpecificDisplayItem| #[trigger]
            prefix_of(v.wire(), s0.rem()) ==> r == Ok::<SpecificDisplayItem, DecodeError>(v),
{
    let item = match RectangleDisplayItem::decode(source) {
        Ok(v) => v,
        Err(e) => return Err(e),
    };
    Ok(SpecificDisplayItem::Rectangle(item))
}

/// One dispatch arm of the tagged-union decode: the discriminant byte was
/// `1`, so the payload is read as the variant's field list.
#[verifier::rlimit(100)]
fn decode_text_variant(source: &mut Source, Ghost(s0): Ghost<Source>) -> (r: Result<
    SpecificDisplayItem,
    DecodeError,
>)
    requires
        old(source).inv(),
        old(source).bytes@ == s0.bytes@,
        s0.pos + 1 == old(source).pos,
        s0.rem().len() >= 1,
        s0.rem()[0] == 1,
        old(source).rem() == s0.rem().skip(1),
        forall|v: SpecificDisplayItem| #[trigger] prefix_of(v.wire(), s0.rem()) ==> v.tag()
            == 1,
    ensures
        final(source).inv(),
        final(source).bytes@ == s0.bytes@,
        s0.pos <= final(source).pos,
        r matches Ok(v) ==> final(source).pos == s0.pos + v.wire().len() && prefix_of(
            v.wire(),
            s0.rem(),
        ),
        forall|v: SpecificDisplayItem| #[trigger]
            prefix_of(v.wire(), s0.rem()) ==> r == Ok::<SpecificDisplayItem, DecodeError>(v),
{
    let item = match TextDisplayItem::decode(source) {
        Ok(v) => v,
        Err(e) => return Err(e),
    };
    Ok(SpecificDisplayItem::Text(item))
}

/// One dispatch arm of the tagged-union decode: the discriminant byte was
/// `2`, so the payload is read as the variant's field list.
#[verifier::rlimit(100)]
fn decode_image_variant(source: &mut Source, Ghost(s0): Ghost<Source>) -> (r: Result<
    SpecificDisplayItem,
    DecodeError,
>)
    requires
        old(source).inv(),
        old(source).bytes@ == s0.bytes@,
        s0.pos + 1 == old(source).pos,
        s0.rem().len() >= 1,
        s0.rem()[0] == 2,
        old(source).rem() == s0.rem().skip(1),
        forall|v: SpecificDisplayItem| #[trigger] prefix_of(v.wire(), s0.rem()) ==> v.tag()
            == 2,
    ensures
        final(source).inv(),
        final(source).bytes@ == s0.bytes@,
        s0.pos <= final(source).pos,
        r matches Ok(v) ==> final(source).pos == s0.pos + v.wire().len() && prefix_of(
            v.wire(),
            s0.rem(),
        ),
        forall|v: SpecificDisplayItem| #[trigger]
            prefix_of(v.wire(), s0.rem()) ==> r == Ok::<SpecificDisplayItem, DecodeError>(v),
{
    let item = match ImageDisplayItem::decode(source) {
        Ok(v) => v,
        Err(e) => return Err(e),
    };
    Ok(SpecificDisplayItem::Image(item))
}

/// One dispatch arm of the tagged-union decode: the discriminant byte was
/// `3`, so the payload is read as the variant's field list.
#[verifier::rlimit(100)]
fn decode_webgl_variant(source: &mut Source, Ghost(s0): Ghost<Source>) -> (r: Result<
    SpecificDisplayItem,
    DecodeError,
>)
    requires
        old(source).inv(),
        old(source).bytes@ == s0.bytes@,
        s0.pos + 1 == old(source).pos,
        s0.rem().len() >= 1,
        s0.rem()[0] == 3,
        old(source).rem() == s0.rem().skip(1),
        forall|v: SpecificDisplayItem| #[trigger] prefix_of(v.wire(), s0.rem()) ==> v.tag()
            == 3,
    ensures
        final(source).inv(),
        final(source).bytes@ == s0.bytes@,
        s0.pos <= final(source).pos,
        r matches Ok(v) ==> final(source).pos == s0.pos + v.wire().len() && prefix_of(
            v.wire(),
            s0.rem(),
        ),
        forall|v: SpecificDisplayItem| #[trigger]
            prefix_of(v.wire(), s0.rem()) ==> r == Ok::<SpecificDisplayItem, DecodeError>(v),
{
    let item = match WebGLDisplayItem::decode(source) {
        Ok(v) => v,
        Err(e) => return Err(e),
    };
    Ok(SpecificDisplayItem::WebGL(item))
}

/// One dispatch arm of the tagged-union decode: the discriminant byte was
/// `4`, so the payload is read as the variant's field list.
#[verifier::rlimit(100)]
fn decode_border_variant(source: &mut Source, Ghost(s0): Ghost<Source>) -> (r: Result<
    SpecificDisplayItem,
    DecodeError,
>)
    requires
        old(source).inv(),
        old(source).bytes@ == s0.bytes@,
        s0.pos + 1 == old(source).pos,
        s0.rem().len() >= 1,
        s0.rem()[0] == 4,
        old(source).rem() == s0.rem().skip(1),
        forall|v: SpecificDisplayItem| #[trigger] prefix_of(v.wire(), s0.rem()) ==> v.tag()
            == 4,
    ensures
        final(source).inv(),
        final(source).bytes@ == s0.bytes@,
        s0.pos <= final(source).pos,
        r matches Ok(v) ==> final(source).pos == s0.pos + v.wire().len() && prefix_of(
            v.wire(),
            s0.rem(),
        ),
        forall|v: SpecificDisplayItem| #[trigger]
            prefix_of(v.wire(), s0.rem()) ==> r == Ok::<SpecificDisplayItem, DecodeError>(v),
{
    let item = match BorderDisplayItem::decode(source) {
        Ok(v) => v,
        Err(e) => return Err(e),
    };
    Ok(SpecificDisplayItem::Border(item))
}

/// One dispatch arm of the tagged-union decode: the discriminant byte was
/// `5`, so the payload is read as the variant's field list.
#[verifier::rlimit(100)]
fn decode_box_shadow_variant(source: &mut Source, Ghost(s0): Ghost<Source>) -> (r: Result<
    SpecificDisplayItem,
    DecodeError,
>)
    requires
        old(source).inv(),
        old(source).bytes@ == s0.bytes@,
        s0.pos + 1 == old(source).pos,
        s0.rem().len() >= 1,
        s0.rem()[0] == 5,
        old(source).rem() == s0.rem().skip(1),
        forall|v: SpecificDisplayItem| #[trigger] prefix_of(v.wire(), s0.rem()) ==> v.tag()
            == 5,
    ensures
        final(source).inv(),
        final(source).bytes@ == s0.bytes@,
        s0.pos <= final(source).pos,
        r matches Ok(v) ==> final(source).pos == s0.pos + v.wire().len() && prefix_of(
            v.wire(),
            s0.rem(),
        ),
        forall|v: SpecificDisplayItem| #[trigger]
            prefix_of(v.wire(), s0.rem()) ==> r == Ok::<SpecificDisplayItem, DecodeError>(v),
{
    let item = match BoxShadowDisplayItem::decode(source) {
        Ok(v) => v,
        Err(e) => return Err(e),
    };
    Ok(SpecificDisplayItem::BoxShadow(item))
}

/// One dispatch arm of the tagged-union decode: the discriminant byte was
/// `6`, so the payload is read as the variant's field list.
#[verifier::rlimit(100)]
fn decode_gradient_variant(source: &mut Source, Ghost(s0): Ghost<Source>) -> (r: Result<
    SpecificDisplayItem,
    DecodeError,
>)
    requires
        old(source).inv(),
        old(source).bytes@ == s0.bytes@,
        s0.pos + 1 == old(source).pos,
        s0.rem().len() >= 1,
        s0.rem()[0] == 6,
        old(source).rem() == s0.rem().skip(1),
        forall|v: SpecificDisplayItem| #[trigger] prefix_of(v.wire(), s0.rem()) ==> v.tag()
            == 6,
    ensures
        final(source).inv(),
        final(source).bytes@ == s0.bytes@,
        s0.pos <= final(source).pos,
        r matches Ok(v) ==> final(source).pos == s0.pos + v.wire().len() && prefix_of(
            v.wire(),
            s0.rem(),
        ),
        forall|v: SpecificDisplayItem| #[trigger]
            prefix_of(v.wire(), s0.rem()) ==> r == Ok::<SpecificDisplayItem, DecodeError>(v),
{
    let item = match GradientDisplayItem::decode(source) {
        Ok(v) => v,
        Err(e) => return Err(e),
    };
    Ok(SpecificDisplayItem::Gradient(item))
}

/// Discriminant density for display items: every encoding begins with the
/// variant's 0-based declaration index, and the seven declared variants
/// take the dense range below seven.
pub proof fn lemma_specific_display_item_discriminant(v: SpecificDisplayItem)
    ensures
        v.wire().len() >= 1,
        v.wire()[0] == v.tag(),
        v.tag() < 7,
{
}

/// A display item as it travels: the specific item, the rectangle it
/// covers, and its clip, encoded in that order.
#[derive(Clone, Copy, Debug, PartialEq, Eq, Structural)]
pub struct DisplayItem {
    pub item: SpecificDisplayItem,
    pub rect: Rect,
    pub clip: ClipRegion,
}

impl Wire for DisplayItem {
    open spec fn wire(&self) -> Seq<u8> {
        self.item.wire() + self.rect.wire() + self.clip.wire()
    }

    fn encode(&self, sink: &mut Sink) -> (r: Result<(), EncodeError>) {
        self.item.encode(sink)?;
        self.rect.encode(sink)?;
        self.clip.encode(sink)?;
        proof {
            assert(sink.bytes@ =~= old(sink).bytes@ + self.wire());
        }
        Ok(())
    }

    fn decode(source: &mut Source) -> (r: Result<DisplayItem, DecodeError>) {
        let ghost s0 = *source;
        let item = match SpecificDisplayItem::decode(source) {
            Ok(v) => v,
            Err(e) => return Err(e),
        };
        proof {
            assert(source.rem() == s0.rem().skip(item.wire().len() as int));
        }
        let ghost s1 = *source;
        let rect = match Rect::decode(source) {
            Ok(v) => v,
            Err(e) => return Err(e),
        };
        proof {
            assert(source.rem() == s1.rem().skip(rect.wire().len() as int));
        }
        let clip = match ClipRegion::decode(source) {
            Ok(v) => v,
            Err(e) => return Err(e),
        };
        Ok(DisplayItem { item, rect, clip })
    }
}

} // verus!
