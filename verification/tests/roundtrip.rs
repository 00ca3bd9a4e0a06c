use display_wire::codec::{round_trip, Sink, Source, Wire};
use display_wire::geometry::{Au, FloatBits, Point2D, Rect, Size2D};
use display_wire::types::{
    BorderRadius, BorderSide, BorderStyle, ColorF, ComplexClipRegion, DisplayListId, Epoch,
    FontKey, GlyphInstance, GradientStop, ImageKey, ItemRange, PipelineId, ScrollLayerId,
    ScrollLayerState, ServoStackingContextId, StackingContextId, FragmentType, ScrollLayerInfo,
};

fn fb(x: f32) -> FloatBits {
    FloatBits { bits: x.to_bits() }
}

fn size(w: f32, h: f32) -> Size2D {
    Size2D { width: fb(w), height: fb(h) }
}

fn point(x: f32, y: f32) -> Point2D {
    Point2D { x: fb(x), y: fb(y) }
}

fn rect(x: f32, y: f32, w: f32, h: f32) -> Rect {
    Rect { origin: point(x, y), size: size(w, h) }
}

#[test]
fn scalar_round_trips() {
    assert_eq!(round_trip(&0xdeadbeef_u32), Ok(0xdeadbeef_u32));
    assert_eq!(round_trip(&0x0102030405060708_u64), Ok(0x0102030405060708_u64));
    assert_eq!(round_trip(&usize::MAX), Ok(usize::MAX));
    assert_eq!(round_trip(&(-40_i32)), Ok(-40_i32));
    assert_eq!(round_trip(&0xab_u8), Ok(0xab_u8));
}

#[test]
fn color_round_trip() {
    let c = ColorF::new(fb(0.25), fb(0.5), fb(0.75), fb(1.0));
    assert_eq!(round_trip(&c), Ok(c));
}

#[test]
fn geometry_round_trips() {
    let s = size(10.0, 20.5);
    assert_eq!(round_trip(&s), Ok(s));
    let p = point(-1.5, 3.25);
    assert_eq!(round_trip(&p), Ok(p));
    let r = rect(0.0, 1.0, 640.0, 480.0);
    assert_eq!(round_trip(&r), Ok(r));
    let au = Au(-120);
    assert_eq!(round_trip(&au), Ok(au));
}

#[test]
fn identifier_round_trips() {
    assert_eq!(round_trip(&StackingContextId(1, 2)), Ok(StackingContextId(1, 2)));
    assert_eq!(round_trip(&DisplayListId(3, 4)), Ok(DisplayListId(3, 4)));
    assert_eq!(round_trip(&Epoch(99)), Ok(Epoch(99)));
    assert_eq!(round_trip(&FontKey::new(7, 8)), Ok(FontKey(7, 8)));
    assert_eq!(round_trip(&ImageKey::new(9, 10)), Ok(ImageKey(9, 10)));
    assert_eq!(round_trip(&PipelineId(11, 12)), Ok(PipelineId(11, 12)));
    let sid = ServoStackingContextId(FragmentType::BeforePseudoContent, 5);
    assert_eq!(round_trip(&sid), Ok(sid));
}

#[test]
fn composite_round_trips() {
    let radius = BorderRadius::uniform(fb(4.0));
    assert_eq!(round_trip(&radius), Ok(radius));
    let side = BorderSide { width: fb(2.0), color: ColorF::new(fb(0.0), fb(0.0), fb(0.0), fb(1.0)), style: BorderStyle::Dashed };
    assert_eq!(round_trip(&side), Ok(side));
    let stop = GradientStop { offset: fb(0.5), color: ColorF::new(fb(1.0), fb(0.0), fb(0.0), fb(1.0)) };
    assert_eq!(round_trip(&stop), Ok(stop));
    let glyph = GlyphInstance { index: 42, x: fb(10.0), y: fb(12.0) };
    assert_eq!(round_trip(&glyph), Ok(glyph));
    let region = ComplexClipRegion::new(rect(0.0, 0.0, 50.0, 50.0), radius);
    assert_eq!(round_trip(&region), Ok(region));
    let range = ItemRange { start: 3, length: 9 };
    assert_eq!(round_trip(&range), Ok(range));
    let state = ScrollLayerState {
        pipeline_id: PipelineId(1, 1),
        stacking_context_id: ServoStackingContextId(FragmentType::FragmentBody, 0),
        scroll_offset: point(0.0, -250.5),
    };
    assert_eq!(round_trip(&state), Ok(state));
    let layer = ScrollLayerId::new(PipelineId(2, 3), 7);
    assert_eq!(round_trip(&layer), Ok(layer));
    assert_eq!(layer.info, ScrollLayerInfo::Scrollable(7));
    let fixed = ScrollLayerId::create_fixed(PipelineId(2, 3));
    assert_eq!(fixed.info, ScrollLayerInfo::Fixed);
}

#[test]
fn encoding_is_field_order_concatenation() {
    // A record's bytes are exactly its fields' encodings, in declaration
    // order, with no separators: the pair (1, 2) is eight bytes,
    // little-endian word by word.
    let mut sink = Sink::new();
    StackingContextId(1, 2).encode(&mut sink).unwrap();
    assert_eq!(sink.into_bytes(), vec![1, 0, 0, 0, 2, 0, 0, 0]);
}

#[test]
fn decode_consumes_exactly_the_encoding() {
    let mut sink = Sink::new();
    Epoch(0x01020304).encode(&mut sink).unwrap();
    let mut bytes = sink.into_bytes();
    bytes.push(0xff); // trailing byte beyond the encoding
    let mut source = Source::new(bytes);
    assert_eq!(Epoch::decode(&mut source), Ok(Epoch(0x01020304)));
    assert_eq!(source.remaining(), 1);
}
