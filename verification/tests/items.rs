use display_wire::codec::{round_trip, DecodeError, EncodeError, Sink, Source, UnionName, Wire};
use display_wire::display_item::{
    BorderDisplayItem, BoxShadowDisplayItem, DisplayItem, GradientDisplayItem, ImageDisplayItem,
    RectangleDisplayItem, SpecificDisplayItem, TextDisplayItem, WebGLContextId, WebGLDisplayItem,
};
use display_wire::geometry::{decode_as_swapped, Au, FloatBits, Point2D, Rect, Size2D};
use display_wire::types::{
    AuxiliaryListsBuilder, BorderRadius, BorderSide, BorderStyle, BoxShadowClipMode, ClipRegion,
    ColorF, ComplexClipRegion, FontKey, ImageKey, ImageRendering, ItemRange, NativeFontHandle,
    StackingContextId,
};

fn fb(x: f32) -> FloatBits {
    FloatBits { bits: x.to_bits() }
}

fn size(w: f32, h: f32) -> Size2D {
    Size2D { width: fb(w), height: fb(h) }
}

fn point(x: f32, y: f32) -> Point2D {
    Point2D { x: fb(x), y: fb(y) }
}

fn rect(x: f32, y: f32, w: f32, h: f32) -> Rect {
    Rect { origin: point(x, y), size: size(w, h) }
}

fn color(r: f32, g: f32, b: f32, a: f32) -> ColorF {
    ColorF::new(fb(r), fb(g), fb(b), fb(a))
}

#[test]
fn border_radius_four_corners_stay_in_place() {
    // Four fields declared top-left, top-right, bottom-left, bottom-right:
    // the round trip returns each corner under its own name, with no
    // cross-field swapping even though all four share one type.
    let radius = BorderRadius {
        top_left: size(1.0, 1.5),
        top_right: size(2.0, 2.5),
        bottom_left: size(3.0, 3.5),
        bottom_right: size(4.0, 4.5),
    };
    let decoded = round_trip(&radius).unwrap();
    assert_eq!(decoded.top_left, size(1.0, 1.5));
    assert_eq!(decoded.top_right, size(2.0, 2.5));
    assert_eq!(decoded.bottom_left, size(3.0, 3.5));
    assert_eq!(decoded.bottom_right, size(4.0, 4.5));
}

#[test]
fn swapped_declaration_reads_fields_crosswise() {
    // Field order, not field identity, governs the layout: a declaration
    // listing (height, width) reads the bytes of one listing (width,
    // height) crosswise, so the round trip through it does not restore the
    // value when the two fields differ.
    let s = size(6.0, 7.0);
    let swapped = decode_as_swapped(&s).unwrap();
    assert_eq!(swapped.height, fb(6.0));
    assert_eq!(swapped.width, fb(7.0));
    assert_ne!(Size2D { width: swapped.width, height: swapped.height }, s);

    // With both fields equal the crosswise reading is indistinguishable.
    let square = size(5.0, 5.0);
    let swapped_square = decode_as_swapped(&square).unwrap();
    assert_eq!(
        Size2D { width: swapped_square.width, height: swapped_square.height },
        square
    );
}

#[test]
fn display_item_round_trip() {
    let item = DisplayItem {
        item: SpecificDisplayItem::Border(BorderDisplayItem {
            left: BorderSide { width: fb(1.0), color: color(1.0, 0.0, 0.0, 1.0), style: BorderStyle::Solid },
            right: BorderSide { width: fb(2.0), color: color(0.0, 1.0, 0.0, 1.0), style: BorderStyle::Dotted },
            top: BorderSide { width: fb(3.0), color: color(0.0, 0.0, 1.0, 1.0), style: BorderStyle::Dashed },
            bottom: BorderSide { width: fb(4.0), color: color(0.0, 0.0, 0.0, 0.5), style: BorderStyle::Groove },
            radius: BorderRadius::uniform(fb(2.0)),
        }),
        rect: rect(10.0, 20.0, 300.0, 400.0),
        clip: ClipRegion { main: rect(0.0, 0.0, 800.0, 600.0), complex: ItemRange { start: 0, length: 0 } },
    };
    assert_eq!(round_trip(&item), Ok(item));
}

#[test]
fn specific_display_item_discriminants() {
    let cases: Vec<(SpecificDisplayItem, u8)> = vec![
        (SpecificDisplayItem::Rectangle(RectangleDisplayItem { color: color(0.0, 0.0, 0.0, 1.0) }), 0),
        (
            SpecificDisplayItem::Text(TextDisplayItem {
                glyphs: ItemRange { start: 1, length: 2 },
                font_key: FontKey::new(3, 4),
                size: Au(720),
                color: color(0.1, 0.2, 0.3, 1.0),
                blur_radius: Au(0),
            }),
            1,
        ),
        (
            SpecificDisplayItem::Image(ImageDisplayItem {
                image_key: ImageKey::new(5, 6),
                stretch_size: size(32.0, 32.0),
                image_rendering: ImageRendering::Pixelated,
            }),
            2,
        ),
        (SpecificDisplayItem::WebGL(WebGLDisplayItem { context_id: WebGLContextId(9) }), 3),
        (
            SpecificDisplayItem::Gradient(GradientDisplayItem {
                start_point: point(0.0, 0.0),
                end_point: point(100.0, 0.0),
                stops: ItemRange { start: 4, length: 3 },
            }),
            6,
        ),
    ];
    for (item, tag) in cases {
        let mut sink = Sink::new();
        item.encode(&mut sink).unwrap();
        let bytes = sink.into_bytes();
        assert_eq!(bytes[0], tag);
        let mut source = Source::new(bytes);
        assert_eq!(SpecificDisplayItem::decode(&mut source), Ok(item));
        assert_eq!(source.remaining(), 0);
    }
    let mut source = Source::new(vec![7]);
    assert_eq!(
        SpecificDisplayItem::decode(&mut source),
        Err(DecodeError::UnknownVariant(UnionName::SpecificDisplayItem))
    );
}

#[test]
fn box_shadow_round_trip() {
    let shadow = BoxShadowDisplayItem {
        box_bounds: rect(1.0, 2.0, 3.0, 4.0),
        offset: point(5.0, 6.0),
        color: color(0.0, 0.0, 0.0, 0.25),
        blur_radius: fb(7.0),
        spread_radius: fb(8.0),
        border_radius: fb(9.0),
        clip_mode: BoxShadowClipMode::Outset,
    };
    assert_eq!(round_trip(&shadow), Ok(shadow));
}

#[test]
fn native_font_handle_encodes_to_nothing() {
    let mut sink = Sink::new();
    NativeFontHandle.encode(&mut sink).unwrap();
    let bytes = sink.into_bytes();
    assert_eq!(bytes.len(), 0);
    let mut source = Source::new(bytes);
    assert_eq!(NativeFontHandle::decode(&mut source), Ok(NativeFontHandle));
}

#[test]
fn clip_region_stores_complex_regions_out_of_line() {
    let mut builder = AuxiliaryListsBuilder::new();
    let first = vec![ComplexClipRegion::new(rect(0.0, 0.0, 10.0, 10.0), BorderRadius::zero())];
    let region = ClipRegion::new(&rect(0.0, 0.0, 100.0, 100.0), first, &mut builder);
    assert_eq!(region.complex, ItemRange { start: 0, length: 1 });

    let more = vec![
        ComplexClipRegion::new(rect(1.0, 1.0, 2.0, 2.0), BorderRadius::uniform(fb(1.0))),
        ComplexClipRegion::new(rect(3.0, 3.0, 4.0, 4.0), BorderRadius::uniform(fb(2.0))),
    ];
    let region2 = ClipRegion::new(&rect(0.0, 0.0, 50.0, 50.0), more, &mut builder);
    assert_eq!(region2.complex, ItemRange { start: 1, length: 2 });
    assert_eq!(builder.complex_clip_regions.len(), 3);
    assert_eq!(round_trip(&region2), Ok(region2));
}

#[test]
fn truncated_source_fails_with_unexpected_end() {
    let mut sink = Sink::new();
    rect(1.0, 2.0, 3.0, 4.0).encode(&mut sink).unwrap();
    let mut bytes = sink.into_bytes();
    bytes.truncate(15); // one byte short of the sixteen the rectangle needs
    let mut source = Source::new(bytes);
    assert_eq!(Rect::decode(&mut source), Err(DecodeError::UnexpectedEnd));
}

#[test]
fn full_sink_fails_with_sink_full() {
    let mut sink = Sink::with_limit(3);
    let outcome = 0x01020304_u32.encode(&mut sink);
    assert_eq!(outcome, Err(EncodeError::SinkFull));
}

#[test]
fn partial_writes_stay_written() {
    // A record whose first field fits but whose second does not leaves the
    // first field's bytes in the sink: this layer rolls nothing back.
    let mut sink = Sink::with_limit(6);
    let outcome = StackingContextId(1, 2).encode(&mut sink);
    assert_eq!(outcome, Err(EncodeError::SinkFull));
    assert_eq!(sink.bytes, vec![1, 0, 0, 0]);
}

#[test]
fn border_side_with_bad_style_byte_fails() {
    let side = BorderSide { width: fb(1.0), color: color(0.0, 0.0, 0.0, 1.0), style: BorderStyle::Solid };
    let mut sink = Sink::new();
    side.encode(&mut sink).unwrap();
    let mut bytes = sink.into_bytes();
    let last = bytes.len() - 1;
    bytes[last] = 10; // corrupt the trailing style discriminant
    let mut source = Source::new(bytes);
    assert_eq!(
        BorderSide::decode(&mut source),
        Err(DecodeError::UnknownVariant(UnionName::BorderStyle))
    );
}
