use display_wire::codec::{round_trip, DecodeError, Sink, Source, UnionName, Wire};
use display_wire::geometry::{Au, FloatBits};
use display_wire::types::{
    BorderStyle, BoxShadowClipMode, DisplayListMode, FilterOp, FragmentType, ImageFormat,
    ImageRendering, MixBlendMode, ScrollLayerInfo, ScrollPolicy,
};

fn encode_to_bytes<T: Wire>(v: &T) -> Vec<u8> {
    let mut sink = Sink::new();
    v.encode(&mut sink).unwrap();
    sink.into_bytes()
}

#[test]
fn border_style_ninth_variant_is_byte_eight() {
    // Ten unit variants in a fixed declaration order: the 9th-declared
    // (0-based index 8) encodes as the single byte 0x08.
    assert_eq!(encode_to_bytes(&BorderStyle::Inset), vec![0x08]);
    let mut source = Source::new(vec![0x08]);
    assert_eq!(BorderStyle::decode(&mut source), Ok(BorderStyle::Inset));
    assert_eq!(source.remaining(), 0);
}

#[test]
fn border_style_unknown_discriminant_fails() {
    let mut source = Source::new(vec![0x0a]);
    assert_eq!(
        BorderStyle::decode(&mut source),
        Err(DecodeError::UnknownVariant(UnionName::BorderStyle))
    );
}

#[test]
fn border_style_discriminants_are_dense() {
    let styles = [
        BorderStyle::NoBorder,
        BorderStyle::Solid,
        BorderStyle::Double,
        BorderStyle::Dotted,
        BorderStyle::Dashed,
        BorderStyle::Hidden,
        BorderStyle::Groove,
        BorderStyle::Ridge,
        BorderStyle::Inset,
        BorderStyle::Outset,
    ];
    for (i, style) in styles.iter().enumerate() {
        // Unit variants carry no payload: one byte, the declaration index.
        assert_eq!(encode_to_bytes(style), vec![i as u8]);
        let mut source = Source::new(vec![i as u8, 0x55]);
        assert_eq!(BorderStyle::decode(&mut source), Ok(*style));
        assert_eq!(source.remaining(), 1);
        assert_eq!(round_trip(style), Ok(*style));
    }
}

#[test]
fn scroll_layer_info_unit_and_payload_variants() {
    // First variant is a unit value: exactly one byte.
    assert_eq!(encode_to_bytes(&ScrollLayerInfo::Fixed), vec![0x00]);
    let mut source = Source::new(vec![0x00]);
    assert_eq!(ScrollLayerInfo::decode(&mut source), Ok(ScrollLayerInfo::Fixed));
    assert_eq!(source.remaining(), 0);

    // Second variant carries one unsigned-size field: the discriminant
    // byte 0x01 followed by the primitive encoding of 7.
    let encoded = encode_to_bytes(&ScrollLayerInfo::Scrollable(7));
    assert_eq!(encoded, vec![0x01, 7, 0, 0, 0, 0, 0, 0, 0]);
    let mut source = Source::new(encoded);
    assert_eq!(
        ScrollLayerInfo::decode(&mut source),
        Ok(ScrollLayerInfo::Scrollable(7))
    );
    assert_eq!(source.remaining(), 0);
}

#[test]
fn scroll_layer_info_unknown_discriminant_fails() {
    let mut source = Source::new(vec![0x02]);
    assert_eq!(
        ScrollLayerInfo::decode(&mut source),
        Err(DecodeError::UnknownVariant(UnionName::ScrollLayerInfo))
    );
}

#[test]
fn filter_op_discriminants_and_payloads() {
    let blur = FilterOp::Blur(Au(60));
    assert_eq!(encode_to_bytes(&blur), vec![0x00, 60, 0, 0, 0]);
    assert_eq!(round_trip(&blur), Ok(blur));

    let sepia = FilterOp::Sepia(FloatBits { bits: 1.0f32.to_bits() });
    let encoded = encode_to_bytes(&sepia);
    assert_eq!(encoded[0], 0x08);
    assert_eq!(&encoded[1..], &1.0f32.to_bits().to_le_bytes());
    assert_eq!(round_trip(&sepia), Ok(sepia));

    let mut source = Source::new(vec![0x09]);
    assert_eq!(
        FilterOp::decode(&mut source),
        Err(DecodeError::UnknownVariant(UnionName::FilterOp))
    );
}

#[test]
fn small_union_round_trips() {
    for v in [BoxShadowClipMode::NoClip, BoxShadowClipMode::Outset, BoxShadowClipMode::Inset] {
        assert_eq!(round_trip(&v), Ok(v));
    }
    for v in [
        FragmentType::FragmentBody,
        FragmentType::BeforePseudoContent,
        FragmentType::AfterPseudoContent,
    ] {
        assert_eq!(round_trip(&v), Ok(v));
    }
    for v in [
        DisplayListMode::Default,
        DisplayListMode::PseudoFloat,
        DisplayListMode::PseudoPositionedContent,
    ] {
        assert_eq!(round_trip(&v), Ok(v));
    }
    for v in [ImageFormat::Invalid, ImageFormat::A8, ImageFormat::RGB8, ImageFormat::RGBA8] {
        assert_eq!(round_trip(&v), Ok(v));
    }
    for v in [ImageRendering::Auto, ImageRendering::CrispEdges, ImageRendering::Pixelated] {
        assert_eq!(round_trip(&v), Ok(v));
    }
    for v in [ScrollPolicy::Scrollable, ScrollPolicy::Fixed] {
        assert_eq!(round_trip(&v), Ok(v));
    }
}

#[test]
fn mix_blend_mode_has_sixteen_dense_discriminants() {
    let modes = [
        MixBlendMode::Normal,
        MixBlendMode::Multiply,
        MixBlendMode::Screen,
        MixBlendMode::Overlay,
        MixBlendMode::Darken,
        MixBlendMode::Lighten,
        MixBlendMode::ColorDodge,
        MixBlendMode::ColorBurn,
        MixBlendMode::HardLight,
        MixBlendMode::SoftLight,
        MixBlendMode::Difference,
        MixBlendMode::Exclusion,
        MixBlendMode::Hue,
        MixBlendMode::Saturation,
        MixBlendMode::Color,
        MixBlendMode::Luminosity,
    ];
    for (i, mode) in modes.iter().enumerate() {
        assert_eq!(encode_to_bytes(mode), vec![i as u8]);
        assert_eq!(round_trip(mode), Ok(*mode));
    }
    let mut source = Source::new(vec![16]);
    assert_eq!(
        MixBlendMode::decode(&mut source),
        Err(DecodeError::UnknownVariant(UnionName::MixBlendMode))
    );
}

#[test]
fn union_decode_from_empty_source_fails() {
    let mut source = Source::new(vec![]);
    assert_eq!(BorderStyle::decode(&mut source), Err(DecodeError::UnexpectedEnd));
}
