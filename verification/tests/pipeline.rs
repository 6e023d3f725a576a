use pngquant_interactive::encode::{Encode, Priority};
use pngquant_interactive::preview::{Params, Preview};
use pngquant_interactive::source::Source;
use pngquant_interactive::utilities::{Rgb, Rgba};
use pngquant_interactive::PipelineError;

/// A 4x4 image with three distinct colors and no alpha channel.
fn three_color_source() -> Source {
    let colors = [
        Rgb { r: 255, g: 0, b: 0 },
        Rgb { r: 0, g: 255, b: 0 },
        Rgb { r: 0, g: 0, b: 255 },
    ];
    let mut pixels = Vec::new();
    for i in 0..16 {
        pixels.push(colors[i % 3]);
    }
    Source::from_rgb(4, 4, pixels)
}

/// A 2x2 image with four distinct colors, carrying an alpha channel.
fn four_color_source() -> Source {
    let pixels = vec![
        Rgba { r: 255, g: 0, b: 0, a: 255 },
        Rgba { r: 0, g: 255, b: 0, a: 255 },
        Rgba { r: 0, g: 0, b: 255, a: 255 },
        Rgba { r: 255, g: 255, b: 0, a: 128 },
    ];
    Source::from_rgba(2, 2, pixels)
}

fn full_quality() -> Params {
    Params { dithering: 0, effort: 10, preservation: 100 }
}

#[test]
fn from_rgb_adds_opaque_alpha() {
    let source = Source::from_rgb(1, 1, vec![Rgb { r: 10, g: 20, b: 30 }]);
    assert!(!source.uses_alpha);
    assert_eq!(source.rgba, vec![Rgba { r: 10, g: 20, b: 30, a: 255 }]);
}

#[test]
fn from_rgba_keeps_pixels() {
    let pixels = vec![Rgba { r: 10, g: 20, b: 30, a: 40 }];
    let source = Source::from_rgba(1, 1, pixels.clone());
    assert!(source.uses_alpha);
    assert_eq!(source.rgba, pixels);
}

#[test]
fn quantize_three_colors_concrete() {
    let mut preview = Preview::from(three_color_source());
    preview.quantize(&full_quality()).unwrap();
    let palette = preview.palette_rgba.as_ref().unwrap();
    let indices = preview.quantized_indexed.as_ref().unwrap();
    assert_eq!(palette.len(), 3);
    assert_eq!(indices.len(), 16);
    assert!(indices.iter().all(|&i| (i as usize) < 3));
}

#[test]
fn quantize_is_idempotent() {
    let params = Params { dithering: 3, effort: 7, preservation: 80 };
    let mut a = Preview::from(three_color_source());
    a.quantize(&params).unwrap();
    let palette_first = a.palette_rgba.clone().unwrap();
    let indices_first = a.quantized_indexed.clone().unwrap();
    a.quantize(&params).unwrap();
    assert_eq!(a.palette_rgba.clone().unwrap(), palette_first);
    assert_eq!(a.quantized_indexed.clone().unwrap(), indices_first);

    // A separate session over the same pixels agrees bit for bit.
    let mut b = Preview::from(three_color_source());
    b.quantize(&params).unwrap();
    assert_eq!(b.palette_rgba.clone().unwrap(), palette_first);
    assert_eq!(b.quantized_indexed.clone().unwrap(), indices_first);
}

#[test]
fn dithering_only_changes_reuse_the_search() {
    let mut preview = Preview::from(three_color_source());
    preview.quantize(&Params { dithering: 0, effort: 10, preservation: 100 }).unwrap();
    assert_eq!(preview.searches, 1);
    preview.quantize(&Params { dithering: 5, effort: 10, preservation: 100 }).unwrap();
    assert_eq!(preview.searches, 1);
    preview.quantize(&Params { dithering: 10, effort: 10, preservation: 100 }).unwrap();
    assert_eq!(preview.searches, 1);
}

#[test]
fn effort_or_preservation_changes_search_again() {
    let mut preview = Preview::from(three_color_source());
    preview.quantize(&Params { dithering: 0, effort: 10, preservation: 100 }).unwrap();
    assert_eq!(preview.searches, 1);
    preview.quantize(&Params { dithering: 0, effort: 9, preservation: 100 }).unwrap();
    assert_eq!(preview.searches, 2);
    preview.quantize(&Params { dithering: 0, effort: 9, preservation: 90 }).unwrap();
    assert_eq!(preview.searches, 3);
    preview.quantize(&Params { dithering: 4, effort: 9, preservation: 90 }).unwrap();
    assert_eq!(preview.searches, 3);
}

#[test]
fn quantize_rejects_empty_image() {
    let mut preview = Preview::from(Source::from_rgb(0, 0, Vec::new()));
    let r = preview.quantize(&full_quality());
    assert_eq!(r, Err(PipelineError::Quantizer));
}

#[test]
fn display_returns_native_render_for_large_viewport() {
    let mut preview = Preview::from(three_color_source());
    preview.quantize(&full_quality()).unwrap();
    let image = preview.display(100, 100);
    assert_eq!(image.width, 4);
    assert_eq!(image.height, 4);
    assert_eq!(image.display_width, 4);
    assert_eq!(image.display_height, 4);
    assert_eq!(image.rgba.len(), 4 * 4 * 4);
}

#[test]
fn display_shrinks_only_for_small_viewport() {
    let mut preview = Preview::from(three_color_source());
    preview.quantize(&full_quality()).unwrap();
    let image = preview.display(2, 2);
    assert_eq!(image.display_width, 2);
    assert_eq!(image.display_height, 2);
    // The buffer itself stays at native resolution; the presentation layer
    // performs the downscale.
    assert_eq!(image.rgba.len(), 4 * 4 * 4);
}

#[test]
fn display_matches_palette_lookup() {
    let mut preview = Preview::from(three_color_source());
    preview.quantize(&full_quality()).unwrap();
    let palette = preview.palette_rgba.clone().unwrap();
    let indices = preview.quantized_indexed.clone().unwrap();
    let image = preview.display(4, 4);
    let mut expected = Vec::new();
    for &i in &indices {
        let p = palette[i as usize];
        expected.push(p.r);
        expected.push(p.g);
        expected.push(p.b);
        expected.push(p.a);
    }
    assert_eq!(image.rgba, expected);
    // The flattening is now cached for the next display.
    assert_eq!(preview.quantized_rgba.clone().unwrap(), expected);
}

#[test]
fn quantize_drops_cached_render() {
    let mut preview = Preview::from(three_color_source());
    preview.quantize(&full_quality()).unwrap();
    preview.display(4, 4);
    assert!(preview.quantized_rgba.is_some());
    preview.quantize(&Params { dithering: 5, effort: 10, preservation: 100 }).unwrap();
    assert!(preview.quantized_rgba.is_none());
}

#[test]
fn export_has_no_alpha_table_for_opaque_source() {
    let mut preview = Preview::from(three_color_source());
    preview.quantize(&full_quality()).unwrap();
    let bytes = preview.encode(Priority::Size).unwrap();
    let decoder = png::Decoder::new(std::io::Cursor::new(bytes.as_slice()));
    let reader = decoder.read_info().unwrap();
    let info = reader.info();
    assert!(info.palette.is_some());
    assert!(info.trns.is_none());
}

#[test]
fn export_alpha_table_length_equals_palette_length() {
    let mut preview = Preview::from(four_color_source());
    preview.quantize(&full_quality()).unwrap();
    let bytes = preview.encode(Priority::Size).unwrap();
    let decoder = png::Decoder::new(std::io::Cursor::new(bytes.as_slice()));
    let reader = decoder.read_info().unwrap();
    let info = reader.info();
    let palette = info.palette.as_ref().unwrap();
    let trns = info.trns.as_ref().unwrap();
    assert_eq!(palette.len() % 3, 0);
    assert_eq!(trns.len(), palette.len() / 3);
}

#[test]
fn export_roundtrips_to_source_colors() {
    let mut preview = Preview::from(three_color_source());
    preview.quantize(&full_quality()).unwrap();
    let bytes = preview.encode(Priority::Size).unwrap();
    let decoder = png::Decoder::new(std::io::Cursor::new(bytes.as_slice()));
    let mut reader = decoder.read_info().unwrap();
    let mut buf = vec![0; reader.output_buffer_size().unwrap()];
    let out = reader.next_frame(&mut buf).unwrap();
    assert_eq!(out.width, 4);
    assert_eq!(out.height, 4);
}

#[test]
fn estimate_equals_fast_encode_length() {
    let mut preview = Preview::from(three_color_source());
    preview.quantize(&full_quality()).unwrap();
    let bytes = preview.encode(Priority::Speed).unwrap();
    assert_eq!(preview.estimate().unwrap(), bytes.len());
}

#[test]
fn best_compression_is_no_larger_than_fast() {
    let mut preview = Preview::from(three_color_source());
    preview.quantize(&full_quality()).unwrap();
    let fast = preview.encode(Priority::Speed).unwrap();
    let best = preview.encode(Priority::Size).unwrap();
    assert!(best.len() <= fast.len());
}

#[test]
fn estimate_within_source_bound() {
    // Four distinct colors over a 16x16 grid; at this size the palette and
    // transparency chunks of the indexed encoding are paid for, so the
    // quantized estimate stays within the source's own estimate. (On a tiny
    // image, such as 2x2, that fixed chunk overhead exceeds the saving and
    // the bound does not hold.)
    let colors = [
        Rgba { r: 255, g: 0, b: 0, a: 255 },
        Rgba { r: 0, g: 255, b: 0, a: 255 },
        Rgba { r: 0, g: 0, b: 255, a: 255 },
        Rgba { r: 255, g: 255, b: 0, a: 128 },
    ];
    let mut pixels = Vec::new();
    for i in 0..256 {
        pixels.push(colors[(i / 3) % 4]);
    }
    let source = Source::from_rgba(16, 16, pixels);
    let baseline = source.estimate().unwrap();
    let mut preview = Preview::from(source);
    preview.quantize(&full_quality()).unwrap();
    assert!(preview.estimate().unwrap() <= baseline);
}

#[test]
fn empty_source_encode_fails_codec() {
    let source = Source::from_rgb(0, 0, Vec::new());
    assert_eq!(source.encode(Priority::Speed), Err(PipelineError::Codec));
    assert_eq!(source.estimate(), Err(PipelineError::Codec));
}

#[test]
fn estimate_fails_as_encode_does() {
    let mut preview = Preview::from(Source::from_rgb(0, 0, Vec::new()));
    preview.palette_rgba = Some(vec![Rgba { r: 0, g: 0, b: 0, a: 255 }]);
    preview.quantized_indexed = Some(Vec::new());
    assert_eq!(preview.encode(Priority::Speed), Err(PipelineError::Codec));
    assert_eq!(preview.estimate(), Err(PipelineError::Codec));
}

#[test]
fn encode_fails_codec_on_degenerate_dimensions() {
    let mut preview = Preview::from(Source::from_rgb(0, 0, Vec::new()));
    // Hand the session a remapping directly: the quantizer refuses an empty
    // image, but the codec path can still be driven.
    preview.palette_rgba = Some(vec![Rgba { r: 0, g: 0, b: 0, a: 255 }]);
    preview.quantized_indexed = Some(Vec::new());
    let r = preview.encode(Priority::Speed);
    assert_eq!(r, Err(PipelineError::Codec));
}
