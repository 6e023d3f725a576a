//! The external quantizer collaborator, behind trusted declarations.
//!
//! The palette search and the remap are performed by the `imagequant` crate.
//! Its attribute and result handles are opaque here; what a result handle was
//! computed from is tracked by the uninterpreted function [`quant_key`], and
//! what remapping it yields at a given dithering level by [`remap_of`].
//! The crate is built without its thread pool, so both steps are functions of
//! their inputs alone.

use vstd::prelude::*;

use crate::utilities::Rgba;

verus! {

#[verifier::external_type_specification]
#[verifier::external_body]
pub struct ExAttributes(imagequant::Attributes);

#[verifier::external_type_specification]
#[verifier::external_body]
pub struct ExQuantizationResult(imagequant::QuantizationResult);

#[verifier::external_type_specification]
#[verifier::external_body]
pub struct ExLiqError(imagequant::Error);

/// What a quantization result was computed from: the bound image and the
/// speed and quality settings of the palette search.
pub ghost struct QuantKey {
    pub pixels: Seq<Rgba>,
    pub width: nat,
    pub height: nat,
    pub speed: int,
    pub quality: int,
}

/// A palette and a per-pixel index buffer derived from a quantization
/// result.
pub ghost struct Remapping {
    pub palette: Seq<Rgba>,
    pub indices: Seq<u8>,
}

pub uninterp spec fn quant_key(q: imagequant::QuantizationResult) -> QuantKey;

pub uninterp spec fn remap_of(k: QuantKey, dithering: u8) -> Remapping;

/// Relies on imagequant::new: a fresh attributes object with the crate's
/// default settings; the library never changes any setting other than speed
/// and quality, which the palette search re-sets before each use.
#[verifier::external_body]
pub(crate) fn new_quantizer() -> imagequant::Attributes {
    imagequant::new()
}

/// Runs the expensive palette search.
///
/// Relies on Attributes::set_speed, Attributes::set_quality (with minimum 0,
/// so the search never aborts for unmet quality), Attributes::new_image_borrowed
/// and Attributes::quantize. With the crate's thread pool disabled the result
/// is a function of the pixels, the dimensions, the speed and the quality
/// alone, which is what `quant_key` records. That key is sufficient only
/// while every other attribute setting keeps the crate's default: the
/// library constructs attributes solely through `new_quantizer` and wraps no
/// other setter, so no reachable value deviates from default-plus-speed-and-
/// quality.
#[verifier::external_body]
pub(crate) fn search_palette(
    attr: &mut imagequant::Attributes,
    pixels: &Vec<Rgba>,
    width: usize,
    height: usize,
    speed: u8,
    quality: u8,
) -> (r: Result<imagequant::QuantizationResult, imagequant::Error>)
    requires
        1 <= speed <= 10,
        quality <= 100,
        pixels@.len() == width * height,
    ensures
        r matches Ok(q) ==> quant_key(q) == (QuantKey {
            pixels: pixels@,
            width: width as nat,
            height: height as nat,
            speed: speed as int,
            quality: quality as int,
        }),
{
    attr.set_speed(i32::from(speed))?;
    attr.set_quality(0, quality)?;
    let bitmap: Vec<imagequant::RGBA> = pixels.iter().map(
        |p| imagequant::RGBA::new(p.r, p.g, p.b, p.a),
    ).collect();
    let mut image = attr.new_image_borrowed(&bitmap, width, height, Default::default())?;
    attr.quantize(&mut image)
}

/// Sets the dithering level and remaps the bound image through the searched
/// palette.
///
/// Relies on QuantizationResult::set_dithering_level (the level is the given
/// tenths over the crate's 0..=1 scale), Attributes::new_image_borrowed and
/// QuantizationResult::remapped: the remap yields the palette, of at most 256
/// entries, and one palette index per pixel. Remapping clones the handle's
/// palette before refining it, so what the handle was computed from is
/// unchanged, and a later remap of the same handle yields the same result
/// again.
#[verifier::external_body]
pub(crate) fn remap(
    q: &mut imagequant::QuantizationResult,
    attr: &imagequant::Attributes,
    pixels: &Vec<Rgba>,
    width: usize,
    height: usize,
    dithering: u8,
) -> (r: Result<(Vec<Rgba>, Vec<u8>), imagequant::Error>)
    requires
        dithering <= 10,
        quant_key(*old(q)).pixels == pixels@,
        quant_key(*old(q)).width == width as nat,
        quant_key(*old(q)).height == height as nat,
        pixels@.len() == width * height,
    ensures
        quant_key(*final(q)) == quant_key(*old(q)),
        r matches Ok(p) ==> {
            &&& p.0@ == remap_of(quant_key(*old(q)), dithering).palette
            &&& p.1@ == remap_of(quant_key(*old(q)), dithering).indices
            &&& p.0@.len() <= 256
            &&& p.1@.len() == width * height
            &&& forall|i: int| 0 <= i < p.1@.len() ==> p.1@[i] < p.0@.len()
        },
{
    let bitmap: Vec<imagequant::RGBA> = pixels.iter().map(
        |p| imagequant::RGBA::new(p.r, p.g, p.b, p.a),
    ).collect();
    let mut image = attr.new_image_borrowed(&bitmap, width, height, Default::default())?;
    // The level is dithering tenths mapped onto the crate's 0..=1 scale.
    let mut level = q.dithering_level();
    let mut ten = level;
    level = From::from(dithering);
    ten = From::from(10u8);
    q.set_dithering_level(level / ten)?;
    let (palette, indices) = q.remapped(&mut image)?;
    Ok((palette.iter().map(|p| Rgba::new(p.r, p.g, p.b, p.a)).collect(), indices))
}

} // verus!
