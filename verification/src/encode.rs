//! PNG encoding of previews and sources, and size estimation.
//!
//! The entropy coding itself is done by the `png` crate behind trusted
//! wrappers; what those wrappers return is named by the uninterpreted
//! functions below, so that every caller's contract can state exactly which
//! bytes it passes on. The crate's deflate backend is deterministic, so each
//! result is a function of the wrapper's arguments alone.

use vstd::prelude::*;

use crate::PipelineError;

verus! {

/// What an encode optimises for: `Size` spends time on the smallest output
/// (final export), `Speed` finishes quickly (size estimation).
#[derive(Clone, Copy, PartialEq, Eq, Structural, Debug)]
pub enum Priority {
    Size,
    Speed,
}

#[verifier::external_type_specification]
#[verifier::external_body]
pub struct ExEncodingError(png::EncodingError);

pub uninterp spec fn rgba_png_of(width: nat, height: nat, data: Seq<u8>, fast: bool) -> Seq<u8>;

pub uninterp spec fn indexed_png_of(
    width: nat,
    height: nat,
    palette: Seq<u8>,
    indices: Seq<u8>,
    fast: bool,
) -> Seq<u8>;

pub uninterp spec fn indexed_png_trns_of(
    width: nat,
    height: nat,
    palette: Seq<u8>,
    trns: Seq<u8>,
    indices: Seq<u8>,
    fast: bool,
) -> Seq<u8>;

/// Encodes raw RGBA rows as a PNG in memory.
///
/// Relies on png::Encoder::new, set_compression (`Fast` when fast, else
/// `High`), set_color (`Rgba`), write_header, Writer::write_image_data and
/// Writer::finish; the bytes written are a function of the arguments alone.
/// The encoder's only error returns are a zero dimension at the header and a
/// row-size mismatch at the pixel data; with positive dimensions and the
/// row-exact buffer the `requires` demands, every remaining write lands in
/// the in-memory vector, so the encode succeeds.
#[verifier::external_body]
pub(crate) fn encode_rgba_png(width: u32, height: u32, data: &Vec<u8>, fast: bool) -> (r: Result<
    Vec<u8>,
    png::EncodingError,
>)
    requires
        data@.len() == 4 * width * height,
    ensures
        r matches Ok(v) ==> v@ == rgba_png_of(width as nat, height as nat, data@, fast),
        width > 0 && height > 0 ==> r is Ok,
{
    let mut out: Vec<u8> = Vec::new();
    let mut enc = png::Encoder::new(&mut out, width, height);
    enc.set_compression(if fast { png::Compression::Fast } else { png::Compression::High });
    enc.set_color(png::ColorType::Rgba);
    let mut writer = enc.write_header()?;
    writer.write_image_data(data.as_slice())?;
    writer.finish()?;
    Ok(out)
}

/// Encodes a palette-indexed image as a PNG in memory, without a
/// transparency table.
///
/// Relies on png::Encoder::new, set_compression (`Fast` when fast, else
/// `High`), set_color (`Indexed`), set_palette, write_header,
/// Writer::write_image_data and Writer::finish; the bytes written are a
/// function of the arguments alone. The `requires` holds the palette to the
/// format's shape (whole RGB triples, at most 256 of them) and the index
/// buffer to one byte per pixel; the encoder's only error returns are a zero
/// dimension at the header, a missing palette (always set here) and a
/// row-size mismatch at the pixel data, so with positive dimensions the
/// encode succeeds.
#[verifier::external_body]
pub(crate) fn encode_indexed_png(
    width: u32,
    height: u32,
    palette: &Vec<u8>,
    indices: &Vec<u8>,
    fast: bool,
) -> (r: Result<Vec<u8>, png::EncodingError>)
    requires
        palette@.len() % 3 == 0,
        palette@.len() <= 768,
        indices@.len() == width * height,
    ensures
        r matches Ok(v) ==> v@ == indexed_png_of(
            width as nat,
            height as nat,
            palette@,
            indices@,
            fast,
        ),
        width > 0 && height > 0 ==> r is Ok,
{
    let mut out: Vec<u8> = Vec::new();
    let mut enc = png::Encoder::new(&mut out, width, height);
    enc.set_compression(if fast { png::Compression::Fast } else { png::Compression::High });
    enc.set_color(png::ColorType::Indexed);
    enc.set_palette(palette.as_slice());
    let mut writer = enc.write_header()?;
    writer.write_image_data(indices.as_slice())?;
    writer.finish()?;
    Ok(out)
}

/// Encodes a palette-indexed image as a PNG in memory, with a transparency
/// table giving each palette entry's alpha.
///
/// Relies on png::Encoder::new, set_compression (`Fast` when fast, else
/// `High`), set_color (`Indexed`), set_palette, set_trns, write_header,
/// Writer::write_image_data and Writer::finish; the bytes written are a
/// function of the arguments alone. The `requires` holds the palette to the
/// format's shape, the transparency table to one alpha byte per palette
/// entry, and the index buffer to one byte per pixel; as for
/// `encode_indexed_png`, the encoder's error returns are all excluded once
/// the dimensions are positive, so the encode succeeds.
#[verifier::external_body]
pub(crate) fn encode_indexed_png_trns(
    width: u32,
    height: u32,
    palette: &Vec<u8>,
    trns: &Vec<u8>,
    indices: &Vec<u8>,
    fast: bool,
) -> (r: Result<Vec<u8>, png::EncodingError>)
    requires
        palette@.len() % 3 == 0,
        palette@.len() <= 768,
        3 * trns@.len() == palette@.len(),
        indices@.len() == width * height,
    ensures
        r matches Ok(v) ==> v@ == indexed_png_trns_of(
            width as nat,
            height as nat,
            palette@,
            trns@,
            indices@,
            fast,
        ),
        width > 0 && height > 0 ==> r is Ok,
{
    let mut out: Vec<u8> = Vec::new();
    let mut enc = png::Encoder::new(&mut out, width, height);
    enc.set_compression(if fast { png::Compression::Fast } else { png::Compression::High });
    enc.set_color(png::ColorType::Indexed);
    enc.set_palette(palette.as_slice());
    enc.set_trns(trns.as_slice());
    let mut writer = enc.write_header()?;
    writer.write_image_data(indices.as_slice())?;
    writer.finish()?;
    Ok(out)
}

/// Values that can be written out as a PNG.
pub trait Encode {
    /// Whether this value is ready to be encoded.
    spec fn encodable(&self) -> bool;

    /// Whether the dimensions can be represented by the codec.
    spec fn representable(&self) -> bool;

    /// Whether there is at least one pixel; the codec refuses an image with
    /// a zero dimension.
    spec fn nonempty(&self) -> bool;

    /// The exact bytes a successful encode yields.
    spec fn encoding(&self, priority: Priority) -> Seq<u8>;

    /// Encodes this value as PNG bytes, spending effort according to
    /// `priority`. Success is owed whenever the dimensions are positive and
    /// representable: the codec's remaining work is deterministic and writes
    /// only to memory.
    fn encode(&self, priority: Priority) -> (r: Result<Vec<u8>, PipelineError>)
        requires
            self.encodable(),
        ensures
            r matches Ok(bytes) ==> bytes@ == self.encoding(priority),
            r == Err::<Vec<u8>, PipelineError>(PipelineError::Image) <==> !self.representable(),
            self.nonempty() && self.representable() ==> r is Ok,
    ;

    /// Encodes with fast compression through a byte-counting sink and
    /// returns the byte count, as a cheap proxy for the final file size.
    /// It succeeds exactly as the fast encode does, and hands an encode
    /// error on unchanged.
    fn estimate(&self) -> (r: Result<usize, PipelineError>)
        requires
            self.encodable(),
        ensures
            r matches Ok(n) ==> n == self.encoding(Priority::Speed).len(),
            r == Err::<usize, PipelineError>(PipelineError::Image) <==> !self.representable(),
            self.nonempty() && self.representable() ==> r is Ok,
    ;
}

} // verus!
