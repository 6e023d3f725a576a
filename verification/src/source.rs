//! The immutable decoded input image.

use vstd::prelude::*;

use crate::encode::{encode_rgba_png, rgba_png_of, Encode, Priority};
use crate::utilities::{rgba_bytes, rgba_bytes_vec, CountingSink, RGBs, Rgb, Rgba};
use crate::PipelineError;

verus! {

/// A decoded pixel buffer with its dimensions and alpha-usage flag.
///
/// A source is created once at startup from the decoded input and never
/// mutated afterwards.
pub struct Source {
    pub uses_alpha: bool,
    pub width: usize,
    pub height: usize,
    pub rgba: Vec<Rgba>,
}

impl Source {
    /// A well-formed source holds exactly one pixel per cell of its grid.
    pub open spec fn wf(&self) -> bool {
        self.rgba@.len() == self.width * self.height
    }

    /// Wraps a decoded image without an alpha channel; every pixel becomes
    /// fully opaque.
    pub fn from_rgb(width: usize, height: usize, pixels: Vec<Rgb>) -> (r: Source)
        requires
            pixels@.len() == width * height,
        ensures
            r.wf(),
            !r.uses_alpha,
            r.width == width,
            r.height == height,
            r.rgba@ == pixels@.map_values(|p: Rgb| p.alpha(255)),
    {
        Source { uses_alpha: false, width, height, rgba: pixels.with_alpha() }
    }

    /// Wraps a decoded image that carries an alpha channel.
    pub fn from_rgba(width: usize, height: usize, pixels: Vec<Rgba>) -> (r: Source)
        requires
            pixels@.len() == width * height,
        ensures
            r.wf(),
            r.uses_alpha,
            r.width == width,
            r.height == height,
            r.rgba@ == pixels@,
    {
        Source { uses_alpha: true, width, height, rgba: pixels }
    }
}

impl Encode for Source {
    open spec fn encodable(&self) -> bool {
        self.wf()
    }

    open spec fn representable(&self) -> bool {
        self.width <= u32::MAX && self.height <= u32::MAX
    }

    open spec fn nonempty(&self) -> bool {
        self.width > 0 && self.height > 0
    }

    open spec fn encoding(&self, priority: Priority) -> Seq<u8> {
        rgba_png_of(
            self.width as nat,
            self.height as nat,
            rgba_bytes(self.rgba@),
            priority == Priority::Speed,
        )
    }

    /// Writes the source itself, unquantized, as an RGBA PNG; its size
    /// estimate is the uncompressed baseline a quantized result is gauged
    /// against.
    fn encode(&self, priority: Priority) -> (r: Result<Vec<u8>, PipelineError>) {
        let width = match u32::try_from(self.width) {
            Ok(w) => w,
            Err(_) => {
                return Err(PipelineError::Image);
            },
        };
        let height = match u32::try_from(self.height) {
            Ok(h) => h,
            Err(_) => {
                return Err(PipelineError::Image);
            },
        };
        let bytes = rgba_bytes_vec(&self.rgba);
        let fast = matches!(priority, Priority::Speed);
        proof {
            assert(bytes@.len() == 4 * width * height) by (nonlinear_arith)
                requires
                    bytes@.len() == self.rgba@.len() * 4,
                    self.rgba@.len() == self.width * self.height,
                    width == self.width,
                    height == self.height,
            ;
        }
        match encode_rgba_png(width, height, &bytes, fast) {
            Ok(v) => Ok(v),
            Err(_) => Err(PipelineError::Codec),
        }
    }

    fn estimate(&self) -> (r: Result<usize, PipelineError>) {
        let bytes = match self.encode(Priority::Speed) {
            Ok(bytes) => bytes,
            Err(e) => {
                return Err(e);
            },
        };
        let mut sink = CountingSink::default();
        let count = bytes.len();
        proof {
            assert(count == bytes@.len());
        }
        sink.write(bytes.as_slice());
        Ok(sink.len())
    }
}

} // verus!
