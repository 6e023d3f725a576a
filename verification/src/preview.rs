//! The preview session: quantize, render, encode, estimate.

use vstd::prelude::*;

use crate::encode::{
    encode_indexed_png, encode_indexed_png_trns, indexed_png_of, indexed_png_trns_of, Encode,
    Priority,
};
use crate::quant::{new_quantizer, quant_key, remap, remap_of, search_palette, QuantKey};
use crate::source::Source;
use crate::utilities::{
    rgb_bytes, rgb_bytes_vec, rgba_bytes, CachedOption, CountingSink, RGBAs, Rgba,
};
use crate::PipelineError;

verus! {

/// The tunable parameters of a preview: the palette-search speed-quality
/// trade-off, the color-preservation cutoff, and the dithering strength.
#[derive(Clone, Copy, PartialEq, Eq, Structural, Debug)]
pub struct Params {
    pub dithering: u8,
    pub effort: u8,
    pub preservation: u8,
}

impl Params {
    /// The ranges the controls enforce.
    pub open spec fn valid(&self) -> bool {
        &&& 1 <= self.effort <= 10
        &&& self.preservation <= 100
        &&& self.dithering <= 10
    }
}

/// The flattened RGBA bytes of a palette-indexed image: four bytes per
/// pixel, each pixel looked up in the palette by its index.
pub open spec fn rendered(palette: Seq<Rgba>, indices: Seq<u8>) -> Seq<u8> {
    rgba_bytes(indices.map_values(|i: u8| palette[i as int]))
}

/// A native-resolution render together with the size the presentation layer
/// should show it at. The render is only ever downscaled for display, never
/// upscaled, so the display size equals the viewport only where the viewport
/// is smaller than the source.
pub struct RenderedImage {
    pub rgba: Vec<u8>,
    pub width: usize,
    pub height: usize,
    pub display_width: usize,
    pub display_height: usize,
}

/// The preview session: owns the source, the quantizer handle, the cached
/// palette search, and the most recent remapping with its lazily flattened
/// render.
pub struct Preview {
    pub source: Source,
    pub quantizer: imagequant::Attributes,
    pub quantization: CachedOption<(u8, u8), imagequant::QuantizationResult>,
    pub palette_rgba: Option<Vec<Rgba>>,
    pub quantized_indexed: Option<Vec<u8>>,
    pub quantized_rgba: Option<Vec<u8>>,
    /// How many times the expensive palette search has run.
    pub searches: u64,
}

impl Preview {
    /// The key the cached palette search is stored under, if any.
    pub open spec fn cached_key(&self) -> Option<(u8, u8)> {
        match self.quantization.0 {
            Some((k, _)) => Some(k),
            None => None,
        }
    }

    /// What a palette search over this session's source computes from, for
    /// the given effort and preservation.
    pub open spec fn search_key(&self, effort: u8, preservation: u8) -> QuantKey {
        QuantKey {
            pixels: self.source.rgba@,
            width: self.source.width as nat,
            height: self.source.height as nat,
            speed: 11 - effort,
            quality: preservation as int,
        }
    }

    /// The session's palette and indices are exactly what quantizing the
    /// source at `params` yields.
    pub open spec fn reflects(&self, params: Params) -> bool {
        &&& self.palette_rgba matches Some(pal) && pal@ == remap_of(
            self.search_key(params.effort, params.preservation),
            params.dithering,
        ).palette
        &&& self.quantized_indexed matches Some(idx) && idx@ == remap_of(
            self.search_key(params.effort, params.preservation),
            params.dithering,
        ).indices
    }

    /// Internal consistency: the cached search matches the source and its
    /// stored key, the remapping's indices point into its palette and cover
    /// the source's grid, and any flattened render matches the remapping.
    pub open spec fn wf(&self) -> bool {
        &&& self.source.wf()
        &&& match self.quantization.0 {
            Some((k, q)) => {
                &&& 1 <= k.0 <= 10
                &&& k.1 <= 100
                &&& quant_key(q) == self.search_key(k.0, k.1)
            },
            None => true,
        }
        &&& match (self.palette_rgba, self.quantized_indexed) {
            (Some(pal), Some(idx)) => {
                &&& pal@.len() <= 256
                &&& idx@.len() == self.source.width * self.source.height
                &&& forall|i: int| 0 <= i < idx@.len() ==> idx@[i] < pal@.len()
            },
            (None, None) => true,
            _ => false,
        }
        &&& match (self.quantized_rgba, self.palette_rgba, self.quantized_indexed) {
            (Some(render), Some(pal), Some(idx)) => render@ == rendered(pal@, idx@),
            (Some(render), _, _) => false,
            _ => true,
        }
    }

    /// Wraps a source for previewing; nothing is quantized yet.
    pub fn from(source: Source) -> (r: Preview)
        requires
            source.wf(),
        ensures
            r.wf(),
            r.source == source,
            r.cached_key() is None,
            r.palette_rgba is None,
            r.quantized_indexed is None,
            r.quantized_rgba is None,
            r.searches == 0,
    {
        Preview {
            source,
            quantizer: new_quantizer(),
            quantization: CachedOption::default(),
            palette_rgba: None,
            quantized_indexed: None,
            quantized_rgba: None,
            searches: 0,
        }
    }

    /// Obtains the palette search for `(effort, preservation)` — from the
    /// cache when the key is unchanged, else by evicting the old entry and
    /// searching anew — then remaps the source at the given dithering level,
    /// atomically swapping in the fresh palette and indices and dropping the
    /// stale flattened render.
    ///
    /// On an error from the quantizer the previous remapping is left in
    /// place. The palette search runs exactly once when the key changed and
    /// never when it is cached, whatever the outcome.
    pub fn quantize(&mut self, params: &Params) -> (r: Result<(), PipelineError>)
        requires
            old(self).wf(),
            params.valid(),
            old(self).searches < u64::MAX,
        ensures
            final(self).wf(),
            final(self).source == old(self).source,
            final(self).searches == old(self).searches + (if old(self).cached_key() == Some(
                (params.effort, params.preservation),
            ) {
                0int
            } else {
                1int
            }),
            r is Ok ==> {
                &&& final(self).reflects(*params)
                &&& final(self).quantized_rgba is None
                &&& final(self).cached_key() == Some((params.effort, params.preservation))
            },
            r is Err ==> {
                &&& final(self).palette_rgba == old(self).palette_rgba
                &&& final(self).quantized_indexed == old(self).quantized_indexed
                &&& final(self).quantized_rgba == old(self).quantized_rgba
                &&& r == Err::<(), PipelineError>(PipelineError::Quantizer)
                &&& final(self).cached_key() == Some((params.effort, params.preservation))
                    || final(self).cached_key() is None
            },
            old(self).cached_key() == Some((params.effort, params.preservation))
                ==> final(self).cached_key() == old(self).cached_key(),
    {
        let key = (params.effort, params.preservation);
        let hit = match &self.quantization.0 {
            Some((k, _)) => k.0 == key.0 && k.1 == key.1,
            None => false,
        };
        if !hit {
            // Evict before searching: at most one search result is ever live.
            self.quantization.0 = None;
            self.searches += 1;
            let speed = 11 - params.effort;
            let q = match search_palette(
                &mut self.quantizer,
                &self.source.rgba,
                self.source.width,
                self.source.height,
                speed,
                params.preservation,
            ) {
                Ok(q) => q,
                Err(_) => {
                    return Err(PipelineError::Quantizer);
                },
            };
            self.quantization.0 = Some((key, q));
        }
        let taken = self.quantization.0.take();
        let (stored_key, mut q) = match taken {
            Some(pair) => pair,
            None => vstd::pervasive::unreached(),
        };
        let remapped = remap(
            &mut q,
            &self.quantizer,
            &self.source.rgba,
            self.source.width,
            self.source.height,
            params.dithering,
        );
        self.quantization.0 = Some((stored_key, q));
        match remapped {
            Ok((palette, indices)) => {
                self.quantized_rgba = None;
                self.palette_rgba = Some(palette);
                self.quantized_indexed = Some(indices);
                Ok(())
            },
            Err(_) => Err(PipelineError::Quantizer),
        }
    }

    /// Flattens the current remapping into RGBA bytes — reusing the cached
    /// flattening if one is live — and picks the display size: the viewport
    /// where the viewport is smaller than the source in either dimension,
    /// else the source's own size.
    pub fn display(&mut self, width: usize, height: usize) -> (r: RenderedImage)
        requires
            old(self).wf(),
            old(self).palette_rgba is Some,
        ensures
            final(self).wf(),
            *final(self) == (Preview { quantized_rgba: final(self).quantized_rgba, ..*old(self) }),
            final(self).quantized_rgba matches Some(render) && render@ == r.rgba@,
            ({
                let pal = old(self).palette_rgba->0;
                let idx = old(self).quantized_indexed->0;
                r.rgba@ == rendered(pal@, idx@)
            }),
            r.width == old(self).source.width,
            r.height == old(self).source.height,
            (width < old(self).source.width || height < old(self).source.height) ==> (
            r.display_width == width && r.display_height == height),
            !(width < old(self).source.width || height < old(self).source.height) ==> (
            r.display_width == old(self).source.width && r.display_height == old(
                self).source.height),
    {
        let flat: Vec<u8> = match &self.quantized_rgba {
            Some(cached) => clone_bytes(cached),
            None => {
                match (&self.palette_rgba, &self.quantized_indexed) {
                    (Some(pal), Some(idx)) => flatten_indexed(pal, idx),
                    _ => vstd::pervasive::unreached(),
                }
            },
        };
        let out = clone_bytes(&flat);
        self.quantized_rgba = Some(flat);
        let shrink = width < self.source.width || height < self.source.height;
        let display_width = if shrink {
            width
        } else {
            self.source.width
        };
        let display_height = if shrink {
            height
        } else {
            self.source.height
        };
        RenderedImage {
            rgba: out,
            width: self.source.width,
            height: self.source.height,
            display_width,
            display_height,
        }
    }
}

impl Encode for Preview {
    open spec fn encodable(&self) -> bool {
        self.wf() && self.palette_rgba is Some
    }

    open spec fn representable(&self) -> bool {
        self.source.width <= u32::MAX && self.source.height <= u32::MAX
    }

    open spec fn nonempty(&self) -> bool {
        self.source.width > 0 && self.source.height > 0
    }

    open spec fn encoding(&self, priority: Priority) -> Seq<u8> {
        let pal = self.palette_rgba->0@;
        let idx = self.quantized_indexed->0@;
        if self.source.uses_alpha {
            indexed_png_trns_of(
                self.source.width as nat,
                self.source.height as nat,
                rgb_bytes(pal.map_values(|p: Rgba| p.rgb())),
                pal.map_values(|p: Rgba| p.a),
                idx,
                priority == Priority::Speed,
            )
        } else {
            indexed_png_of(
                self.source.width as nat,
                self.source.height as nat,
                rgb_bytes(pal.map_values(|p: Rgba| p.rgb())),
                idx,
                priority == Priority::Speed,
            )
        }
    }

    /// Writes the current remapping as a palette-indexed PNG; a transparency
    /// table, one alpha byte per palette entry, is written exactly where the
    /// source uses alpha.
    fn encode(&self, priority: Priority) -> (r: Result<Vec<u8>, PipelineError>) {
        let width = match u32::try_from(self.source.width) {
            Ok(w) => w,
            Err(_) => {
                return Err(PipelineError::Image);
            },
        };
        let height = match u32::try_from(self.source.height) {
            Ok(h) => h,
            Err(_) => {
                return Err(PipelineError::Image);
            },
        };
        let (palette, indices) = match (&self.palette_rgba, &self.quantized_indexed) {
            (Some(p), Some(i)) => (p, i),
            _ => vstd::pervasive::unreached(),
        };
        let fast = matches!(priority, Priority::Speed);
        if self.source.uses_alpha {
            let (rgb, alpha) = palette.separate_alpha();
            let pal_bytes = rgb_bytes_vec(&rgb);
            match encode_indexed_png_trns(width, height, &pal_bytes, &alpha, indices, fast) {
                Ok(v) => Ok(v),
                Err(_) => Err(PipelineError::Codec),
            }
        } else {
            let rgb = palette.without_alpha();
            let pal_bytes = rgb_bytes_vec(&rgb);
            match encode_indexed_png(width, height, &pal_bytes, indices, fast) {
                Ok(v) => Ok(v),
                Err(_) => Err(PipelineError::Codec),
            }
        }
    }

    fn estimate(&self) -> (r: Result<usize, PipelineError>) {
        let bytes = match self.encode(Priority::Speed) {
            Ok(bytes) => bytes,
            Err(e) => {
                return Err(e);
            },
        };
        let mut sink = CountingSink::default();
        let count = bytes.len();
        proof {
            assert(count == bytes@.len());
        }
        sink.write(bytes.as_slice());
        Ok(sink.len())
    }
}

/// Idempotence: two quantize runs with identical parameters over the same
/// unchanged source leave bit-identical palettes and index buffers, whether
/// or not the runs shared a session or its cache.
pub proof fn lemma_quantize_idempotent(a: Preview, b: Preview, params: Params)
    requires
        a.source == b.source,
        a.reflects(params),
        b.reflects(params),
    ensures
        a.palette_rgba->0@ == b.palette_rgba->0@,
        a.quantized_indexed->0@ == b.quantized_indexed->0@,
{
}

/// The statable half of the export round trip: an alpha-using source's
/// encoding carries a transparency table holding exactly the palette's alpha
/// channels in order — one entry per palette entry — beside the palette's
/// RGB bytes; a source without alpha encodes without any transparency
/// argument at all. That the codec decodes these chunks back is the codec's
/// own documented behaviour, exercised by the tests.
pub proof fn lemma_transparency_table(p: Preview, priority: Priority)
    requires
        p.encodable(),
    ensures
        ({
            let pal = p.palette_rgba->0@;
            let idx = p.quantized_indexed->0@;
            &&& p.source.uses_alpha ==> p.encoding(priority) == indexed_png_trns_of(
                p.source.width as nat,
                p.source.height as nat,
                rgb_bytes(pal.map_values(|x: Rgba| x.rgb())),
                pal.map_values(|x: Rgba| x.a),
                idx,
                priority == Priority::Speed,
            ) && pal.map_values(|x: Rgba| x.a).len() == pal.len()
            &&& !p.source.uses_alpha ==> p.encoding(priority) == indexed_png_of(
                p.source.width as nat,
                p.source.height as nat,
                rgb_bytes(pal.map_values(|x: Rgba| x.rgb())),
                idx,
                priority == Priority::Speed,
            )
        }),
{
}

/// Copies a byte vector.
fn clone_bytes(v: &Vec<u8>) -> (r: Vec<u8>)
    ensures
        r@ == v@,
{
    let mut out: Vec<u8> = Vec::new();
    let mut i: usize = 0;
    while i < v.len()
        invariant
            i <= v@.len(),
            out@ == v@.take(i as int),
        decreases v@.len() - i,
    {
        out.push(v[i]);
        proof {
            assert(out@ =~= v@.take(i + 1));
        }
        i += 1;
    }
    proof {
        assert(out@ =~= v@);
    }
    out
}

/// Flattens a palette-indexed image into RGBA bytes, four per pixel.
fn flatten_indexed(palette: &Vec<Rgba>, indices: &Vec<u8>) -> (r: Vec<u8>)
    requires
        forall|i: int| 0 <= i < indices@.len() ==> indices@[i] < palette@.len(),
    ensures
        r@ == rendered(palette@, indices@),
{
    let ghost looked_up = indices@.map_values(|i: u8| palette@[i as int]);
    let mut bytes: Vec<u8> = Vec::new();
    let mut i: usize = 0;
    while i < indices.len()
        invariant
            i <= indices@.len(),
            forall|j: int| 0 <= j < indices@.len() ==> indices@[j] < palette@.len(),
            looked_up == indices@.map_values(|i: u8| palette@[i as int]),
            bytes@.len() == i * 4,
            forall|j: int| 0 <= j < i * 4 ==> bytes@[j] == rgba_bytes(looked_up)[j],
        decreases indices@.len() - i,
    {
        let p = palette[indices[i] as usize];
        bytes.push(p.r);
        bytes.push(p.g);
        bytes.push(p.b);
        bytes.push(p.a);
        proof {
            assert(looked_up[i as int] == p);
            assert forall|j: int| i * 4 <= j < i * 4 + 4 implies bytes@[j] == rgba_bytes(
                looked_up,
            )[j] by {
                assert(j / 4 == i as int) by (nonlinear_arith)
                    requires
                        i * 4 <= j < i * 4 + 4,
                ;
            }
        }
        i += 1;
    }
    proof {
        assert(bytes@ =~= rgba_bytes(looked_up));
    }
    bytes
}

} // verus!
