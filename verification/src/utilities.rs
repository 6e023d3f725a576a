//! Small building blocks: pixel value types, the single-entry cache, and the
//! byte-counting sink used for size estimation.

use vstd::prelude::*;
use vstd::std_specs::cmp::PartialEqSpec;

verus! {

/// One RGBA pixel, eight bits per channel.
#[derive(Clone, Copy, PartialEq, Eq, Structural, Debug)]
pub struct Rgba {
    pub r: u8,
    pub g: u8,
    pub b: u8,
    pub a: u8,
}

/// One RGB pixel, eight bits per channel.
#[derive(Clone, Copy, PartialEq, Eq, Structural, Debug)]
pub struct Rgb {
    pub r: u8,
    pub g: u8,
    pub b: u8,
}

impl Rgba {
    /// The color channels of this pixel, with the alpha channel dropped.
    pub open spec fn rgb(self) -> Rgb {
        Rgb { r: self.r, g: self.g, b: self.b }
    }

    /// Builds a pixel from its channels.
    pub fn new(r: u8, g: u8, b: u8, a: u8) -> (p: Rgba)
        ensures
            p == (Rgba { r, g, b, a }),
    {
        Rgba { r, g, b, a }
    }
}

impl Rgb {
    /// This color extended with the given alpha channel.
    pub open spec fn alpha(self, a: u8) -> Rgba {
        Rgba { r: self.r, g: self.g, b: self.b, a }
    }
}

/// Pixel sequences that can be split into color and alpha parts.
pub trait RGBAs {
    spec fn rgbas(&self) -> Seq<Rgba>;

    /// Splits the pixels into their color parts and their alpha channels.
    fn separate_alpha(&self) -> (r: (Vec<Rgb>, Vec<u8>))
        ensures
            r.0@ == self.rgbas().map_values(|p: Rgba| p.rgb()),
            r.1@ == self.rgbas().map_values(|p: Rgba| p.a),
    ;

    /// The color parts of the pixels, with the alpha channels dropped.
    fn without_alpha(&self) -> (r: Vec<Rgb>)
        ensures
            r@ == self.rgbas().map_values(|p: Rgba| p.rgb()),
    ;
}

impl RGBAs for Vec<Rgba> {
    open spec fn rgbas(&self) -> Seq<Rgba> {
        self@
    }

    fn separate_alpha(&self) -> (r: (Vec<Rgb>, Vec<u8>)) {
        let mut rgb: Vec<Rgb> = Vec::new();
        let mut a: Vec<u8> = Vec::new();
        let mut i: usize = 0;
        while i < self.len()
            invariant
                i <= self@.len(),
                rgb@.len() == i,
                a@.len() == i,
                forall|j: int| 0 <= j < i ==> rgb@[j] == self@[j].rgb(),
                forall|j: int| 0 <= j < i ==> a@[j] == self@[j].a,
            decreases self@.len() - i,
        {
            let p = self[i];
            rgb.push(Rgb { r: p.r, g: p.g, b: p.b });
            a.push(p.a);
            i += 1;
        }
        proof {
            assert(rgb@ =~= self@.map_values(|p: Rgba| p.rgb()));
            assert(a@ =~= self@.map_values(|p: Rgba| p.a));
        }
        (rgb, a)
    }

    fn without_alpha(&self) -> (r: Vec<Rgb>) {
        let mut rgb: Vec<Rgb> = Vec::new();
        let mut i: usize = 0;
        while i < self.len()
            invariant
                i <= self@.len(),
                rgb@.len() == i,
                forall|j: int| 0 <= j < i ==> rgb@[j] == self@[j].rgb(),
            decreases self@.len() - i,
        {
            let p = self[i];
            rgb.push(Rgb { r: p.r, g: p.g, b: p.b });
            i += 1;
        }
        proof {
            assert(rgb@ =~= self@.map_values(|p: Rgba| p.rgb()));
        }
        rgb
    }
}

/// Color sequences that can be extended with an opaque alpha channel.
pub trait RGBs {
    spec fn rgbs(&self) -> Seq<Rgb>;

    /// The colors extended with a fully opaque alpha channel.
    fn with_alpha(&self) -> (r: Vec<Rgba>)
        ensures
            r@ == self.rgbs().map_values(|p: Rgb| p.alpha(255)),
    ;
}

impl RGBs for Vec<Rgb> {
    open spec fn rgbs(&self) -> Seq<Rgb> {
        self@
    }

    fn with_alpha(&self) -> (r: Vec<Rgba>) {
        let mut rgba: Vec<Rgba> = Vec::new();
        let mut i: usize = 0;
        while i < self.len()
            invariant
                i <= self@.len(),
                rgba@.len() == i,
                forall|j: int| 0 <= j < i ==> rgba@[j] == self@[j].alpha(255),
            decreases self@.len() - i,
        {
            let p = self[i];
            rgba.push(Rgba { r: p.r, g: p.g, b: p.b, a: 255 });
            i += 1;
        }
        proof {
            assert(rgba@ =~= self@.map_values(|p: Rgb| p.alpha(255)));
        }
        rgba
    }
}

/// The bytes of a pixel sequence, four bytes per pixel, channel order
/// red, green, blue, alpha.
pub open spec fn rgba_bytes(pixels: Seq<Rgba>) -> Seq<u8> {
    Seq::new(
        pixels.len() * 4,
        |j: int|
            {
                let p = pixels[j / 4];
                if j % 4 == 0 {
                    p.r
                } else if j % 4 == 1 {
                    p.g
                } else if j % 4 == 2 {
                    p.b
                } else {
                    p.a
                }
            },
    )
}

/// The bytes of a color sequence, three bytes per pixel, channel order
/// red, green, blue.
pub open spec fn rgb_bytes(pixels: Seq<Rgb>) -> Seq<u8> {
    Seq::new(
        pixels.len() * 3,
        |j: int|
            {
                let p = pixels[j / 3];
                if j % 3 == 0 {
                    p.r
                } else if j % 3 == 1 {
                    p.g
                } else {
                    p.b
                }
            },
    )
}

/// Flattens pixels into their bytes, four per pixel.
pub fn rgba_bytes_vec(pixels: &Vec<Rgba>) -> (r: Vec<u8>)
    ensures
        r@ == rgba_bytes(pixels@),
{
    let mut bytes: Vec<u8> = Vec::new();
    let mut i: usize = 0;
    while i < pixels.len()
        invariant
            i <= pixels@.len(),
            bytes@.len() == i * 4,
            forall|j: int| 0 <= j < i * 4 ==> bytes@[j] == rgba_bytes(pixels@)[j],
        decreases pixels@.len() - i,
    {
        let p = pixels[i];
        bytes.push(p.r);
        bytes.push(p.g);
        bytes.push(p.b);
        bytes.push(p.a);
        proof {
            assert forall|j: int| i * 4 <= j < i * 4 + 4 implies bytes@[j] == rgba_bytes(
                pixels@,
            )[j] by {
                assert(j / 4 == i as int) by (nonlinear_arith)
                    requires
                        i * 4 <= j < i * 4 + 4,
                ;
            }
        }
        i += 1;
    }
    proof {
        assert(bytes@ =~= rgba_bytes(pixels@));
    }
    bytes
}

/// Flattens colors into their bytes, three per pixel.
pub fn rgb_bytes_vec(pixels: &Vec<Rgb>) -> (r: Vec<u8>)
    ensures
        r@ == rgb_bytes(pixels@),
{
    let mut bytes: Vec<u8> = Vec::new();
    let mut i: usize = 0;
    while i < pixels.len()
        invariant
            i <= pixels@.len(),
            bytes@.len() == i * 3,
            forall|j: int| 0 <= j < i * 3 ==> bytes@[j] == rgb_bytes(pixels@)[j],
        decreases pixels@.len() - i,
    {
        let p = pixels[i];
        bytes.push(p.r);
        bytes.push(p.g);
        bytes.push(p.b);
        proof {
            assert forall|j: int| i * 3 <= j < i * 3 + 3 implies bytes@[j] == rgb_bytes(
                pixels@,
            )[j] by {
                assert(j / 3 == i as int) by (nonlinear_arith)
                    requires
                        i * 3 <= j < i * 3 + 3,
                ;
            }
        }
        i += 1;
    }
    proof {
        assert(bytes@ =~= rgb_bytes(pixels@));
    }
    bytes
}

/// A memo that holds at most one `(key, value)` pair.
///
/// A lookup with a changed key always discards the old value before the new
/// one is computed, so at most one value is ever live: this is a never-stale
/// single-entry cache, not an LRU.
pub struct CachedOption<K, V>(pub Option<(K, V)>);

impl<K: PartialEq, V> Default for CachedOption<K, V> {
    /// The empty cache.
    fn default() -> (r: Self)
        ensures
            r.0 is None,
    {
        CachedOption(None)
    }
}

impl<K: PartialEq, V> CachedOption<K, V> {
    /// Returns the stored value if `key` matches the stored key; otherwise
    /// drops the stored entry, computes a fresh value with `f`, stores it
    /// under `key` and returns it.
    pub fn get_or_insert_with<F: FnOnce() -> V>(&mut self, key: K, f: F) -> (r: &mut V)
        requires
            K::obeys_eq_spec(),
            (match old(self).0 {
                Some((k, _)) => !k.eq_spec(&key),
                None => true,
            }) ==> call_requires(f, ()),
        ensures
            match old(self).0 {
                Some((k, v)) => {
                    if k.eq_spec(&key) {
                        &&& *r == v
                        &&& final(self).0 == Some((k, *final(r)))
                    } else {
                        &&& call_ensures(f, (), *r)
                        &&& final(self).0 == Some((key, *final(r)))
                    }
                },
                None => {
                    &&& call_ensures(f, (), *r)
                    &&& final(self).0 == Some((key, *final(r)))
                },
            },
    {
        let stale = match &self.0 {
            Some((k, _)) => !(*k == key),
            None => true,
        };
        if stale {
            // Evict before computing: the old value is gone before `f` runs.
            self.0 = None;
            let v = f();
            self.0 = Some((key, v));
        }
        match &mut self.0 {
            Some(pair) => &mut pair.1,
            None => vstd::pervasive::unreached(),
        }
    }
}

/// A sink that only counts the bytes handed to it; used to measure an
/// encode's output size without touching disk.
pub struct CountingSink(pub usize);

impl Default for CountingSink {
    /// A sink that has counted nothing yet.
    fn default() -> (r: Self)
        ensures
            r.0 == 0,
    {
        CountingSink(0)
    }
}

impl CountingSink {
    /// How many bytes have been written into this sink.
    pub fn len(&self) -> (r: usize)
        ensures
            r == self.0,
    {
        self.0
    }

    /// Counts `input` as written and reports how much was accepted, which is
    /// always all of it.
    pub fn write(&mut self, input: &[u8]) -> (r: usize)
        requires
            old(self).0 + input@.len() <= usize::MAX,
        ensures
            final(self).0 == old(self).0 + input@.len(),
            r == input@.len(),
    {
        let size = input.len();
        self.0 += size;
        size
    }
}

} // verus!
