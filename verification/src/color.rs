//! The canonical pixel and the conversion of raw codec output into it.

use vstd::prelude::*;

verus! {

/// How the bytes of one pixel are laid out in a raw buffer handed over by the codec.
#[derive(Clone, Copy, Debug, PartialEq, Eq, Structural)]
pub enum SourceLayout {
    /// Red, green, blue.
    Rgb,
    /// Red, green, blue, alpha.
    Rgba,
    /// Blue, green, red.
    Bgr,
    /// Blue, green, red, alpha.
    Bgra,
}

/// One pixel in canonical form: red, green and blue, no alpha.
#[derive(Clone, Copy, Debug, PartialEq, Eq, Structural)]
pub struct Pixel {
    pub r: u8,
    pub g: u8,
    pub b: u8,
}

impl Pixel {
    /// Channel `c` of the pixel in canonical order: 0 is red, 1 is green, and
    /// anything else is blue.
    pub open spec fn channel(self, c: int) -> u8 {
        if c == 0 {
            self.r
        } else if c == 1 {
            self.g
        } else {
            self.b
        }
    }
}

impl SourceLayout {
    /// Whether a fourth byte, the alpha, follows the three colours.
    pub open spec fn has_alpha(self) -> bool {
        self == SourceLayout::Rgba || self == SourceLayout::Bgra
    }

    /// Whether blue comes first, so that red and blue trade places on the way
    /// to canonical form.
    pub open spec fn blue_first(self) -> bool {
        self == SourceLayout::Bgr || self == SourceLayout::Bgra
    }

    /// Number of bytes that one pixel occupies in this layout.
    pub open spec fn spec_channels(self) -> usize {
        if self.has_alpha() {
            4
        } else {
            3
        }
    }

    /// Number of bytes that `n` pixels occupy in this layout, which is also
    /// where chunk `n` of a buffer starts.
    pub open spec fn span(self, n: int) -> int {
        if self.has_alpha() {
            4 * n
        } else {
            3 * n
        }
    }

    /// Number of whole chunks in a buffer of `len` bytes.
    pub open spec fn chunks_in(self, len: nat) -> nat {
        if self.has_alpha() {
            len / 4
        } else {
            len / 3
        }
    }

    /// Number of bytes that one pixel occupies in this layout.
    #[verifier::when_used_as_spec(spec_channels)]
    pub fn channels(self) -> (n: usize)
        ensures
            n == self.spec_channels(),
    {
        match self {
            SourceLayout::Rgb | SourceLayout::Bgr => 3,
            SourceLayout::Rgba | SourceLayout::Bgra => 4,
        }
    }
}

/// The canonical pixel held by chunk `i` of `raw`: the first three bytes of the
/// chunk, taken in order for the red-first layouts and back to front for the
/// blue-first ones. A fourth byte, the alpha, plays no part.
pub open spec fn source_pixel(raw: Seq<u8>, layout: SourceLayout, i: int) -> Pixel {
    let base = layout.span(i);
    if layout.blue_first() {
        Pixel { r: raw[base + 2], g: raw[base + 1], b: raw[base] }
    } else {
        Pixel { r: raw[base], g: raw[base + 1], b: raw[base + 2] }
    }
}

/// The canonical form of a raw buffer: one pixel for each whole chunk, in the
/// order of the chunks. Bytes after the last whole chunk belong to no pixel.
pub open spec fn normalized(raw: Seq<u8>, layout: SourceLayout) -> Seq<Pixel> {
    Seq::new(layout.chunks_in(raw.len()), |i: int| source_pixel(raw, layout, i))
}

/// Canonical pixels written out as bytes: three for each pixel, red first, in
/// the order of the pixels.
pub open spec fn flattened(pixels: Seq<Pixel>) -> Seq<u8> {
    Seq::new(3 * pixels.len(), |k: int| pixels[k / 3].channel(k % 3))
}

/// Reads the pixel of chunk `i`.
fn read_pixel(raw: &[u8], layout: SourceLayout, i: usize) -> (p: Pixel)
    requires
        i < layout.chunks_in(raw@.len()),
    ensures
        p == source_pixel(raw@, layout, i as int),
{
    assert(raw@.len() == raw.len());
    match layout {
        SourceLayout::Rgb => {
            let base: usize = 3 * i;
            Pixel { r: raw[base], g: raw[base + 1], b: raw[base + 2] }
        },
        SourceLayout::Rgba => {
            let base: usize = 4 * i;
            Pixel { r: raw[base], g: raw[base + 1], b: raw[base + 2] }
        },
        SourceLayout::Bgr => {
            let base: usize = 3 * i;
            Pixel { r: raw[base + 2], g: raw[base + 1], b: raw[base] }
        },
        SourceLayout::Bgra => {
            let base: usize = 4 * i;
            Pixel { r: raw[base + 2], g: raw[base + 1], b: raw[base] }
        },
    }
}

/// Converts a raw buffer in the given layout into canonical pixels.
///
/// The buffer is cut into chunks of the layout's channel count. Each chunk
/// gives one pixel, in the order of the chunks: alpha is dropped as it stands,
/// without blending, and red and blue trade places for the blue-first layouts.
/// A buffer whose length is no multiple of the channel count loses the bytes
/// after its last whole chunk.
pub fn normalize(raw: &[u8], layout: SourceLayout) -> (pixels: Vec<Pixel>)
    ensures
        pixels@ == normalized(raw@, layout),
        pixels@.len() == layout.chunks_in(raw@.len()),
        forall|i: int| 0 <= i < pixels@.len() ==> pixels@[i] == source_pixel(raw@, layout, i),
{
    let count: usize = raw.len() / layout.channels();
    let mut pixels: Vec<Pixel> = Vec::with_capacity(count);
    let mut i: usize = 0;
    while i < count
        invariant
            count == layout.chunks_in(raw@.len()),
            i <= count,
            pixels@.len() == i,
            forall|k: int| 0 <= k < i ==> pixels@[k] == source_pixel(raw@, layout, k),
        decreases count - i,
    {
        let p = read_pixel(raw, layout, i);
        pixels.push(p);
        i += 1;
    }
    pixels
}

/// Writes canonical pixels out as bytes, three for each pixel, red first.
pub fn flatten(pixels: &[Pixel]) -> (raw: Vec<u8>)
    ensures
        raw@ == flattened(pixels@),
        raw@.len() == 3 * pixels@.len(),
{
    let count: usize = pixels.len();
    let mut raw: Vec<u8> = Vec::new();
    let mut i: usize = 0;
    while i < count
        invariant
            count == pixels@.len(),
            i <= count,
            raw@.len() == 3 * i,
            forall|k: int| 0 <= k < 3 * i ==> raw@[k] == pixels@[k / 3].channel(k % 3),
        decreases count - i,
    {
        let p = pixels[i];
        raw.push(p.r);
        raw.push(p.g);
        raw.push(p.b);
        i += 1;
    }
    raw
}

/// The bytes of `n` pixels are `n` times the bytes of one.
pub proof fn lemma_span_is_product(layout: SourceLayout, n: int)
    ensures
        layout.span(n) == n * layout.channels(),
{
    if layout.has_alpha() {
        assert(n * 4 == 4 * n);
    } else {
        assert(n * 3 == 3 * n);
    }
}

/// A buffer of exactly `n` chunks normalizes to exactly `n` pixels, and pixel
/// `i` is read off chunk `i`: green from its second byte, red and blue from
/// its first and third, which of the two being decided by the layout alone.
pub proof fn lemma_normalized_whole_chunks(raw: Seq<u8>, layout: SourceLayout, n: nat)
    requires
        raw.len() == n * layout.channels(),
    ensures
        normalized(raw, layout).len() == n,
        forall|i: int|
            0 <= i < n ==> {
                let p = #[trigger] normalized(raw, layout)[i];
                let base = i * layout.channels();
                &&& 0 <= base && base + layout.channels() <= raw.len()
                &&& p.g == raw[base + 1]
                &&& layout.blue_first() ==> p.r == raw[base + 2] && p.b == raw[base]
                &&& !layout.blue_first() ==> p.r == raw[base] && p.b == raw[base + 2]
            },
{
    lemma_span_is_product(layout, n as int);
    assert forall|i: int| 0 <= i < n implies {
        let p = #[trigger] normalized(raw, layout)[i];
        let base = i * layout.channels();
        &&& 0 <= base && base + layout.channels() <= raw.len()
        &&& p.g == raw[base + 1]
        &&& layout.blue_first() ==> p.r == raw[base + 2] && p.b == raw[base]
        &&& !layout.blue_first() ==> p.r == raw[base] && p.b == raw[base + 2]
    } by {
        lemma_span_is_product(layout, i);
    }
}

/// Writing canonical pixels out and reading them back as red-green-blue
/// chunks gives the same pixels.
pub proof fn lemma_normalized_flattened(pixels: Seq<Pixel>)
    ensures
        normalized(flattened(pixels), SourceLayout::Rgb) == pixels,
{
    assert(normalized(flattened(pixels), SourceLayout::Rgb) =~= pixels);
}

/// A buffer of whole red-green-blue chunks is written back unchanged from its
/// canonical pixels.
pub proof fn lemma_flattened_normalized(raw: Seq<u8>)
    requires
        raw.len() % 3 == 0,
    ensures
        flattened(normalized(raw, SourceLayout::Rgb)) == raw,
{
    assert(flattened(normalized(raw, SourceLayout::Rgb)) =~= raw);
}

} // verus!
