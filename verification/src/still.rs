//! Single pictures: decoding a stream into canonical pixels and encoding
//! canonical pixels losslessly.

use crate::codec::{
    decode_still, encode_lossless, memory_as_slice, still_decoding, MAX_DIMENSION,
    RIFF_HEADER_LEN,
};
use crate::color::{
    flatten, flattened, lemma_flattened_normalized, lemma_normalized_flattened, normalize,
    normalized, Pixel, SourceLayout,
};
use crate::raw::{RawImage, RawImageView};
use std::collections::TryReserveError;
use vstd::prelude::*;

verus! {

/// A picture in canonical form.
#[derive(Debug, PartialEq, Eq)]
pub struct StillImage {
    /// The pixels, row by row without padding.
    pub pixels: Vec<Pixel>,
    /// Width in pixels.
    pub width: u32,
    /// Height in pixels.
    pub height: u32,
}

/// Mathematical model of a [`StillImage`].
pub struct StillImageView {
    pub pixels: Seq<Pixel>,
    pub width: u32,
    pub height: u32,
}

impl View for StillImage {
    type V = StillImageView;

    open spec fn view(&self) -> StillImageView {
        StillImageView { pixels: self.pixels@, width: self.width, height: self.height }
    }
}

impl StillImageView {
    /// The picture is not empty and holds exactly one pixel for each position
    /// that its dimensions call for.
    pub open spec fn wf(self) -> bool {
        &&& self.width > 0
        &&& self.height > 0
        &&& self.pixels.len() == self.width * self.height
    }
}

impl RawImageView {
    /// The picture in canonical form: its pixels normalized, its dimensions
    /// as they are.
    pub open spec fn canonical(self) -> StillImageView {
        StillImageView { pixels: self.pixels(), width: self.width, height: self.height }
    }
}

/// Why a picture could not be encoded.
#[derive(Clone, Copy, Debug, PartialEq, Eq, Structural)]
pub enum EncodeError {
    /// The buffer for the encoded bytes could not be allocated.
    NoMemory,
}

impl EncodeError {
    /// A short text for the error.
    pub fn message(self) -> (text: &'static str)
        ensures
            text@ == "no mem"@,
    {
        match self {
            EncodeError::NoMemory => "no mem",
        }
    }
}

/// The stream `bytes` decodes to the picture `image`.
pub open spec fn decodes_to(bytes: Seq<u8>, image: StillImageView) -> bool {
    still_decoding(bytes) matches Some(raw) && image == raw.canonical()
}

/// The stream `bytes` is a lossless encoding of `pixels` at the given
/// dimensions: it decodes to these pixels at these dimensions.
pub open spec fn encodes(bytes: Seq<u8>, pixels: Seq<Pixel>, width: u32, height: u32) -> bool {
    decodes_to(bytes, StillImageView { pixels, width, height })
}

/// What the encoder accepts: dimensions from 1 to [`MAX_DIMENSION`], and as
/// many pixels as they call for.
pub open spec fn encodable_spec(count: nat, width: u32, height: u32) -> bool {
    &&& 1 <= width <= MAX_DIMENSION
    &&& 1 <= height <= MAX_DIMENSION
    &&& count == width * height
}

/// Canonical form of a picture that the codec delivered: its pixels
/// normalized, its dimensions as they are.
pub fn still_image(raw: RawImage) -> (image: StillImage)
    ensures
        image@ == raw@.canonical(),
        raw@.wf() ==> image@.wf(),
{
    proof {
        if raw@.wf() {
            lemma_canonical_wf(raw@);
        }
    }
    let pixels = normalize(raw.data.as_slice(), raw.layout);
    StillImage { pixels, width: raw.width, height: raw.height }
}

/// Decodes a still picture.
///
/// Gives a picture exactly where the codec decodes the stream to one, and
/// the picture is that one in canonical form. The codec rejects every stream
/// shorter than a RIFF header, the empty one among them, and every
/// animation.
pub fn decode_rgb(bytes: &[u8]) -> (result: Option<StillImage>)
    ensures
        result is None <==> still_decoding(bytes@) is None,
        result matches Some(image) ==> decodes_to(bytes@, image@) && image@.wf(),
        bytes@.len() < RIFF_HEADER_LEN ==> result is None,
{
    match decode_still(bytes) {
        Some(raw) => Some(still_image(raw)),
        None => None,
    }
}

/// Tells whether `count` pixels at the given dimensions can be handed to
/// [`encode_rgb`].
pub fn encodable(count: usize, width: u32, height: u32) -> (ok: bool)
    ensures
        ok == encodable_spec(count as nat, width, height),
{
    if width == 0 || width > MAX_DIMENSION || height == 0 || height > MAX_DIMENSION {
        return false;
    }
    assert(width * height <= 16383 * 16383) by (nonlinear_arith)
        requires
            width <= 16383,
            height <= 16383,
    ;
    let area: u64 = (width as u64) * (height as u64);
    count as u64 == area
}

/// The pixels of a buffer of red, green and blue bytes, where the buffer is a
/// picture of the given dimensions that [`encode_rgb`] takes: where it holds
/// exactly `3 * width * height` bytes and neither dimension is zero or above
/// [`MAX_DIMENSION`]. Nothing otherwise; a buffer of any other length is
/// never taken for a picture of these dimensions.
pub fn rgb_picture(rgb: &[u8], width: u32, height: u32) -> (result: Option<Vec<Pixel>>)
    ensures
        result is Some <==> 1 <= width <= MAX_DIMENSION && 1 <= height <= MAX_DIMENSION
            && rgb@.len() == 3 * (width * height),
        result matches Some(pixels) ==> pixels@ == normalized(rgb@, SourceLayout::Rgb)
            && flattened(pixels@) == rgb@ && encodable_spec(pixels@.len(), width, height),
{
    assert(rgb@.len() == rgb.len());
    if rgb.len() % 3 == 0 && encodable(rgb.len() / 3, width, height) {
        proof {
            lemma_flattened_normalized(rgb@);
        }
        Some(normalize(rgb, SourceLayout::Rgb))
    } else {
        None
    }
}

/// The outcome of an encoding whose bytes are `encoded`, given how reserving
/// room for them in `buffer` went: the bytes appended to the buffer where room
/// was made, [`EncodeError::NoMemory`] where it was not.
pub fn materialize(reserved: Result<(), TryReserveError>, buffer: Vec<u8>, encoded: &[u8]) -> (result:
    Result<Vec<u8>, EncodeError>)
    ensures
        reserved is Ok ==> (result matches Ok(bytes) && bytes@ == buffer@ + encoded@),
        reserved is Err ==> (result matches Err(e) && e == EncodeError::NoMemory),
{
    match reserved {
        Ok(()) => {
            let mut bytes = buffer;
            bytes.extend_from_slice(encoded);
            assert(bytes@ =~= buffer@ + encoded@);
            Ok(bytes)
        },
        Err(_) => Err(EncodeError::NoMemory),
    }
}

/// Encodes canonical pixels losslessly.
///
/// The dimensions are taken as given: `pixels` must hold `width * height`
/// pixels, row by row, and neither dimension may be zero or above
/// [`MAX_DIMENSION`]. [`encodable`] tests this.
///
/// Fails only where the buffer for the encoded bytes cannot be allocated.
pub fn encode_rgb(pixels: &[Pixel], width: u32, height: u32) -> (result: Result<
    Vec<u8>,
    EncodeError,
>)
    requires
        encodable_spec(pixels@.len(), width, height),
    ensures
        result matches Ok(bytes) ==> encodes(bytes@, pixels@, width, height),
        result matches Err(e) ==> e == EncodeError::NoMemory,
{
    assert(pixels@.len() == pixels.len());
    proof {
        lemma_normalized_flattened(pixels@);
    }
    let rgb = flatten(pixels);
    let memory = encode_lossless(rgb.as_slice(), width, height);
    let encoded = memory_as_slice(&memory);
    let mut buffer: Vec<u8> = Vec::new();
    let reserved = buffer.try_reserve(encoded.len());
    materialize(reserved, buffer, encoded)
}

/// A well-formed raw picture is well formed in canonical form too.
pub proof fn lemma_canonical_wf(raw: RawImageView)
    requires
        raw.wf(),
    ensures
        raw.canonical().wf(),
{
}

/// Encoding is lossless: a stream that encodes `pixels` at `width` by
/// `height` decodes, and to nothing but these pixels at these dimensions.
pub proof fn lemma_round_trip(
    pixels: Seq<Pixel>,
    width: u32,
    height: u32,
    bytes: Seq<u8>,
    image: StillImageView,
)
    requires
        encodes(bytes, pixels, width, height),
    ensures
        still_decoding(bytes) is Some,
        decodes_to(bytes, image) ==> image == (StillImageView { pixels, width, height }),
{
}

/// A number of pixels that differs from `width * height` is not encodable,
/// whatever the dimensions.
pub proof fn lemma_mismatch_not_encodable(count: nat, width: u32, height: u32)
    requires
        count != width * height,
    ensures
        !encodable_spec(count, width, height),
{
}

} // verus!
