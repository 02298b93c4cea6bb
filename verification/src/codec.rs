//! The boundary to libwebp.
//!
//! Nothing in this file is proved. Each item states what the rest of the crate
//! takes on trust from the `webp` and `webp-animation` crates, and through them
//! from libwebp; the doc comment of each says where that is to be read.
//!
//! The contracts speak of the codec with the memory that it asks for, as those
//! of `Vec` do of the allocator. The decoders read nothing but the bytes they
//! are given, so what they return is named over these bytes alone. The
//! encoder's bytes are not named: its search for a short encoding works in
//! floating point, and only what they decode to is claimed of them.

use crate::color::SourceLayout;
use crate::raw::{uniform_stream, RawFrame, RawFrameView, RawImage, RawImageView};
use vstd::prelude::*;

verus! {

/// Largest width or height that the encoder accepts (`WEBP_MAX_DIMENSION` in
/// libwebp's `encode.h`).
pub const MAX_DIMENSION: u32 = 16383;

/// Length of the RIFF header that opens a WebP file. libwebp looks at nothing
/// shorter.
pub const RIFF_HEADER_LEN: usize = 12;

/// `webp::WebPMemory`: a byte buffer that libwebp allocated and that is freed
/// when the value is dropped.
#[verifier::external_type_specification]
#[verifier::external_body]
pub struct ExWebPMemory(webp::WebPMemory);

/// `webp_animation::DecoderIterator`: a decoder at some position in the frame
/// sequence of an animation.
#[verifier::external_type_specification]
#[verifier::external_body]
pub struct ExDecoderIterator<'a>(webp_animation::DecoderIterator<'a>);

/// What `webp::Decoder::decode` makes of a byte stream: the picture, or
/// nothing where it rejects the stream.
pub uninterp spec fn still_decoding(bytes: Seq<u8>) -> Option<RawImageView>;

/// The bytes held by a `webp::WebPMemory`.
pub uninterp spec fn memory_bytes(memory: webp::WebPMemory) -> Seq<u8>;

/// Whether `webp_animation::Decoder::new` accepts a byte stream.
pub uninterp spec fn stream_opens(bytes: Seq<u8>) -> bool;

/// The frames of a byte stream as `webp_animation` decodes them, in the order
/// of the stream: what the iterator of a decoder made on these bytes yields
/// up to the first time that it yields nothing.
pub uninterp spec fn stream_frames(bytes: Seq<u8>) -> Seq<RawFrameView>;

/// The frames that a `webp_animation::DecoderIterator` has yet to yield, in
/// the order in which it yields them.
pub uninterp spec fn pending_frames(frames: webp_animation::DecoderIterator<'_>) -> Seq<
    RawFrameView,
>;

/// `webp::Decoder::new(bytes).decode()`, the picture copied out of the
/// codec's memory.
///
/// Claimed of it:
/// - What comes back is what the stream decodes to, a picture or nothing:
///   `decode` reads the bytes and nothing else.
/// - A stream shorter than a RIFF header is rejected: `decode` starts with
///   `WebPGetFeatures`, whose header parser (`ParseHeadersInternal` in
///   libwebp's `webp_dec.c`) returns `VP8_STATUS_NOT_ENOUGH_DATA` below
///   `RIFF_HEADER_SIZE` bytes.
/// - A picture that comes back has `3 * width * height` or
///   `4 * width * height` bytes, as `decode` sizes its buffer, and neither
///   dimension is zero: the header parsers give a width and height of at
///   least one (`ParseVP8X`, `VP8GetInfo`, `ReadImageInfo`).
#[verifier::external_body]
pub(crate) fn decode_still(bytes: &[u8]) -> (result: Option<RawImage>)
    ensures
        result matches Some(raw) ==> still_decoding(bytes@) == Some(raw@),
        result is None ==> still_decoding(bytes@) is None,
        bytes@.len() < RIFF_HEADER_LEN ==> result is None,
        result matches Some(raw) ==> raw@.wf(),
{
    let image = webp::Decoder::new(bytes).decode()?;
    let layout = match image.layout() {
        webp::PixelLayout::Rgb => SourceLayout::Rgb,
        webp::PixelLayout::Rgba => SourceLayout::Rgba,
    };
    Some(RawImage { data: image.to_vec(), layout, width: image.width(), height: image.height() })
}

/// `webp::Encoder::new(rgb, webp::PixelLayout::Rgb, width, height).encode_lossless()`.
///
/// `Encoder::new` panics on a buffer shorter than `3 * width * height` bytes,
/// and `encode_lossless` unwraps the error that libwebp gives for a dimension
/// of zero or above `WEBP_MAX_DIMENSION`: both are kept out by `requires`.
///
/// Claimed of it: the encoding is lossless, as the method's documentation
/// says. The still decoder reads the result back as the same bytes in the
/// same layout with the same dimensions.
#[verifier::external_body]
pub(crate) fn encode_lossless(rgb: &[u8], width: u32, height: u32) -> (memory: webp::WebPMemory)
    requires
        1 <= width <= MAX_DIMENSION,
        1 <= height <= MAX_DIMENSION,
        rgb@.len() == 3 * (width * height),
    ensures
        still_decoding(memory_bytes(memory)) == Some(
            (RawImageView { data: rgb@, layout: SourceLayout::Rgb, width, height }),
        ),
{
    webp::Encoder::new(rgb, webp::PixelLayout::Rgb, width, height).encode_lossless()
}

/// `Deref::deref` of `webp::WebPMemory`: the buffer as a slice.
#[verifier::external_body]
pub(crate) fn memory_as_slice(memory: &webp::WebPMemory) -> (bytes: &[u8])
    ensures
        bytes@ == memory_bytes(*memory),
{
    &memory[..]
}

/// `webp_animation::Decoder::new(bytes)` followed by `into_iter()`, with the
/// error of the first dropped.
///
/// Claimed of it:
/// - Whether a decoder comes back is decided by the bytes, and the frames that
///   it has to come are the frames of the stream: the decoder reads nothing
///   but the buffer, and each call of `next` decodes the frame that follows
///   the last.
/// - A buffer shorter than a RIFF header is refused. `Decoder::new_with_options`
///   refuses the empty one itself, and `WebPAnimDecoderNew` starts with
///   `WebPGetFeatures`, which fails below `RIFF_HEADER_SIZE` bytes.
/// - The frames to come are uniform. Each is built by `next` from
///   `canvas_width * canvas_height * color_mode.size()` bytes under the
///   dimensions of the canvas, which are read once, when the decoder is made,
///   and neither of which is zero: libwebp's demuxer refuses such a canvas
///   (`IsValidSimpleFormat` and `IsValidExtendedFormat` in `demux.c`).
#[verifier::external_body]
pub(crate) fn open_frames<'a>(bytes: &'a [u8]) -> (result: Option<
    webp_animation::DecoderIterator<'a>,
>)
    ensures
        result is Some <==> stream_opens(bytes@),
        result matches Some(frames) ==> pending_frames(frames) == stream_frames(bytes@),
        bytes@.len() < RIFF_HEADER_LEN ==> result is None,
        result matches Some(frames) ==> uniform_stream(pending_frames(frames)),
{
    Some(webp_animation::Decoder::new(bytes).ok()?.into_iter())
}

/// `Iterator::next` of `webp_animation::DecoderIterator`, the frame copied
/// into a [`RawFrame`].
///
/// Claimed of it: a frame that comes back is the first of those to come and
/// leaves the others, and nothing comes back only where none is to come.
/// `next` gives nothing where libwebp has no more frames and where it fails
/// on the next one; the frames to come are those before such a failure.
#[verifier::external_body]
pub(crate) fn next_frame(frames: &mut webp_animation::DecoderIterator<'_>) -> (result: Option<
    RawFrame,
>)
    ensures
        match result {
            Some(raw) => pending_frames(*old(frames)) == seq![raw@] + pending_frames(
                *final(frames),
            ),
            None => pending_frames(*old(frames)).len() == 0,
        },
{
    let frame = frames.next()?;
    let (width, height) = frame.dimensions();
    let layout = match frame.color_mode() {
        webp_animation::ColorMode::Rgb => SourceLayout::Rgb,
        webp_animation::ColorMode::Rgba => SourceLayout::Rgba,
        webp_animation::ColorMode::Bgr => SourceLayout::Bgr,
        webp_animation::ColorMode::Bgra => SourceLayout::Bgra,
    };
    let image = RawImage { data: frame.data().to_vec(), layout, width, height };
    Some(RawFrame { image, timestamp: frame.timestamp() })
}

} // verus!
