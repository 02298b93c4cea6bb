//! WebP still images and animations as plain pixel buffers.
//!
//! The compressed bitstream is left to libwebp, reached through the `webp` and
//! `webp-animation` crates. What this crate owns is everything around the codec:
//! turning the raw buffers it hands out, in any of four channel layouts, into
//! one canonical red-green-blue form, putting the frames of an animation
//! together with their timestamps, and handing canonical pixels back to the
//! lossless encoder.
//!
//! - [`color`]: the canonical pixel, the source layouts, and the conversion
//!   between raw bytes and pixels.
//! - [`raw`]: pictures and frames as the codec delivers them.
//! - [`still`]: decoding and lossless encoding of single pictures.
//! - [`container`]: the RIFF chunks of a stream, read for the number of
//!   frames that it declares.
//! - [`animation`]: decoding of animations.
//! - [`codec`]: the calls into the codec, with what is taken on trust of them.

pub mod animation;
pub mod codec;
pub mod color;
pub mod container;
pub mod raw;
pub mod still;

pub use animation::{decode_animation, Animation, Frame};
pub use color::{normalize, Pixel, SourceLayout};
pub use still::{decode_rgb, encode_rgb, EncodeError, StillImage};
