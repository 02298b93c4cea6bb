//! What the codec hands over before normalization: bytes in one of the source
//! layouts, with the dimensions and, for a frame of an animation, the
//! timestamp that come with them.

use crate::color::{normalized, Pixel, SourceLayout};
use vstd::prelude::*;

verus! {

/// A decoded picture as the codec delivers it.
#[derive(Debug, PartialEq, Eq)]
pub struct RawImage {
    /// Pixel data, row by row without padding, in `layout`.
    pub data: Vec<u8>,
    /// How the bytes of each pixel are laid out in `data`.
    pub layout: SourceLayout,
    /// Width in pixels.
    pub width: u32,
    /// Height in pixels.
    pub height: u32,
}

/// One frame of an animation as the codec delivers it.
#[derive(Debug, PartialEq, Eq)]
pub struct RawFrame {
    /// The whole canvas as it stands at this frame.
    pub image: RawImage,
    /// When the frame is to be shown, in milliseconds.
    pub timestamp: i32,
}

/// Mathematical model of a [`RawImage`].
pub struct RawImageView {
    pub data: Seq<u8>,
    pub layout: SourceLayout,
    pub width: u32,
    pub height: u32,
}

/// Mathematical model of a [`RawFrame`].
pub struct RawFrameView {
    pub image: RawImageView,
    pub timestamp: i32,
}

impl View for RawImage {
    type V = RawImageView;

    open spec fn view(&self) -> RawImageView {
        RawImageView {
            data: self.data@,
            layout: self.layout,
            width: self.width,
            height: self.height,
        }
    }
}

impl View for RawFrame {
    type V = RawFrameView;

    open spec fn view(&self) -> RawFrameView {
        RawFrameView { image: self.image@, timestamp: self.timestamp }
    }
}

impl RawImageView {
    /// Number of pixels that the dimensions call for.
    pub open spec fn area(self) -> nat {
        (self.width * self.height) as nat
    }

    /// The picture is not empty and its data holds exactly one chunk for each
    /// pixel that the dimensions call for.
    pub open spec fn wf(self) -> bool {
        &&& self.width > 0
        &&& self.height > 0
        &&& self.data.len() == self.layout.span(self.area() as int)
    }

    /// The pixels of the picture in canonical form.
    pub open spec fn pixels(self) -> Seq<Pixel> {
        normalized(self.data, self.layout)
    }
}

/// What holds of the frames that the codec yields for one stream: each is
/// well formed, and all have the same dimensions.
pub open spec fn uniform_stream(raws: Seq<RawFrameView>) -> bool {
    &&& forall|i: int| 0 <= i < raws.len() ==> (#[trigger] raws[i]).image.wf()
    &&& forall|i: int, j: int|
        0 <= i < raws.len() && 0 <= j < raws.len() ==> (#[trigger] raws[i]).image.width == (
        #[trigger] raws[j]).image.width && raws[i].image.height == raws[j].image.height
}

/// A stream as it should be: uniform, and with timestamps that never go back.
pub open spec fn well_formed_stream(raws: Seq<RawFrameView>) -> bool {
    &&& uniform_stream(raws)
    &&& forall|i: int, j: int|
        0 <= i <= j < raws.len() ==> (#[trigger] raws[i]).timestamp <= (#[trigger] raws[j]).timestamp
}

} // verus!
