//! Animations: the frames of a stream in canonical form, each with its
//! timestamp, under the dimensions that they share.

use crate::codec::{
    next_frame, open_frames, pending_frames, stream_frames, stream_opens, RIFF_HEADER_LEN,
};
use crate::color::{normalize, Pixel};
use crate::container::{count_declared_frames, declared_frames};
use crate::raw::{uniform_stream, well_formed_stream, RawFrame, RawFrameView};
use crate::still::lemma_canonical_wf;
use vstd::prelude::*;

verus! {

/// One frame of an animation in canonical form.
#[derive(Debug, PartialEq, Eq)]
pub struct Frame {
    /// The whole canvas at this frame, row by row without padding.
    pub pixels: Vec<Pixel>,
    /// When the frame is to be shown, in milliseconds.
    pub timestamp: i32,
}

/// The frames of an animation in the order in which they are shown.
#[derive(Debug, PartialEq, Eq)]
pub struct Animation {
    /// The frames, first to last.
    pub frames: Vec<Frame>,
    /// Width and height of the frame that was added last; `(0, 0)` while
    /// there is none.
    pub size: (u32, u32),
}

/// Mathematical model of a [`Frame`].
pub struct FrameView {
    pub pixels: Seq<Pixel>,
    pub timestamp: i32,
}

/// Mathematical model of an [`Animation`].
pub struct AnimationView {
    pub frames: Seq<FrameView>,
    pub size: (u32, u32),
}

impl View for Frame {
    type V = FrameView;

    open spec fn view(&self) -> FrameView {
        FrameView { pixels: self.pixels@, timestamp: self.timestamp }
    }
}

impl View for Animation {
    type V = AnimationView;

    open spec fn view(&self) -> AnimationView {
        AnimationView {
            frames: Seq::new(self.frames@.len(), |i: int| self.frames@[i]@),
            size: self.size,
        }
    }
}

impl RawFrameView {
    /// The frame in canonical form: its pixels normalized, its timestamp as
    /// it is.
    pub open spec fn canonical(self) -> FrameView {
        FrameView { pixels: self.image.pixels(), timestamp: self.timestamp }
    }
}

impl AnimationView {
    /// The animation without frames.
    pub open spec fn empty() -> AnimationView {
        AnimationView { frames: Seq::empty(), size: (0, 0) }
    }

    /// The animation after one more frame: the frame in canonical form comes
    /// last, and its dimensions become those of the animation.
    pub open spec fn with_frame(self, raw: RawFrameView) -> AnimationView {
        AnimationView {
            frames: self.frames.push(raw.canonical()),
            size: (raw.image.width, raw.image.height),
        }
    }

    /// Every frame holds exactly one pixel for each position that the
    /// dimensions of the animation call for, and where there is a frame,
    /// neither dimension is zero.
    pub open spec fn wf(self) -> bool {
        &&& self.frames.len() > 0 ==> self.size.0 > 0 && self.size.1 > 0
        &&& forall|i: int|
            0 <= i < self.frames.len() ==> (#[trigger] self.frames[i]).pixels.len() == self.size.0
                * self.size.1
    }

    /// No frame is to be shown before one that precedes it.
    pub open spec fn in_time_order(self) -> bool {
        forall|i: int, j: int|
            0 <= i <= j < self.frames.len() ==> (#[trigger] self.frames[i]).timestamp <= (
            #[trigger] self.frames[j]).timestamp
    }
}

/// The animation made of the given frames, added first to last.
pub open spec fn animation_of(raws: Seq<RawFrameView>) -> AnimationView
    decreases raws.len(),
{
    if raws.len() == 0 {
        AnimationView::empty()
    } else {
        animation_of(raws.drop_last()).with_frame(raws.last())
    }
}

impl Animation {
    /// An animation without frames.
    pub fn new() -> (animation: Animation)
        ensures
            animation@ == AnimationView::empty(),
            animation@.wf(),
    {
        let animation = Animation { frames: Vec::new(), size: (0, 0) };
        assert(animation@.frames =~= Seq::empty());
        animation
    }

    /// Adds a frame that the codec delivered: normalizes its pixels, appends
    /// them with the frame's timestamp, and takes the frame's dimensions for
    /// those of the animation, whatever they were before.
    ///
    /// The animation stays well formed where the frame is well formed and has
    /// the dimensions of the frames before it. Nothing is refused where it
    /// has others.
    pub fn push_frame(&mut self, raw: RawFrame)
        ensures
            final(self)@ == old(self)@.with_frame(raw@),
            old(self)@.wf() && raw@.image.wf() && (old(self)@.frames.len() > 0 ==> old(self)@.size
                == (raw.image.width, raw.image.height)) ==> final(self)@.wf(),
    {
        proof {
            if raw@.image.wf() {
                lemma_canonical_wf(raw@.image);
            }
        }
        let pixels = normalize(raw.image.data.as_slice(), raw.image.layout);
        self.size = (raw.image.width, raw.image.height);
        self.frames.push(Frame { pixels, timestamp: raw.timestamp });
        assert(self@.frames =~= old(self)@.with_frame(raw@).frames);
    }
}

impl Default for Animation {
    fn default() -> (animation: Animation)
        ensures
            animation@ == AnimationView::empty(),
            animation@.wf(),
    {
        Animation::new()
    }
}

/// Takes every frame that is to come, first to last, into a new animation.
pub fn collect_frames(frames: webp_animation::DecoderIterator<'_>) -> (animation: Animation)
    ensures
        animation@ == animation_of(pending_frames(frames)),
{
    let mut frames = frames;
    let ghost all = pending_frames(frames);
    let ghost mut taken: Seq<RawFrameView> = Seq::empty();
    let mut animation = Animation::new();
    loop
        invariant_except_break
            all == taken + pending_frames(frames),
        invariant
            animation@ == animation_of(taken),
        ensures
            all == taken,
        decreases pending_frames(frames).len(),
    {
        match next_frame(&mut frames) {
            Some(raw) => {
                proof {
                    let longer = taken.push(raw@);
                    assert(longer.drop_last() =~= taken);
                    assert(all =~= longer + pending_frames(frames));
                    taken = longer;
                }
                animation.push_frame(raw);
            },
            None => {
                assert(all =~= taken);
                break ;
            },
        }
    }
    animation
}

/// The animation where it is whole: where it has as many frames as its
/// stream declares, and at least one. Nothing otherwise.
pub fn whole_animation(animation: Animation, declared: usize) -> (result: Option<Animation>)
    ensures
        result == if animation@.frames.len() == declared && declared >= 1 {
            Some(animation)
        } else {
            None
        },
{
    if animation.frames.len() == declared && declared >= 1 {
        Some(animation)
    } else {
        None
    }
}

/// The codec opens the stream and yields every frame that the stream
/// declares, and the stream declares one at least.
pub open spec fn decodes_whole(bytes: Seq<u8>) -> bool {
    &&& stream_opens(bytes)
    &&& stream_frames(bytes).len() == declared_frames(bytes)
    &&& declared_frames(bytes) >= 1
}

/// Decodes an animation, all of it or nothing.
///
/// Gives an animation exactly where the codec opens the stream, which it
/// does with none that is shorter than a RIFF header, and then yields as
/// many frames as the stream declares. Where it yields fewer, because it
/// fails on a frame, nothing is given: no animation is ever cut short.
///
/// The animation is made of the frames of the stream as the codec yields
/// them, in its order; none is skipped or sorted. These frames are uniform,
/// so each frame of the animation covers its dimensions, and the animation
/// is in time order where the frames of the stream are.
pub fn decode_animation(bytes: &[u8]) -> (result: Option<Animation>)
    ensures
        result is Some <==> decodes_whole(bytes@),
        result matches Some(animation) ==> animation@ == animation_of(stream_frames(bytes@))
            && animation@.wf() && animation@.frames.len() >= 1,
        bytes@.len() < RIFF_HEADER_LEN ==> result is None,
        result matches Some(animation) ==> animation@.frames.len() == declared_frames(bytes@),
        result is Some ==> uniform_stream(stream_frames(bytes@)),
        result matches Some(animation) ==> (well_formed_stream(stream_frames(bytes@))
            ==> animation@.in_time_order()),
{
    match open_frames(bytes) {
        Some(frames) => {
            proof {
                lemma_animation_of(stream_frames(bytes@));
                lemma_uniform_stream(stream_frames(bytes@));
                if well_formed_stream(stream_frames(bytes@)) {
                    lemma_well_formed_stream(stream_frames(bytes@));
                }
            }
            whole_animation(collect_frames(frames), count_declared_frames(bytes))
        },
        None => None,
    }
}

/// The animation made of a stream has one frame for each frame of the stream,
/// in the order of the stream and in canonical form, under the dimensions of
/// the last frame.
pub proof fn lemma_animation_of(raws: Seq<RawFrameView>)
    ensures
        animation_of(raws).frames.len() == raws.len(),
        forall|i: int|
            0 <= i < raws.len() ==> (#[trigger] animation_of(raws).frames[i]) == raws[i].canonical(),
        raws.len() == 0 ==> animation_of(raws).size == (0u32, 0u32),
        raws.len() > 0 ==> animation_of(raws).size == (
            raws.last().image.width,
            raws.last().image.height,
        ),
    decreases raws.len(),
{
    if raws.len() > 0 {
        let front = raws.drop_last();
        lemma_animation_of(front);
        assert forall|i: int| 0 <= i < raws.len() implies (#[trigger] animation_of(raws).frames[i])
            == raws[i].canonical() by {
            if i < front.len() {
                assert(animation_of(raws).frames[i] == animation_of(front).frames[i]);
                assert(front[i] == raws[i]);
            }
        }
    }
}

/// In the animation made of a uniform stream every frame covers the
/// dimensions of the animation.
pub proof fn lemma_uniform_stream(raws: Seq<RawFrameView>)
    requires
        uniform_stream(raws),
    ensures
        animation_of(raws).wf(),
{
    lemma_animation_of(raws);
    assert forall|i: int| 0 <= i < raws.len() implies (#[trigger] animation_of(
        raws,
    ).frames[i]).pixels.len() == raws.last().image.width * raws.last().image.height by {
        assert(raws[i].image.wf());
        assert(raws[i].image.width == raws.last().image.width);
        assert(raws[i].image.height == raws.last().image.height);
        lemma_canonical_wf(raws[i].image);
    }
    if raws.len() > 0 {
        assert(raws.last().image.wf());
    }
}

/// On a well-formed stream of `n` frames the animation has exactly `n`
/// frames, in time order, and each of them covers the dimensions of the
/// animation.
pub proof fn lemma_well_formed_stream(raws: Seq<RawFrameView>)
    requires
        well_formed_stream(raws),
    ensures
        animation_of(raws).frames.len() == raws.len(),
        animation_of(raws).in_time_order(),
        animation_of(raws).wf(),
{
    lemma_animation_of(raws);
    lemma_uniform_stream(raws);
}

} // verus!
