//! The RIFF container of a WebP stream, read far enough to tell how many
//! frames the stream declares.

use crate::codec::RIFF_HEADER_LEN;
use vstd::prelude::*;

verus! {

/// Length of the header of a chunk: four bytes of tag, four of payload size.
pub const CHUNK_HEADER_LEN: usize = 8;

/// Where the flags of a `VP8X` chunk stand when it is the first chunk.
pub const FLAGS_AT: usize = 20;

/// The bit of the `VP8X` flags that marks an animation.
pub const ANIMATION_FLAG: u8 = 2;

/// The four bytes at `at` are the characters `a`, `b`, `c`, `d`.
pub open spec fn tag_at(bytes: Seq<u8>, at: int, a: char, b: char, c: char, d: char) -> bool {
    &&& 0 <= at && at + 4 <= bytes.len()
    &&& bytes[at] == a as u8
    &&& bytes[at + 1] == b as u8
    &&& bytes[at + 2] == c as u8
    &&& bytes[at + 3] == d as u8
}

/// The number that the four bytes at `at` spell, lowest byte first.
pub open spec fn le32(bytes: Seq<u8>, at: int) -> nat {
    (bytes[at] + 0x100 * bytes[at + 1] + 0x1_0000 * bytes[at + 2] + 0x100_0000 * bytes[at + 3]) as nat
}

/// The stream opens with `RIFF`, a size, and `WEBP`.
pub open spec fn has_riff_header(bytes: Seq<u8>) -> bool {
    tag_at(bytes, 0, 'R', 'I', 'F', 'F') && tag_at(bytes, 8, 'W', 'E', 'B', 'P')
}

/// Where the chunks of the stream end: where the RIFF size says, or where
/// the stream ends if that is sooner.
pub open spec fn riff_end(bytes: Seq<u8>) -> nat {
    let told = CHUNK_HEADER_LEN + le32(bytes, 4);
    if told < bytes.len() {
        told as nat
    } else {
        bytes.len()
    }
}

/// The stream says of itself that it is an animation: after the RIFF header
/// comes a `VP8X` chunk whose flags have the animation bit.
pub open spec fn is_animated(bytes: Seq<u8>) -> bool {
    &&& has_riff_header(bytes)
    &&& tag_at(bytes, RIFF_HEADER_LEN as int, 'V', 'P', '8', 'X')
    &&& FLAGS_AT < bytes.len()
    &&& bytes[FLAGS_AT as int] & ANIMATION_FLAG != 0
}

/// Where the chunk that starts at `at` ends: after its header and its
/// payload, which is padded to an even length.
pub open spec fn chunk_end(bytes: Seq<u8>, at: int) -> int {
    let size = le32(bytes, at + 4);
    at + CHUNK_HEADER_LEN + size + size % 2
}

/// Number of `ANMF` chunks among the chunks that lie one after the other
/// from `at` on and end by `end`.
pub open spec fn anmf_chunks(bytes: Seq<u8>, at: int, end: int) -> nat
    decreases end - at,
{
    if at < 0 || end > bytes.len() || at + CHUNK_HEADER_LEN > end || chunk_end(bytes, at) > end {
        0
    } else {
        let here: nat = if tag_at(bytes, at, 'A', 'N', 'M', 'F') {
            1
        } else {
            0
        };
        here + anmf_chunks(bytes, chunk_end(bytes, at), end)
    }
}

/// Number of frames that the stream declares: one `ANMF` chunk for each
/// frame of an animation, and one frame where the stream is no animation.
pub open spec fn declared_frames(bytes: Seq<u8>) -> nat {
    if is_animated(bytes) {
        anmf_chunks(bytes, RIFF_HEADER_LEN as int, riff_end(bytes) as int)
    } else {
        1
    }
}

/// Tells whether the four bytes at `at` are the given tag.
fn has_tag(bytes: &[u8], at: usize, a: char, b: char, c: char, d: char) -> (yes: bool)
    requires
        a as u32 <= 0x7f,
        b as u32 <= 0x7f,
        c as u32 <= 0x7f,
        d as u32 <= 0x7f,
    ensures
        yes == tag_at(bytes@, at as int, a, b, c, d),
{
    assert(bytes@.len() == bytes.len());
    if bytes.len() < 4 || at > bytes.len() - 4 {
        return false;
    }
    bytes[at] == a as u8 && bytes[at + 1] == b as u8 && bytes[at + 2] == c as u8 && bytes[at + 3]
        == d as u8
}

/// Reads the four bytes at `at` as a number, lowest byte first.
fn read_le32(bytes: &[u8], at: usize) -> (n: u32)
    requires
        at + 4 <= bytes@.len(),
    ensures
        n == le32(bytes@, at as int),
{
    assert(bytes@.len() == bytes.len());
    let b0: u32 = bytes[at] as u32;
    let b1: u32 = bytes[at + 1] as u32;
    let b2: u32 = bytes[at + 2] as u32;
    let b3: u32 = bytes[at + 3] as u32;
    b0 + 0x100 * b1 + 0x1_0000 * b2 + 0x100_0000 * b3
}

/// Counts the frames that the stream declares.
pub fn count_declared_frames(bytes: &[u8]) -> (count: usize)
    ensures
        count == declared_frames(bytes@),
{
    assert(bytes@.len() == bytes.len());
    let len: usize = bytes.len();
    let animated = has_tag(bytes, 0, 'R', 'I', 'F', 'F') && has_tag(bytes, 8, 'W', 'E', 'B', 'P')
        && has_tag(bytes, RIFF_HEADER_LEN, 'V', 'P', '8', 'X') && len > FLAGS_AT && bytes[FLAGS_AT]
        & ANIMATION_FLAG != 0;
    if !animated {
        return 1;
    }
    let told: u32 = read_le32(bytes, 4);
    let end: usize = if (told as usize) < len - CHUNK_HEADER_LEN {
        CHUNK_HEADER_LEN + told as usize
    } else {
        len
    };
    if end < RIFF_HEADER_LEN {
        return 0;
    }
    let mut at: usize = RIFF_HEADER_LEN;
    let mut count: usize = 0;
    while end - at >= CHUNK_HEADER_LEN
        invariant
            len == bytes@.len(),
            end == riff_end(bytes@),
            RIFF_HEADER_LEN <= at <= end <= len,
            count <= at,
            count + anmf_chunks(bytes@, at as int, end as int) == anmf_chunks(
                bytes@,
                RIFF_HEADER_LEN as int,
                end as int,
            ),
        ensures
            anmf_chunks(bytes@, at as int, end as int) == 0,
        decreases end - at,
    {
        let size: u32 = read_le32(bytes, at + 4);
        let padded: u64 = size as u64 + size as u64 % 2;
        if padded > (end - at - CHUNK_HEADER_LEN) as u64 {
            break ;
        }
        if has_tag(bytes, at, 'A', 'N', 'M', 'F') {
            count += 1;
        }
        at = at + CHUNK_HEADER_LEN + padded as usize;
    }
    count
}

} // verus!
