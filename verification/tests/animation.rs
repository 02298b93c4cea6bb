use octopus_webp::animation::{
    collect_frames, decode_animation, whole_animation, Animation, Frame,
};
use octopus_webp::container::count_declared_frames;
use octopus_webp::color::{normalize, Pixel, SourceLayout};
use octopus_webp::raw::{RawFrame, RawImage};
use octopus_webp::still::{decode_rgb, encode_rgb};
use webp_animation::{Decoder, Encoder, EncoderOptions, EncodingConfig};

fn px(r: u8, g: u8, b: u8) -> Pixel {
    Pixel { r, g, b }
}

fn raw_frame(data: Vec<u8>, layout: SourceLayout, width: u32, height: u32, timestamp: i32) -> RawFrame {
    RawFrame { image: RawImage { data, layout, width, height }, timestamp }
}

fn solid(rgba: [u8; 4], count: usize) -> Vec<u8> {
    rgba.repeat(count)
}

/// A lossless animation of the given frames, each shown for 40 ms.
fn animated_webp(width: u32, height: u32, frames: &[Vec<u8>]) -> Vec<u8> {
    let options = EncoderOptions {
        encoding_config: Some(EncodingConfig::default()),
        ..Default::default()
    };
    let mut encoder = Encoder::new_with_options((width, height), options).unwrap();
    let mut at = 0;
    for frame in frames {
        encoder.add_frame(frame, at).unwrap();
        at += 40;
    }
    encoder.finalize(at).unwrap().to_vec()
}

#[test]
fn a_new_animation_is_empty() {
    let animation = Animation::new();
    assert_eq!(animation.frames, vec![]);
    assert_eq!(animation.size, (0, 0));
    assert_eq!(Animation::default(), animation);
}

#[test]
fn solid_red_rgba_frame_becomes_two_red_pixels() {
    let mut animation = Animation::new();
    animation.push_frame(raw_frame(
        vec![255, 0, 0, 255, 255, 0, 0, 255],
        SourceLayout::Rgba,
        2,
        1,
        0,
    ));
    assert_eq!(
        animation,
        Animation {
            frames: vec![Frame { pixels: vec![px(255, 0, 0), px(255, 0, 0)], timestamp: 0 }],
            size: (2, 1),
        }
    );
}

#[test]
fn frames_are_kept_in_the_order_given() {
    let mut animation = Animation::new();
    animation.push_frame(raw_frame(vec![1, 2, 3], SourceLayout::Rgb, 1, 1, 100));
    animation.push_frame(raw_frame(vec![1, 2, 3], SourceLayout::Bgr, 1, 1, 100));
    animation.push_frame(raw_frame(vec![1, 2, 3, 4], SourceLayout::Bgra, 1, 1, 250));
    assert_eq!(
        animation.frames,
        vec![
            Frame { pixels: vec![px(1, 2, 3)], timestamp: 100 },
            Frame { pixels: vec![px(3, 2, 1)], timestamp: 100 },
            Frame { pixels: vec![px(3, 2, 1)], timestamp: 250 },
        ]
    );
    assert_eq!(animation.size, (1, 1));
}

#[test]
fn the_size_is_that_of_the_last_frame() {
    let mut animation = Animation::new();
    animation.push_frame(raw_frame(vec![0; 6], SourceLayout::Rgb, 2, 1, 0));
    assert_eq!(animation.size, (2, 1));
    animation.push_frame(raw_frame(vec![0; 12], SourceLayout::Rgb, 1, 4, 10));
    assert_eq!(animation.size, (1, 4));
    assert_eq!(animation.frames.len(), 2);
    assert_eq!(animation.frames[0].pixels.len(), 2);
    assert_eq!(animation.frames[1].pixels.len(), 4);
}

#[test]
fn timestamps_are_not_sorted() {
    let mut animation = Animation::new();
    animation.push_frame(raw_frame(vec![9, 9, 9], SourceLayout::Rgb, 1, 1, 80));
    animation.push_frame(raw_frame(vec![7, 7, 7], SourceLayout::Rgb, 1, 1, -5));
    let stamps: Vec<i32> = animation.frames.iter().map(|f| f.timestamp).collect();
    assert_eq!(stamps, vec![80, -5]);
}

#[test]
fn decode_of_three_frames() {
    let red = solid([255, 0, 0, 255], 6);
    let green = solid([0, 255, 0, 255], 6);
    let blue = solid([0, 0, 255, 255], 6);
    let bytes = animated_webp(3, 2, &[red, green, blue]);
    let animation = decode_animation(&bytes).unwrap();
    assert_eq!(animation.size, (3, 2));
    assert_eq!(
        animation.frames,
        vec![
            Frame { pixels: vec![px(255, 0, 0); 6], timestamp: 40 },
            Frame { pixels: vec![px(0, 255, 0); 6], timestamp: 80 },
            Frame { pixels: vec![px(0, 0, 255); 6], timestamp: 120 },
        ]
    );
}

#[test]
fn decoded_frames_cover_the_canvas_in_time_order() {
    let mut frames = Vec::new();
    for k in 0..7u8 {
        let mut frame = Vec::new();
        for i in 0..(5 * 4) as u8 {
            frame.extend_from_slice(&[k * 30, i * 10, k + i, 255]);
        }
        frames.push(frame);
    }
    let bytes = animated_webp(5, 4, &frames);
    let animation = decode_animation(&bytes).unwrap();
    assert_eq!(animation.frames.len(), 7);
    assert_eq!(animation.size, (5, 4));
    for frame in &animation.frames {
        assert_eq!(frame.pixels.len(), 5 * 4);
    }
    for pair in animation.frames.windows(2) {
        assert!(pair[0].timestamp <= pair[1].timestamp);
    }
    for (k, frame) in animation.frames.iter().enumerate() {
        for (i, p) in frame.pixels.iter().enumerate() {
            let (k, i) = (k as u8, i as u8);
            assert_eq!(*p, px(k * 30, i * 10, k + i));
        }
    }
}

#[test]
fn decode_keeps_the_colours_of_transparent_pixels_unblended() {
    let mut first = solid([10, 20, 30, 255], 4);
    first[3] = 255;
    let second = vec![
        200, 100, 50, 255, 10, 20, 30, 255, 1, 2, 3, 255, 4, 5, 6, 255,
    ];
    let bytes = animated_webp(2, 2, &[first, second]);
    let animation = decode_animation(&bytes).unwrap();
    assert_eq!(animation.frames.len(), 2);
    assert_eq!(animation.frames[0].pixels, vec![px(10, 20, 30); 4]);
    assert_eq!(
        animation.frames[1].pixels,
        vec![px(200, 100, 50), px(10, 20, 30), px(1, 2, 3), px(4, 5, 6)]
    );
}

#[test]
fn a_still_picture_is_an_animation_of_one_frame() {
    let pixels = vec![px(1, 2, 3), px(4, 5, 6)];
    let bytes = encode_rgb(&pixels, 2, 1).unwrap();
    let animation = decode_animation(&bytes).unwrap();
    assert_eq!(animation.size, (2, 1));
    assert_eq!(animation.frames.len(), 1);
    assert_eq!(animation.frames[0].pixels, pixels);
}

#[test]
fn an_animation_is_no_still_picture() {
    let bytes = animated_webp(1, 1, &[solid([1, 2, 3, 255], 1), solid([4, 5, 6, 255], 1)]);
    assert!(decode_animation(&bytes).is_some());
    assert_eq!(decode_rgb(&bytes), None);
}

#[test]
fn animation_of_nothing_gives_nothing() {
    assert_eq!(decode_animation(&[]), None);
}

#[test]
fn animation_of_other_bytes_gives_nothing() {
    assert_eq!(decode_animation(&[0x00, 0x01]), None);
    assert_eq!(decode_animation(b"this is plain text, not an animation"), None);
    assert_eq!(decode_animation(&[0u8; 64]), None);
}

#[test]
fn animation_of_a_cut_file_gives_nothing() {
    let bytes = animated_webp(4, 4, &[solid([1, 2, 3, 255], 16), solid([4, 5, 6, 255], 16)]);
    assert_eq!(decode_animation(&bytes[..bytes.len() / 2]), None);
}

#[test]
fn collect_takes_every_frame_that_is_left() {
    let frames = [
        solid([1, 2, 3, 255], 2),
        solid([4, 5, 6, 255], 2),
        solid([7, 8, 9, 255], 2),
    ];
    let bytes = animated_webp(2, 1, &frames);

    let all = collect_frames(Decoder::new(&bytes).unwrap().into_iter());
    assert_eq!(Some(&all), decode_animation(&bytes).as_ref());
    assert_eq!(all.frames.len(), 3);

    let mut rest = Decoder::new(&bytes).unwrap().into_iter();
    assert!(rest.next().is_some());
    let animation = collect_frames(rest);
    assert_eq!(animation.size, (2, 1));
    assert_eq!(
        animation.frames,
        vec![
            Frame { pixels: vec![px(4, 5, 6); 2], timestamp: 80 },
            Frame { pixels: vec![px(7, 8, 9); 2], timestamp: 120 },
        ]
    );
}

#[test]
fn collect_from_a_spent_decoder_is_empty() {
    let bytes = animated_webp(1, 1, &[solid([1, 2, 3, 255], 1)]);
    let mut spent = Decoder::new(&bytes).unwrap().into_iter();
    assert!(spent.next().is_some());
    assert!(spent.next().is_none());
    assert_eq!(collect_frames(spent), Animation::new());
}

#[test]
fn the_codec_yields_frames_of_one_size() {
    let frames = [solid([1, 2, 3, 255], 12), solid([4, 5, 6, 0], 12)];
    let bytes = animated_webp(4, 3, &frames);
    let yielded: Vec<_> = Decoder::new(&bytes).unwrap().into_iter().collect();
    assert_eq!(yielded.len(), 2);
    for frame in &yielded {
        assert_eq!(frame.dimensions(), (4, 3));
        assert_eq!(frame.data().len(), 4 * 3 * frame.color_mode().size());
    }
}

#[test]
fn the_animation_is_made_of_the_frames_of_its_stream() {
    let frames = [
        solid([1, 2, 3, 255], 6),
        solid([40, 50, 60, 255], 6),
        solid([7, 8, 9, 255], 6),
        solid([100, 110, 120, 255], 6),
    ];
    let bytes = animated_webp(3, 2, &frames);
    let animation = decode_animation(&bytes).unwrap();
    let yielded: Vec<_> = Decoder::new(&bytes).unwrap().into_iter().collect();
    assert_eq!(animation.frames.len(), yielded.len());
    for (frame, raw) in animation.frames.iter().zip(&yielded) {
        assert_eq!(frame.pixels, normalize(raw.data(), SourceLayout::Rgba));
        assert_eq!(frame.timestamp, raw.timestamp());
    }
    assert_eq!(decode_animation(&bytes), Some(animation));
}

#[test]
fn another_stream_gives_another_animation() {
    let one = animated_webp(1, 1, &[solid([1, 2, 3, 255], 1), solid([4, 5, 6, 255], 1)]);
    let other = animated_webp(1, 1, &[solid([4, 5, 6, 255], 1), solid([1, 2, 3, 255], 1)]);
    let first = decode_animation(&one).unwrap();
    let second = decode_animation(&other).unwrap();
    assert_ne!(first, second);
    assert_eq!(first.frames[0].pixels, second.frames[1].pixels);
    assert_eq!(first.frames[1].pixels, second.frames[0].pixels);
}

#[test]
fn animation_of_less_than_a_header_gives_nothing() {
    assert_eq!(decode_animation(b"GIF89a"), None);
    let bytes = animated_webp(1, 1, &[solid([1, 2, 3, 255], 1)]);
    for len in 0..12 {
        assert_eq!(decode_animation(&bytes[..len]), None);
    }
}

#[test]
fn what_the_codec_opens_is_decoded() {
    let bytes = animated_webp(2, 2, &[solid([1, 2, 3, 255], 4), solid([4, 5, 6, 255], 4)]);
    for stream in [&bytes[..], &bytes[..30], b"GIF89a", &[0u8; 40][..]] {
        assert_eq!(
            decode_animation(stream).is_some(),
            Decoder::new(stream).is_ok()
        );
    }
}

/// Three frames of eight by eight pixels that differ from pixel to pixel.
fn busy_frames() -> Vec<Vec<u8>> {
    let mut frames = Vec::new();
    for k in 0..3u8 {
        let mut frame = Vec::new();
        for i in 0..64u32 {
            let i = i as u8;
            frame.extend_from_slice(&[i.wrapping_mul(37).wrapping_add(k), i.wrapping_mul(i) ^ k, i << k, 255]);
        }
        frames.push(frame);
    }
    frames
}

/// The stream with the picture data of its frame `which` overwritten, the
/// chunks around it left as they are.
fn with_damaged_frame(bytes: &[u8], which: usize) -> Vec<u8> {
    let mut damaged = bytes.to_vec();
    let mut at = 12;
    let mut seen = 0;
    while at + 8 <= bytes.len() {
        let size = u32::from_le_bytes([bytes[at + 4], bytes[at + 5], bytes[at + 6], bytes[at + 7]])
            as usize;
        if &bytes[at..at + 4] == b"ANMF" {
            if seen == which {
                // 8 bytes of chunk header, 16 of frame header, 8 of the
                // picture's chunk header, 5 of the picture's own header.
                for byte in &mut damaged[at + 37..at + 8 + size] {
                    *byte = 0xff;
                }
            }
            seen += 1;
        }
        at += 8 + size + size % 2;
    }
    assert!(seen > which);
    damaged
}

#[test]
fn a_stream_with_a_damaged_frame_gives_nothing() {
    let bytes = animated_webp(8, 8, &busy_frames());
    assert_eq!(decode_animation(&bytes).unwrap().frames.len(), 3);
    for which in 0..3 {
        let damaged = with_damaged_frame(&bytes, which);
        // The codec opens the stream and yields the frames before the
        // damaged one.
        let yielded = Decoder::new(&damaged).unwrap().into_iter().count();
        assert_eq!(yielded, which);
        assert_eq!(count_declared_frames(&damaged), 3);
        let cut = collect_frames(Decoder::new(&damaged).unwrap().into_iter());
        assert_eq!(cut.frames.len(), which);
        assert_eq!(decode_animation(&damaged), None);
    }
}

#[test]
fn an_animation_is_whole_with_every_declared_frame() {
    let mut animation = Animation::new();
    assert_eq!(whole_animation(Animation::new(), 0), None);
    assert_eq!(whole_animation(Animation::new(), 1), None);
    animation.push_frame(raw_frame(vec![1, 2, 3], SourceLayout::Rgb, 1, 1, 0));
    animation.push_frame(raw_frame(vec![4, 5, 6], SourceLayout::Rgb, 1, 1, 10));
    let frames = vec![
        Frame { pixels: vec![px(1, 2, 3)], timestamp: 0 },
        Frame { pixels: vec![px(4, 5, 6)], timestamp: 10 },
    ];
    let same = || Animation {
        frames: vec![
            Frame { pixels: vec![px(1, 2, 3)], timestamp: 0 },
            Frame { pixels: vec![px(4, 5, 6)], timestamp: 10 },
        ],
        size: (1, 1),
    };
    assert_eq!(animation, same());
    assert_eq!(whole_animation(animation, 2), Some(Animation { frames, size: (1, 1) }));
    assert_eq!(whole_animation(same(), 3), None);
    assert_eq!(whole_animation(same(), 1), None);
    assert_eq!(whole_animation(same(), 0), None);
}

#[test]
fn the_codec_yields_as_many_frames_as_a_sound_stream_declares() {
    for n in 1..6usize {
        let frames: Vec<Vec<u8>> = (0..n).map(|k| solid([k as u8 * 40, 1, 2, 255], 6)).collect();
        let bytes = animated_webp(3, 2, &frames);
        let yielded = Decoder::new(&bytes).unwrap().into_iter().count();
        assert_eq!(yielded, n);
        assert_eq!(count_declared_frames(&bytes), n);
        assert_eq!(decode_animation(&bytes).unwrap().frames.len(), n);
    }
}
