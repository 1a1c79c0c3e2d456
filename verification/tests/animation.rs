use giftopia::animation::{prepare_frame, Animation, LoadError, PixelFormat, StaticTexture};
use giftopia::decode::{decode, RawFrame};
use giftopia::geometry::Rect;

fn frame(left: u16, top: u16, width: u16, height: u16, buffer: Vec<u8>) -> RawFrame {
    RawFrame { left, top, width, height, buffer }
}

/// The bytes of an image of the given canvas size with these frames, each
/// `(left, top, width, height, palette indices)`, over a palette of four
/// colours.
fn image(width: u16, height: u16, frames: &[(u16, u16, u16, u16, Vec<u8>)]) -> Vec<u8> {
    let palette = [10u8, 20, 30, 40, 50, 60, 70, 80, 90, 100, 110, 120];
    let mut bytes = Vec::new();
    {
        let mut encoder = gif::Encoder::new(&mut bytes, width, height, &palette).expect("header");
        for (left, top, w, h, indices) in frames {
            let mut f = gif::Frame::from_indexed_pixels(*w, *h, indices, None);
            f.left = *left;
            f.top = *top;
            encoder.write_frame(&f).expect("frame");
        }
    }
    bytes
}

#[test]
fn a_frame_becomes_two_textures_of_the_canvas_size() {
    let raw = frame(1, 2, 2, 2, (1u8..=16).collect());
    let pair = prepare_frame(&raw, 7, 5).expect("whole rows");
    let region = Rect { x: 1, y: 2, w: 2, h: 2 };
    assert_eq!(
        pair.normal,
        StaticTexture {
            format: PixelFormat::Rgba8888,
            width: 7,
            height: 5,
            region,
            pitch: 28,
            pixels: vec![4, 3, 2, 1, 8, 7, 6, 5, 12, 11, 10, 9, 16, 15, 14, 13],
        }
    );
    assert_eq!(
        pair.mirrored,
        StaticTexture {
            format: PixelFormat::Rgba8888,
            width: 7,
            height: 5,
            region,
            pitch: 28,
            pixels: vec![12, 11, 10, 9, 16, 15, 14, 13, 4, 3, 2, 1, 8, 7, 6, 5],
        }
    );
}

#[test]
fn a_frame_leaves_its_buffer_as_it_was() {
    let raw = frame(0, 0, 1, 2, vec![1, 2, 3, 4, 5, 6, 7, 8]);
    let _ = prepare_frame(&raw, 1, 2).expect("whole rows");
    assert_eq!(raw.buffer, vec![1, 2, 3, 4, 5, 6, 7, 8]);
}

#[test]
fn a_frame_without_pixels_gives_empty_uploads() {
    let raw = frame(3, 4, 0, 0, Vec::new());
    let pair = prepare_frame(&raw, 2, 2).expect("nothing to fit");
    assert!(pair.normal.pixels.is_empty());
    assert!(pair.mirrored.pixels.is_empty());
    assert_eq!((pair.normal.width, pair.normal.height), (2, 2));
    assert_eq!(pair.normal.region, Rect { x: 3, y: 4, w: 0, h: 0 });
}

#[test]
fn a_frame_of_partial_pixels_is_refused() {
    let raw = frame(0, 0, 1, 1, vec![1, 2, 3]);
    assert!(matches!(prepare_frame(&raw, 1, 1), Err(LoadError::InvalidBufferLength)));
}

#[test]
fn a_frame_of_partial_rows_is_refused() {
    // three pixels in rows of two
    let raw = frame(0, 0, 2, 2, (0u8..12).collect());
    assert!(matches!(prepare_frame(&raw, 2, 2), Err(LoadError::InvalidBufferLength)));
}

#[test]
fn a_frame_without_width_must_be_empty() {
    let raw = frame(0, 0, 0, 1, vec![1, 2, 3, 4]);
    assert!(matches!(prepare_frame(&raw, 4, 4), Err(LoadError::InvalidBufferLength)));
}

#[test]
fn the_offsets_of_a_frame_go_into_the_region_unchanged() {
    let raw = frame(u16::MAX, u16::MAX, 1, 1, vec![0, 0, 0, 0]);
    let pair = prepare_frame(&raw, u16::MAX, u16::MAX).expect("whole rows");
    assert_eq!(pair.normal.region, Rect { x: 65535, y: 65535, w: 1, h: 1 });
    assert_eq!(pair.normal.width, 65535);
    assert_eq!(pair.normal.height, 65535);
    assert_eq!(pair.normal.pitch, 262140);
}

#[test]
fn no_frames_no_animation() {
    let r = Animation::from_frames(4, 4, Vec::new());
    assert!(matches!(r, Err(LoadError::EmptyAnimation)));
}

#[test]
fn one_bad_frame_fails_the_whole_animation() {
    let frames = vec![
        frame(0, 0, 1, 1, vec![1, 2, 3, 4]),
        frame(0, 0, 1, 1, vec![1, 2, 3, 4, 5]),
        frame(0, 0, 1, 1, vec![1, 2, 3, 4]),
    ];
    let r = Animation::from_frames(1, 1, frames);
    assert!(matches!(r, Err(LoadError::InvalidBufferLength)));
}

#[test]
fn there_is_one_pair_for_each_frame_in_order() {
    let frames: Vec<RawFrame> =
        (0u8..5).map(|i| frame(0, 0, 1, 1, vec![i, i + 1, i + 2, i + 3])).collect();
    let animation = Animation::from_frames(1, 1, frames.clone()).expect("whole frames");
    assert_eq!(animation.len(), 5);
    assert_eq!(animation.frames().len(), 5);
    for (i, pair) in animation.frames().iter().enumerate() {
        assert_eq!(*pair, prepare_frame(&frames[i], 1, 1).expect("whole rows"));
        let i = i as u8;
        assert_eq!(pair.normal.pixels, vec![i + 3, i + 2, i + 1, i]);
    }
}

#[test]
fn the_canvas_has_the_size_given_whatever_the_frames_cover() {
    let frames = vec![frame(0, 0, 3, 2, vec![0; 24]), frame(1, 1, 1, 1, vec![0; 4])];
    let animation = Animation::from_frames(3, 2, frames).expect("whole frames");
    assert_eq!(animation.rect(), Rect { x: 0, y: 0, w: 3, h: 2 });
    for pair in animation.frames() {
        for texture in [&pair.normal, &pair.mirrored] {
            assert_eq!((texture.width, texture.height), (3, 2));
            assert_eq!(texture.pitch, 12);
            assert_eq!(texture.format, PixelFormat::Rgba8888);
        }
        assert_eq!(pair.normal.region, pair.mirrored.region);
    }
    assert_eq!(animation.frames()[1].normal.region, Rect { x: 1, y: 1, w: 1, h: 1 });
}

#[test]
fn the_cycle_comes_back_to_the_first_frame() {
    let frames: Vec<RawFrame> = (0u8..4).map(|i| frame(0, 0, 1, 1, vec![i, 0, 0, 0])).collect();
    let animation = Animation::from_frames(1, 1, frames).expect("whole frames");
    let mut cycle = animation.cycle();
    assert_eq!(cycle.position(), 0);
    let first = cycle.next().clone();
    assert_eq!(first, animation.frames()[0]);
    for i in 1..4 {
        assert_eq!(cycle.position(), i);
        assert_eq!(*cycle.next(), animation.frames()[i]);
    }
    assert_eq!(cycle.position(), 0);
    assert_eq!(*cycle.next(), first);
}

#[test]
fn the_cycle_never_ends() {
    let frames: Vec<RawFrame> = (0u8..3).map(|i| frame(0, 0, 1, 1, vec![i, 0, 0, 0])).collect();
    let animation = Animation::from_frames(1, 1, frames).expect("whole frames");
    let mut cycle = animation.cycle();
    for step in 0..1000usize {
        assert_eq!(cycle.next().normal.pixels[3], (step % 3) as u8);
    }
}

#[test]
fn every_cycle_starts_at_the_first_frame() {
    let frames: Vec<RawFrame> = (0u8..3).map(|i| frame(0, 0, 1, 1, vec![i, 0, 0, 0])).collect();
    let animation = Animation::from_frames(1, 1, frames).expect("whole frames");
    let mut cycle = animation.cycle();
    let _ = cycle.next();
    let _ = cycle.next();
    let mut again = animation.cycle();
    assert_eq!(again.position(), 0);
    assert_eq!(*again.next(), animation.frames()[0]);
}

#[test]
fn an_upload_must_stay_inside_its_pixels() {
    let texture = |w: u32, h: u32, pitch: usize, len: usize| StaticTexture {
        format: PixelFormat::Rgba8888,
        width: 8,
        height: 8,
        region: Rect { x: 0, y: 0, w, h },
        pitch,
        pixels: vec![0; len],
    };
    // two rows of two pixels, one row after the other
    assert!(texture(2, 2, 8, 16).is_upload_in_bounds());
    assert!(!texture(2, 2, 8, 15).is_upload_in_bounds());
    // the second row starts 32 bytes after the first
    assert!(texture(2, 2, 32, 40).is_upload_in_bounds());
    assert!(!texture(2, 2, 32, 39).is_upload_in_bounds());
    assert!(!texture(2, 2, 32, 16).is_upload_in_bounds());
    // an empty region reads nothing
    assert!(texture(0, 5, 32, 0).is_upload_in_bounds());
    assert!(texture(5, 0, 32, 0).is_upload_in_bounds());
    assert!(texture(1, 1, usize::MAX, 4).is_upload_in_bounds());
    assert!(!texture(1, 2, usize::MAX, 4).is_upload_in_bounds());
}

#[test]
fn a_full_frame_uploads_in_bounds() {
    let raw = frame(0, 0, 3, 2, vec![0; 24]);
    let pair = prepare_frame(&raw, 3, 2).expect("whole rows");
    assert!(pair.normal.is_upload_in_bounds());
    assert!(pair.mirrored.is_upload_in_bounds());
}

#[test]
fn decoding_gives_the_canvas_and_the_frames() {
    let bytes = image(3, 2, &[(0, 0, 3, 2, vec![0, 1, 2, 3, 2, 1]), (1, 1, 2, 1, vec![3, 0])]);
    let decoded = decode(&bytes).expect("a well-formed image");
    assert_eq!((decoded.width, decoded.height), (3, 2));
    assert_eq!(decoded.frames.len(), 2);
    assert_eq!(
        decoded.frames[0],
        frame(
            0,
            0,
            3,
            2,
            vec![
                10, 20, 30, 255, 40, 50, 60, 255, 70, 80, 90, 255, //
                100, 110, 120, 255, 70, 80, 90, 255, 40, 50, 60, 255,
            ]
        )
    );
    assert_eq!(decoded.frames[1], frame(1, 1, 2, 1, vec![100, 110, 120, 255, 10, 20, 30, 255]));
}

#[test]
fn loading_decodes_swaps_and_mirrors() {
    let bytes = image(2, 2, &[(0, 0, 2, 2, vec![0, 1, 2, 3]), (0, 0, 2, 2, vec![3, 3, 0, 0])]);
    let animation = Animation::load_gif(&bytes).expect("a well-formed image");
    assert_eq!(animation.rect(), Rect { x: 0, y: 0, w: 2, h: 2 });
    assert_eq!(animation.len(), 2);
    let first = &animation.frames()[0];
    assert_eq!(
        first.normal.pixels,
        vec![255, 30, 20, 10, 255, 60, 50, 40, 255, 90, 80, 70, 255, 120, 110, 100]
    );
    assert_eq!(
        first.mirrored.pixels,
        vec![255, 90, 80, 70, 255, 120, 110, 100, 255, 30, 20, 10, 255, 60, 50, 40]
    );
    let second = &animation.frames()[1];
    assert_eq!(
        second.normal.pixels,
        vec![255, 120, 110, 100, 255, 120, 110, 100, 255, 30, 20, 10, 255, 30, 20, 10]
    );
    assert_eq!(
        second.mirrored.pixels,
        vec![255, 30, 20, 10, 255, 30, 20, 10, 255, 120, 110, 100, 255, 120, 110, 100]
    );
    for pair in animation.frames() {
        for texture in [&pair.normal, &pair.mirrored] {
            assert_eq!((texture.width, texture.height), (2, 2));
            assert_eq!(texture.region, Rect { x: 0, y: 0, w: 2, h: 2 });
            assert_eq!(texture.pitch, 8);
            assert!(texture.is_upload_in_bounds());
        }
    }
}

#[test]
fn loading_keeps_the_canvas_size_for_a_smaller_frame() {
    let bytes = image(5, 4, &[(0, 0, 5, 4, vec![0; 20]), (2, 1, 3, 2, vec![1, 2, 3, 3, 2, 1])]);
    let animation = Animation::load_gif(&bytes).expect("a well-formed image");
    assert_eq!(animation.len(), 2);
    let small = &animation.frames()[1];
    for texture in [&small.normal, &small.mirrored] {
        assert_eq!((texture.width, texture.height), (5, 4));
        assert_eq!(texture.region, Rect { x: 2, y: 1, w: 3, h: 2 });
        assert_eq!(texture.pitch, 20);
        assert_eq!(texture.pixels.len(), 24);
    }
    assert_eq!(&small.normal.pixels[..4], &[255u8, 60, 50, 40]);
    assert_eq!(&small.mirrored.pixels[..4], &[255u8, 120, 110, 100]);
}

#[test]
fn loading_counts_the_frames_of_the_stream() {
    for count in 1usize..6 {
        let frames: Vec<(u16, u16, u16, u16, Vec<u8>)> =
            (0..count).map(|i| (0, 0, 1, 1, vec![(i % 4) as u8])).collect();
        let animation = Animation::load_gif(&image(1, 1, &frames)).expect("a well-formed image");
        assert_eq!(animation.len(), count);
    }
}

#[test]
fn a_stream_without_frames_is_no_animation() {
    let mut bytes = image(2, 2, &[]);
    // the decoder looks one byte past the trailer
    bytes.push(0);
    assert_eq!(decode(&bytes).expect("a well-formed image").frames.len(), 0);
    assert!(matches!(Animation::load_gif(&bytes), Err(LoadError::EmptyAnimation)));
}

#[test]
fn a_truncated_header_is_a_decoding_error() {
    let bytes = image(2, 2, &[(0, 0, 2, 2, vec![0, 1, 2, 3])]);
    for len in [0usize, 1, 3, 6, 8, 10, 12] {
        assert!(matches!(Animation::load_gif(&bytes[..len]), Err(LoadError::Gif(_))));
        assert!(matches!(decode(&bytes[..len]), Err(LoadError::Gif(_))));
    }
}

#[test]
fn a_truncated_frame_is_a_decoding_error() {
    let bytes = image(2, 2, &[(0, 0, 2, 2, vec![0, 1, 2, 3]), (0, 0, 2, 2, vec![3, 2, 1, 0])]);
    assert!(Animation::load_gif(&bytes).is_ok());
    let cut = bytes.len() - 6;
    assert!(matches!(Animation::load_gif(&bytes[..cut]), Err(LoadError::Gif(_))));
}

#[test]
fn bytes_that_are_no_image_are_a_decoding_error() {
    assert!(matches!(Animation::load_gif(b"not an image at all"), Err(LoadError::Gif(_))));
    assert!(matches!(Animation::load_gif(b"GIF00a\x01\x00\x01\x00\x00\x00\x00;"), Err(LoadError::Gif(_))));
}
