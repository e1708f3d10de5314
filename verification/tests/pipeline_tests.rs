use gif_maker::encoder::EncodingSession;
use gif_maker::errors::GifError;
use gif_maker::frames::Canvas;
use gif_maker::normalize::{normalize_frame, resolve_canvas};
use gif_maker::pipeline::encode_all;

fn png_bytes(w: u32, h: u32, rgb: [u8; 3]) -> Vec<u8> {
    let img = image::RgbImage::from_pixel(w, h, image::Rgb(rgb));
    let mut buf = std::io::Cursor::new(Vec::new());
    img.write_to(&mut buf, image::ImageFormat::Png).unwrap();
    buf.into_inner()
}

struct DecodedGif {
    width: u16,
    height: u16,
    repeat: gif::Repeat,
    frames: Vec<(u16, u16, u16, Vec<u8>)>,
}

fn decode_gif(bytes: &[u8]) -> DecodedGif {
    let mut options = gif::DecodeOptions::new();
    options.set_color_output(gif::ColorOutput::RGBA);
    let mut decoder = options.read_info(std::io::Cursor::new(bytes)).unwrap();
    let width = decoder.width();
    let height = decoder.height();
    let mut frames = Vec::new();
    while let Some(frame) = decoder.read_next_frame().unwrap() {
        frames.push((frame.width, frame.height, frame.delay, frame.buffer.to_vec()));
    }
    DecodedGif { width, height, repeat: decoder.repeat(), frames }
}

#[test]
fn canvas_from_first_image() {
    let bytes = png_bytes(37, 23, [9, 8, 7]);
    let canvas = resolve_canvas(&bytes).unwrap();
    assert_eq!(canvas.width, 37);
    assert_eq!(canvas.height, 23);
}

#[test]
fn canvas_rejects_undecodable_bytes() {
    let bytes = b"this is not an image at all".to_vec();
    match resolve_canvas(&bytes) {
        Ok(_) => panic!("expected a decode error"),
        Err(e) => assert_eq!(e, GifError::ImageDecode),
    }
}

#[test]
fn canvas_rejects_oversized_image() {
    let bytes = png_bytes(65536, 1, [1, 2, 3]);
    match resolve_canvas(&bytes) {
        Ok(_) => panic!("expected a resize error"),
        Err(e) => assert_eq!(e, GifError::Resize),
    }
}

#[test]
fn normalize_stretches_to_canvas() {
    let bytes = png_bytes(2, 2, [255, 0, 0]);
    let canvas = Canvas { width: 1, height: 1 };
    let frame = normalize_frame(&bytes, canvas, 7).unwrap();
    assert_eq!(frame.width, 1);
    assert_eq!(frame.height, 1);
    assert_eq!(frame.delay, 7);
    assert_eq!(frame.pixels, vec![255, 0, 0]);
}

#[test]
fn normalize_resamples_halves() {
    // left half green, right half blue; squashing to one pixel per half
    // must pick one source pixel per target pixel, no blending
    let mut img = image::RgbImage::new(4, 2);
    for y in 0..2 {
        for x in 0..4 {
            let rgb = if x < 2 { [0, 255, 0] } else { [0, 0, 255] };
            img.put_pixel(x, y, image::Rgb(rgb));
        }
    }
    let mut buf = std::io::Cursor::new(Vec::new());
    img.write_to(&mut buf, image::ImageFormat::Png).unwrap();
    let bytes = buf.into_inner();
    let canvas = Canvas { width: 2, height: 1 };
    let frame = normalize_frame(&bytes, canvas, 10).unwrap();
    assert_eq!(frame.pixels, vec![0, 255, 0, 0, 0, 255]);
}

#[test]
fn normalize_rejects_undecodable_bytes() {
    let bytes = vec![0u8; 64];
    let canvas = Canvas { width: 4, height: 4 };
    match normalize_frame(&bytes, canvas, 10) {
        Ok(_) => panic!("expected a decode error"),
        Err(e) => assert_eq!(e, GifError::ImageDecode),
    }
}

#[test]
fn three_frames_scenario() {
    let images = vec![
        png_bytes(100, 100, [255, 0, 0]),
        png_bytes(200, 150, [0, 255, 0]),
        png_bytes(50, 50, [0, 0, 255]),
    ];
    let out = encode_all(&images, 10).unwrap();
    let decoded = decode_gif(&out);
    assert_eq!(decoded.width, 100);
    assert_eq!(decoded.height, 100);
    assert_eq!(decoded.frames.len(), 3);
    let expected = [[255, 0, 0], [0, 255, 0], [0, 0, 255]];
    for (i, (w, h, delay, buffer)) in decoded.frames.iter().enumerate() {
        assert_eq!(*w, 100);
        assert_eq!(*h, 100);
        assert_eq!(*delay, 10);
        assert_eq!(buffer.len(), 100 * 100 * 4);
        assert_eq!(&buffer[0..3], &expected[i]);
        let last = buffer.len() - 4;
        assert_eq!(&buffer[last..last + 3], &expected[i]);
    }
}

#[test]
fn scenario_three_pngs_by_mtime() {
    // three images, listed out of order; their modification times give
    // the chronological order a(100x100), b(200x150), c(50x50)
    let entry = |name: &str, modified: i64| gif_maker::sources::SourceEntry {
        name: name.as_bytes().to_vec(),
        modified: Some(modified),
    };
    let listing = vec![entry("c.png", 30), entry("a.png", 10), entry("b.png", 20)];
    let ordered = match gif_maker::sources::plan_sources(listing) {
        Ok(p) => p,
        Err(_) => panic!("expected a plan"),
    };
    let names: Vec<&[u8]> = ordered.iter().map(|e| e.name.as_slice()).collect();
    assert_eq!(names, vec![b"a.png".as_slice(), b"b.png", b"c.png"]);
    let bytes_of = |name: &[u8]| match name {
        b"a.png" => png_bytes(100, 100, [255, 0, 0]),
        b"b.png" => png_bytes(200, 150, [0, 255, 0]),
        _ => png_bytes(50, 50, [0, 0, 255]),
    };
    let images: Vec<Vec<u8>> = ordered.iter().map(|e| bytes_of(e.name.as_slice())).collect();
    let out = encode_all(&images, 10).unwrap();
    let decoded = decode_gif(&out);
    assert_eq!((decoded.width, decoded.height), (100, 100));
    assert_eq!(decoded.frames.len(), 3);
    for (w, h, delay, _) in &decoded.frames {
        assert_eq!((*w, *h, *delay), (100, 100, 10));
    }
}

#[test]
fn loop_mode_is_infinite() {
    let images = vec![png_bytes(3, 3, [1, 2, 3])];
    let out = encode_all(&images, 10).unwrap();
    let decoded = decode_gif(&out);
    assert_eq!(decoded.repeat, gif::Repeat::Infinite);
    let many = vec![
        png_bytes(3, 3, [1, 2, 3]),
        png_bytes(3, 3, [4, 5, 6]),
        png_bytes(3, 3, [7, 8, 9]),
    ];
    let out2 = encode_all(&many, 25).unwrap();
    assert_eq!(decode_gif(&out2).repeat, gif::Repeat::Infinite);
}

#[test]
fn rerun_is_byte_identical() {
    let images = vec![
        png_bytes(20, 10, [10, 20, 30]),
        png_bytes(7, 9, [40, 50, 60]),
    ];
    let first = encode_all(&images, 12).unwrap();
    let second = encode_all(&images, 12).unwrap();
    assert_eq!(first, second);
}

#[test]
fn empty_input_is_refused() {
    let none: Vec<Vec<u8>> = Vec::new();
    match encode_all(&none, 10) {
        Ok(_) => panic!("expected no input"),
        Err(e) => assert_eq!(e, GifError::NoInput),
    }
}

#[test]
fn broken_second_image_is_fatal() {
    let images = vec![png_bytes(5, 5, [1, 1, 1]), b"garbage".to_vec()];
    match encode_all(&images, 10) {
        Ok(_) => panic!("expected a decode error"),
        Err(e) => assert_eq!(e, GifError::ImageDecode),
    }
}

#[test]
fn session_writes_one_record_per_append() {
    let canvas = Canvas { width: 8, height: 4 };
    let mut session = EncodingSession::open(canvas).unwrap();
    let delays = [5u16, 6, 7];
    for (i, d) in delays.iter().enumerate() {
        let shade = (40 * (i + 1)) as u8;
        let bytes = png_bytes(8, 4, [shade, shade, shade]);
        let frame = normalize_frame(&bytes, canvas, *d).unwrap();
        session = session.append(&frame).unwrap();
    }
    let out = session.finish().unwrap();
    let decoded = decode_gif(&out);
    assert_eq!(decoded.width, 8);
    assert_eq!(decoded.height, 4);
    assert_eq!(decoded.frames.len(), 3);
    for (i, (_, _, delay, buffer)) in decoded.frames.iter().enumerate() {
        assert_eq!(*delay, delays[i]);
        let shade = (40 * (i + 1)) as u8;
        assert_eq!(&buffer[0..3], &[shade, shade, shade]);
    }
}
