use openmedia::error::OpenMediaError;
use openmedia::frames::{Frame, Rgba};
use openmedia::imaging::{decode_frame, encode_frame_as, encode_frame_jpeg};
use openmedia::video::FrameFormat;

fn px(r: u8, g: u8, b: u8, a: u8) -> Rgba {
    Rgba { r, g, b, a }
}

fn frame(width: u32, height: u32) -> Frame {
    let rows = (0..height)
        .map(|y| (0..width).map(|x| px((x * 40) as u8, (y * 60) as u8, 200, 255)).collect())
        .collect();
    Frame { width, height, rows }
}

#[test]
fn frames_encode_as_jpeg_files() {
    let bytes = encode_frame_jpeg(&frame(3, 2)).unwrap();
    assert_eq!(&bytes[..2], &[0xFF, 0xD8]);
    assert_eq!(&bytes[bytes.len() - 2..], &[0xFF, 0xD9]);
    let back = decode_frame(&bytes).unwrap();
    assert_eq!((back.width, back.height), (3, 2));
}

#[test]
fn empty_and_oversized_frames_are_refused() {
    match encode_frame_jpeg(&frame(0, 0)) {
        Err(OpenMediaError::ImageEncodeError { format, .. }) => assert_eq!(format, "jpeg"),
        other => panic!("unexpected result: {:?}", other.map(|b| b.len())),
    }
    match encode_frame_jpeg(&frame(70000, 1)) {
        Err(OpenMediaError::ImageEncodeError { format, .. }) => assert_eq!(format, "jpeg"),
        other => panic!("unexpected result: {:?}", other.map(|b| b.len())),
    }
}

#[test]
fn png_screenshots_decode_pixel_for_pixel() {
    let mut img = image::RgbaImage::new(2, 2);
    img.put_pixel(0, 0, image::Rgba([1, 2, 3, 4]));
    img.put_pixel(1, 0, image::Rgba([5, 6, 7, 8]));
    img.put_pixel(0, 1, image::Rgba([9, 10, 11, 12]));
    img.put_pixel(1, 1, image::Rgba([13, 14, 15, 255]));
    let mut bytes = Vec::new();
    img.write_to(&mut std::io::Cursor::new(&mut bytes), image::ImageFormat::Png).unwrap();
    let f = decode_frame(&bytes).unwrap();
    assert_eq!((f.width, f.height), (2, 2));
    assert_eq!(f.rows[0], vec![px(1, 2, 3, 4), px(5, 6, 7, 8)]);
    assert_eq!(f.rows[1], vec![px(9, 10, 11, 12), px(13, 14, 15, 255)]);
}

#[test]
fn bytes_that_are_no_image_fail_to_decode() {
    assert!(matches!(decode_frame(&vec![1, 2, 3, 4]), Err(OpenMediaError::ImageDecodeError(_))));
}

#[test]
fn previews_save_as_png_and_webp_but_not_jpeg() {
    let f = frame(4, 3);
    let png = encode_frame_as(&f, FrameFormat::Png).unwrap();
    assert_eq!(&png[..4], &[0x89, b'P', b'N', b'G']);
    let back = decode_frame(&png).unwrap();
    assert_eq!(back.rows, f.rows);
    let webp = encode_frame_as(&f, FrameFormat::Webp).unwrap();
    assert_eq!(&webp[..4], b"RIFF");
    assert_eq!(decode_frame(&webp).unwrap().rows, f.rows);
    assert!(encode_frame_as(&f, FrameFormat::Jpeg).is_err());
}

#[test]
fn preview_sizes_each_format_accepts() {
    assert!(encode_frame_as(&frame(0, 0), FrameFormat::Png).is_err());
    assert!(encode_frame_as(&frame(0, 0), FrameFormat::Webp).is_err());
    assert!(encode_frame_as(&frame(16385, 1), FrameFormat::Webp).is_err());
    assert!(encode_frame_as(&frame(16384, 1), FrameFormat::Webp).is_ok());
    assert!(encode_frame_as(&frame(16385, 1), FrameFormat::Png).is_ok());
    assert!(encode_frame_as(&frame(1, 1), FrameFormat::Jpeg).is_err());
}
