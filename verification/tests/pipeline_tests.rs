use image::GenericImageView;
use jpeg_halver::pipeline::{apply_orientation, process_jpeg, ResizeError};

/// An RGB image whose every pixel is distinct: red encodes the column,
/// green the row.
fn gradient(w: u32, h: u32) -> image::DynamicImage {
    let buf = image::RgbImage::from_fn(w, h, |x, y| {
        image::Rgb([(10 + x * 7) as u8, (10 + y * 7) as u8, 200])
    });
    image::DynamicImage::ImageRgb8(buf)
}

fn encode_jpeg(img: &image::DynamicImage) -> Vec<u8> {
    let mut bytes: Vec<u8> = Vec::new();
    let mut enc = image::codecs::jpeg::JpegEncoder::new_with_quality(&mut bytes, 100);
    enc.encode_image(img).expect("encoding a test image must succeed");
    bytes
}

/// A minimal EXIF APP1 segment holding one orientation tag.
fn exif_app1(code: u16) -> Vec<u8> {
    let mut seg = vec![
        0xFF, 0xE1, // APP1 marker
        0x00, 0x22, // segment length: 34 bytes including these two
        b'E', b'x', b'i', b'f', 0x00, 0x00, // EXIF header
        b'I', b'I', 0x2A, 0x00, // TIFF header, little endian
        0x08, 0x00, 0x00, 0x00, // offset of the first IFD
        0x01, 0x00, // one IFD entry
        0x12, 0x01, // tag 0x0112: orientation
        0x03, 0x00, // type: short
        0x01, 0x00, 0x00, 0x00, // one value
    ];
    seg.push((code & 0xFF) as u8);
    seg.push((code >> 8) as u8);
    seg.extend_from_slice(&[0x00, 0x00]); // value padding
    seg.extend_from_slice(&[0x00, 0x00, 0x00, 0x00]); // no next IFD
    seg
}

/// A JPEG of the given image that carries an orientation tag: the APP1
/// segment is spliced in right after the start-of-image marker.
fn jpeg_with_orientation(img: &image::DynamicImage, code: u16) -> Vec<u8> {
    let plain = encode_jpeg(img);
    assert_eq!(&plain[..2], &[0xFF, 0xD8]);
    let mut bytes = vec![0xFF, 0xD8];
    bytes.extend_from_slice(&exif_app1(code));
    bytes.extend_from_slice(&plain[2..]);
    bytes
}

#[test]
fn halves_both_dimensions() {
    let bytes = encode_jpeg(&gradient(8, 6));
    let out = process_jpeg(&bytes).expect("a valid JPEG must be processed");
    assert_eq!(out.width(), 4);
    assert_eq!(out.height(), 3);
}

#[test]
fn halving_rounds_down() {
    let bytes = encode_jpeg(&gradient(9, 5));
    let out = process_jpeg(&bytes).expect("a valid JPEG must be processed");
    assert_eq!(out.width(), 4);
    assert_eq!(out.height(), 2);
}

#[test]
fn corrupt_bytes_are_a_decode_error() {
    let bytes = b"this is not an image at all".to_vec();
    match process_jpeg(&bytes) {
        Err(ResizeError::Decode(_)) => {}
        _ => panic!("corrupt bytes must give a decode error"),
    }
}

#[test]
fn truncated_jpeg_is_a_decode_error() {
    let mut bytes = encode_jpeg(&gradient(8, 8));
    bytes.truncate(bytes.len() / 2);
    assert!(process_jpeg(&bytes).is_err());
}

#[test]
fn too_small_to_halve_is_rejected() {
    for (w, h) in [(1, 1), (1, 8), (8, 1)] {
        let bytes = encode_jpeg(&gradient(w, h));
        match process_jpeg(&bytes) {
            Err(ResizeError::TooSmall) => {}
            _ => panic!("a {}x{} image must be rejected as too small", w, h),
        }
    }
}

#[test]
fn error_descriptions_differ() {
    let decode = process_jpeg(&b"junk".to_vec()).unwrap_err();
    let small = process_jpeg(&encode_jpeg(&gradient(1, 1))).unwrap_err();
    assert_eq!(decode.describe(), "failed to decode image");
    assert_eq!(small.describe(), "image too small to halve");
}

// A file without readable metadata is deliberately treated as carrying no
// orientation, rather than failing: one file with odd metadata must not be
// able to spoil a batch.
#[test]
fn no_orientation_tag_means_a_plain_half_resample() {
    let bytes = encode_jpeg(&gradient(8, 6));
    let out = process_jpeg(&bytes).expect("a valid JPEG must be processed");
    let plain = image::load_from_memory(&bytes)
        .unwrap()
        .resize_exact(4, 3, image::imageops::FilterType::Lanczos3);
    assert_eq!(out.to_rgb8().into_raw(), plain.to_rgb8().into_raw());
}

#[test]
fn orientation_one_means_a_plain_half_resample() {
    let img = gradient(8, 6);
    let out = process_jpeg(&jpeg_with_orientation(&img, 1))
        .expect("a valid JPEG must be processed");
    let plain = image::load_from_memory(&encode_jpeg(&img))
        .unwrap()
        .resize_exact(4, 3, image::imageops::FilterType::Lanczos3);
    assert_eq!(out.to_rgb8().into_raw(), plain.to_rgb8().into_raw());
}

#[test]
fn quarter_turn_orientations_swap_the_output_dimensions() {
    let img = gradient(8, 6);
    for code in [5u16, 6, 7, 8] {
        let out = process_jpeg(&jpeg_with_orientation(&img, code))
            .expect("a valid JPEG must be processed");
        assert_eq!((out.width(), out.height()), (3, 4), "code {}", code);
    }
    for code in [2u16, 3, 4] {
        let out = process_jpeg(&jpeg_with_orientation(&img, code))
            .expect("a valid JPEG must be processed");
        assert_eq!((out.width(), out.height()), (4, 3), "code {}", code);
    }
}

#[test]
fn orientation_is_applied_to_the_resized_pixels() {
    // Left half white, right half black; after halving and a horizontal
    // flip, the dark side must be on the left.
    let buf = image::RgbImage::from_fn(16, 16, |x, _| {
        if x < 8 {
            image::Rgb([255, 255, 255])
        } else {
            image::Rgb([0, 0, 0])
        }
    });
    let img = image::DynamicImage::ImageRgb8(buf);
    let out = process_jpeg(&jpeg_with_orientation(&img, 2))
        .expect("a valid JPEG must be processed");
    assert_eq!((out.width(), out.height()), (8, 8));
    let left = out.get_pixel(0, 4);
    let right = out.get_pixel(7, 4);
    assert!(left[0] < 100, "left side must be dark after the flip");
    assert!(right[0] > 150, "right side must be bright after the flip");
}

#[test]
fn transform_table_moves_a_marker_as_documented() {
    let w = 4u32;
    let h = 2u32;
    let img = gradient(w, h);
    let at = |x: u32, y: u32| img.get_pixel(x, y);
    for code in 2u32..=8 {
        let out = apply_orientation(img.clone(), code);
        match code {
            2 => {
                assert_eq!((out.width(), out.height()), (w, h));
                for y in 0..h {
                    for x in 0..w {
                        assert_eq!(out.get_pixel(x, y), at(w - 1 - x, y));
                    }
                }
            }
            3 => {
                assert_eq!((out.width(), out.height()), (w, h));
                for y in 0..h {
                    for x in 0..w {
                        assert_eq!(out.get_pixel(x, y), at(w - 1 - x, h - 1 - y));
                    }
                }
            }
            4 => {
                assert_eq!((out.width(), out.height()), (w, h));
                for y in 0..h {
                    for x in 0..w {
                        assert_eq!(out.get_pixel(x, y), at(x, h - 1 - y));
                    }
                }
            }
            5 => {
                // Quarter turn clockwise, then a horizontal flip: transpose.
                assert_eq!((out.width(), out.height()), (h, w));
                for y in 0..w {
                    for x in 0..h {
                        assert_eq!(out.get_pixel(x, y), at(y, x));
                    }
                }
            }
            6 => {
                assert_eq!((out.width(), out.height()), (h, w));
                for y in 0..w {
                    for x in 0..h {
                        assert_eq!(out.get_pixel(x, y), at(y, h - 1 - x));
                    }
                }
            }
            7 => {
                // Quarter turn counterclockwise, then a horizontal flip.
                assert_eq!((out.width(), out.height()), (h, w));
                for y in 0..w {
                    for x in 0..h {
                        assert_eq!(out.get_pixel(x, y), at(w - 1 - y, h - 1 - x));
                    }
                }
            }
            8 => {
                assert_eq!((out.width(), out.height()), (h, w));
                for y in 0..w {
                    for x in 0..h {
                        assert_eq!(out.get_pixel(x, y), at(w - 1 - y, x));
                    }
                }
            }
            _ => unreachable!(),
        }
    }
}

#[test]
fn unrecognized_codes_change_nothing() {
    let img = gradient(4, 2);
    for code in [0u32, 1, 9, 100] {
        let out = apply_orientation(img.clone(), code);
        assert_eq!(out.to_rgb8().into_raw(), img.to_rgb8().into_raw());
    }
}

#[test]
fn one_bad_file_does_not_spoil_the_others() {
    let good_a = encode_jpeg(&gradient(8, 6));
    let bad = b"garbage, not a JPEG".to_vec();
    let good_b = encode_jpeg(&gradient(4, 4));
    let results: Vec<Result<image::DynamicImage, ResizeError>> =
        [&good_a, &bad, &good_b].iter().map(|b| process_jpeg(b)).collect();
    assert!(results[0].is_ok());
    assert!(results[1].is_err());
    assert!(results[2].is_ok());
}
