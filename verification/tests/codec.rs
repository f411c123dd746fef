//! Tests for the PNG codec boundary: round trips through the real codec,
//! pass-through re-emission, the alpha fallback, and the rejection of
//! unsupported streams.

use pngio::codec::{color_type_for_format, format_for_color_type, PngError};
use pngio::image::{bytes_per_pixel, Image, PixelFormat};

/// CRC-32 as the PNG file format uses it, for hand-built chunks.
fn crc32(bytes: &[u8]) -> u32 {
    let mut crc: u32 = 0xFFFF_FFFF;
    for &b in bytes {
        crc ^= b as u32;
        for _ in 0..8 {
            if crc & 1 != 0 {
                crc = (crc >> 1) ^ 0xEDB8_8320;
            } else {
                crc >>= 1;
            }
        }
    }
    !crc
}

fn push_chunk(out: &mut Vec<u8>, kind: &[u8; 4], data: &[u8]) {
    out.extend_from_slice(&(data.len() as u32).to_be_bytes());
    out.extend_from_slice(kind);
    out.extend_from_slice(data);
    let mut checked = Vec::new();
    checked.extend_from_slice(kind);
    checked.extend_from_slice(data);
    out.extend_from_slice(&crc32(&checked).to_be_bytes());
}

/// A 1x1 PNG stream whose header declares the given color type and bit
/// depth. The header is all the codec reads before this library's own
/// validation runs, so a stub image-data chunk suffices.
fn png_with_header(color_type: u8, bit_depth: u8) -> Vec<u8> {
    let mut out = vec![137, 80, 78, 71, 13, 10, 26, 10];
    let mut ihdr = Vec::new();
    ihdr.extend_from_slice(&1u32.to_be_bytes());
    ihdr.extend_from_slice(&1u32.to_be_bytes());
    ihdr.push(bit_depth);
    ihdr.push(color_type);
    ihdr.push(0);
    ihdr.push(0);
    ihdr.push(0);
    push_chunk(&mut out, b"IHDR", &ihdr);
    if color_type == 3 {
        push_chunk(&mut out, b"PLTE", &[0, 0, 0]);
    }
    push_chunk(&mut out, b"IDAT", &[0, 0]);
    push_chunk(&mut out, b"IEND", &[]);
    out
}

#[test]
fn format_table_is_one_to_one() {
    assert_eq!(format_for_color_type(6), Some(PixelFormat::RGBA));
    assert_eq!(format_for_color_type(2), Some(PixelFormat::RGB));
    assert_eq!(format_for_color_type(4), Some(PixelFormat::GrayAlpha));
    assert_eq!(format_for_color_type(0), Some(PixelFormat::Gray));
    assert_eq!(format_for_color_type(3), None);
    assert_eq!(format_for_color_type(1), None);
    for color_type in [0u8, 2, 4, 6] {
        let format = format_for_color_type(color_type).unwrap();
        assert_eq!(color_type_for_format(format), Some(color_type));
    }
    assert_eq!(color_type_for_format(PixelFormat::Alpha), None);
    assert_eq!(color_type_for_format(PixelFormat::PNG), None);
}

fn assert_round_trip(format: PixelFormat, width: u32, height: u32, data: Vec<u8>) {
    let img = Image { format, width, height, data: data.clone() };
    let encoded = img.write_png().expect("encoding a well-formed raw image succeeds");
    let decoded = Image::decode_from_png(&encoded).expect("decoding the encoder's output succeeds");
    assert_eq!(decoded.format, format);
    assert_eq!(decoded.width, width);
    assert_eq!(decoded.height, height);
    assert_eq!(decoded.data, data);
    // The size invariant holds after the decode.
    assert_eq!(
        decoded.data.len(),
        width as usize * height as usize * bytes_per_pixel(format)
    );
}

#[test]
fn round_trip_rgba() {
    assert_round_trip(
        PixelFormat::RGBA,
        3,
        2,
        (0..24).map(|i| (i * 11) as u8).collect(),
    );
}

#[test]
fn round_trip_rgb() {
    assert_round_trip(PixelFormat::RGB, 2, 3, (0..18).map(|i| (255 - i * 7) as u8).collect());
}

#[test]
fn round_trip_gray_alpha() {
    assert_round_trip(PixelFormat::GrayAlpha, 4, 1, vec![1, 2, 3, 4, 5, 6, 7, 8]);
}

#[test]
fn round_trip_gray() {
    assert_round_trip(PixelFormat::Gray, 1, 5, vec![0, 64, 128, 192, 255]);
}

#[test]
fn round_trip_single_pixel() {
    assert_round_trip(PixelFormat::RGBA, 1, 1, vec![10, 20, 30, 40]);
}

#[test]
fn concrete_two_by_two_rgba_scenario() {
    let data = vec![
        255, 0, 0, 255, 0, 255, 0, 255, 0, 0, 255, 255, 255, 255, 255, 255,
    ];
    let img = Image { format: PixelFormat::RGBA, width: 2, height: 2, data: data.clone() };
    let encoded = img.write_png().expect("encoding the 2x2 RGBA image succeeds");
    let decoded = Image::decode_from_png(&encoded).expect("decoding it back succeeds");
    assert_eq!(decoded.format, PixelFormat::RGBA);
    assert_eq!(decoded.width, 2);
    assert_eq!(decoded.height, 2);
    assert_eq!(decoded.data, data);
    assert_eq!(decoded.data.len(), 16);
}

#[test]
fn pass_through_keeps_original_bytes() {
    let source = Image {
        format: PixelFormat::Gray,
        width: 3,
        height: 3,
        data: vec![0, 10, 20, 30, 40, 50, 60, 70, 80],
    };
    let original = source.write_png().expect("encoding the source image succeeds");

    let kept = Image::read_png(original.clone()).expect("the pass-through reader accepts it");
    assert_eq!(kept.format, PixelFormat::PNG);
    assert_eq!(kept.width, 3);
    assert_eq!(kept.height, 3);
    assert_eq!(kept.data, original);

    let reemitted = kept.write_png().expect("re-emitting stored PNG bytes succeeds");
    assert_eq!(reemitted, original);
}

#[test]
fn alpha_fallback_widens_to_gray_alpha() {
    let img = Image {
        format: PixelFormat::Alpha,
        width: 2,
        height: 3,
        data: vec![255, 0, 128, 64, 32, 16],
    };
    let encoded = img.write_png().expect("encoding an alpha image succeeds via the fallback");
    let decoded = Image::decode_from_png(&encoded).expect("decoding the fallback output succeeds");
    assert_eq!(decoded.format, PixelFormat::GrayAlpha);
    assert_eq!(decoded.width, 2);
    assert_eq!(decoded.height, 3);
    assert_eq!(
        decoded.data,
        vec![255, 255, 0, 0, 128, 128, 64, 64, 32, 32, 16, 16]
    );
}

#[test]
fn rejects_indexed_color_type() {
    let stream = png_with_header(3, 8);
    let err = Image::decode_from_png(&stream).unwrap_err();
    assert!(matches!(err, PngError::UnsupportedColorType(3)));
}

#[test]
fn rejects_sixteen_bit_depth() {
    let stream = png_with_header(0, 16);
    let err = Image::decode_from_png(&stream).unwrap_err();
    assert!(matches!(err, PngError::UnsupportedBitDepth(16)));
}

#[test]
fn read_png_rejects_like_decode() {
    let stream = png_with_header(3, 8);
    let err = Image::read_png(stream).unwrap_err();
    assert!(matches!(err, PngError::UnsupportedColorType(3)));
}

#[test]
fn rejects_garbage_stream() {
    let err = Image::decode_from_png(b"not a png stream at all").unwrap_err();
    assert!(matches!(err, PngError::Codec(_)));
}

#[test]
fn rejects_truncated_stream() {
    let source = Image { format: PixelFormat::Gray, width: 2, height: 2, data: vec![1, 2, 3, 4] };
    let mut bytes = source.write_png().expect("encoding the source image succeeds");
    bytes.truncate(20);
    let err = Image::decode_from_png(&bytes).unwrap_err();
    assert!(matches!(err, PngError::Codec(_)));
}

#[test]
fn refuses_to_encode_zero_size() {
    let img = Image::new(PixelFormat::RGB, 0, 4);
    let err = img.write_png().unwrap_err();
    assert!(matches!(err, PngError::Codec(_)));

    let alpha = Image::new(PixelFormat::Alpha, 3, 0);
    let err = alpha.write_png().unwrap_err();
    assert!(matches!(err, PngError::Codec(_)));
}
