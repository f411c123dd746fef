//! The PNG codec boundary: decoding a PNG byte stream into an `Image` and
//! encoding an `Image` back into a PNG byte stream.
//!
//! The bitstream work itself (compression, filtering, checksums) is done by
//! the `png` crate behind a few trusted wrappers; this module owns the
//! format negotiation: the mapping between wire color types and the
//! `PixelFormat` enumeration, the validation that only 8-bit streams of
//! supported color types are accepted, the defensive size cross-check, the
//! alpha-to-gray-alpha fallback, and the PNG pass-through.

use vstd::prelude::*;

use crate::image::{
    alpha_widened, bytes_per_pixel, spec_bytes_per_pixel, copy_bytes, zeroed, Image, PixelFormat,
};

verus! {

/// PNG wire color type codes, as the PNG file format declares them in IHDR.
pub const COLOR_TYPE_GRAYSCALE: u8 = 0;

pub const COLOR_TYPE_RGB: u8 = 2;

pub const COLOR_TYPE_GRAYSCALE_ALPHA: u8 = 4;

pub const COLOR_TYPE_RGBA: u8 = 6;

/// The only bit depth this codec accepts.
pub const BIT_DEPTH_EIGHT: u8 = 8;

/// What a PNG stream's header reports, before any pixel data is read: the
/// wire color type and bit depth, the pixel dimensions, and the codec's own
/// count of bytes a decoded frame needs.
#[derive(Clone, Copy, Debug)]
pub struct PngHeader {
    pub color_type: u8,
    pub bit_depth: u8,
    pub width: u32,
    pub height: u32,
    pub buffer_size: usize,
}

/// Why a decode or encode was refused.
#[derive(Debug)]
pub enum PngError {
    /// The stream's color type is outside the supported table
    /// (e.g. indexed/palette). Carries the offending wire color type.
    UnsupportedColorType(u8),
    /// The stream's bit depth is not 8. Carries the offending depth.
    UnsupportedBitDepth(u8),
    /// The codec's reported frame size disagrees with the size computed
    /// from width, height and format: an invariant violation, never
    /// silently ignored.
    SizeMismatch,
    /// The underlying PNG codec failed for structural reasons (corrupt
    /// stream, truncated data, checksum failure), or refused to encode.
    Codec(String),
}

/// What the header of a PNG byte stream parses to, or `None` when the
/// stream is refused; a function of the bytes alone.
pub uninterp spec fn png_header_of(data: Seq<u8>) -> Option<PngHeader>;

/// What a PNG byte stream's full frame decodes to, or `None` when decoding
/// fails; a function of the bytes alone.
pub uninterp spec fn png_frame_of(data: Seq<u8>) -> Option<Seq<u8>>;

/// The PNG byte stream the codec emits for the given wire color type,
/// dimensions and pixel bytes at bit depth 8; a function of the arguments
/// alone.
pub uninterp spec fn png_encode_of(color_type: u8, width: u32, height: u32, pixels: Seq<u8>) -> Seq<
    u8,
>;

/// The decode half of the supported-format table: the pixel format for a
/// wire color type, or `None` for anything else.
pub open spec fn spec_format_for_color_type(color_type: u8) -> Option<PixelFormat> {
    if color_type == COLOR_TYPE_RGBA {
        Some(PixelFormat::RGBA)
    } else if color_type == COLOR_TYPE_RGB {
        Some(PixelFormat::RGB)
    } else if color_type == COLOR_TYPE_GRAYSCALE_ALPHA {
        Some(PixelFormat::GrayAlpha)
    } else if color_type == COLOR_TYPE_GRAYSCALE {
        Some(PixelFormat::Gray)
    } else {
        None
    }
}

/// The encode half of the table: the wire color type for a raw pixel
/// format. `Alpha` has no wire color type (the encoder widens it first) and
/// `PNG` is not raw pixels at all, so both map to `None`.
pub open spec fn spec_color_type_for_format(format: PixelFormat) -> Option<u8> {
    match format {
        PixelFormat::RGBA => Some(COLOR_TYPE_RGBA),
        PixelFormat::RGB => Some(COLOR_TYPE_RGB),
        PixelFormat::GrayAlpha => Some(COLOR_TYPE_GRAYSCALE_ALPHA),
        PixelFormat::Gray => Some(COLOR_TYPE_GRAYSCALE),
        PixelFormat::Alpha => None,
        PixelFormat::PNG => None,
    }
}

/// The pixel format for a wire color type, or `None` for anything else.
pub fn format_for_color_type(color_type: u8) -> (r: Option<PixelFormat>)
    ensures
        r == spec_format_for_color_type(color_type),
{
    if color_type == COLOR_TYPE_RGBA {
        Some(PixelFormat::RGBA)
    } else if color_type == COLOR_TYPE_RGB {
        Some(PixelFormat::RGB)
    } else if color_type == COLOR_TYPE_GRAYSCALE_ALPHA {
        Some(PixelFormat::GrayAlpha)
    } else if color_type == COLOR_TYPE_GRAYSCALE {
        Some(PixelFormat::Gray)
    } else {
        None
    }
}

/// The wire color type for a raw pixel format, or `None` for `Alpha` and
/// `PNG`.
pub fn color_type_for_format(format: PixelFormat) -> (r: Option<u8>)
    ensures
        r == spec_color_type_for_format(format),
{
    match format {
        PixelFormat::RGBA => Some(COLOR_TYPE_RGBA),
        PixelFormat::RGB => Some(COLOR_TYPE_RGB),
        PixelFormat::GrayAlpha => Some(COLOR_TYPE_GRAYSCALE_ALPHA),
        PixelFormat::Gray => Some(COLOR_TYPE_GRAYSCALE),
        PixelFormat::Alpha => None,
        PixelFormat::PNG => None,
    }
}

/// Relies on `png::Decoder::read_info` of the `png` crate, with identity
/// transformations so the reported metadata is the stream's own: whether it
/// succeeds and what it reports are functions of the input bytes alone.
#[verifier::external_body]
fn png_read_header(data: &[u8]) -> (r: Result<PngHeader, String>)
    ensures
        match r {
            Ok(h) => png_header_of(data@) == Some(h),
            Err(_) => png_header_of(data@) is None,
        },
{
    let mut decoder = png::Decoder::new(data);
    decoder.set_transformations(png::Transformations::IDENTITY);
    match decoder.read_info() {
        Ok((info, _)) => Ok(PngHeader {
            color_type: info.color_type as u8,
            bit_depth: info.bit_depth as u8,
            width: info.width,
            height: info.height,
            buffer_size: info.buffer_size(),
        }),
        Err(err) => Err(format!("{}", err)),
    }
}

/// Relies on `png::Reader::next_frame` of the `png` crate, with identity
/// transformations: given a zero-filled buffer of exactly the header's
/// reported size for a stream of bit depth 8, whether it succeeds and the
/// frame it leaves in the buffer are functions of the input bytes alone,
/// and it never grows or shrinks the buffer. (The zero fill matters: the
/// decoder leaves bytes outside the written region untouched — an animation
/// control chunk can shrink the first frame below the full canvas — and at
/// sub-byte depths its interlaced path ORs pixel bits into the buffer's
/// prior contents, so nothing is claimed of other starting buffers.)
#[verifier::external_body]
fn png_read_frame(data: &[u8], buf: &mut Vec<u8>) -> (r: Result<(), String>)
    requires
        png_header_of(data@) matches Some(h) && h.bit_depth == BIT_DEPTH_EIGHT && old(buf)@
            == Seq::new(h.buffer_size as nat, |i: int| 0u8),
    ensures
        final(buf)@.len() == old(buf)@.len(),
        match r {
            Ok(_) => png_frame_of(data@) == Some(final(buf)@),
            Err(_) => png_frame_of(data@) is None,
        },
{
    let mut decoder = png::Decoder::new(data);
    decoder.set_transformations(png::Transformations::IDENTITY);
    let result = decoder.read_info().and_then(|(_, mut reader)| {
        reader.next_frame(buf.as_mut_slice())
    });
    match result {
        Ok(()) => Ok(()),
        Err(err) => Err(format!("{}", err)),
    }
}

/// Relies on `png::Encoder` and `png::Writer::write_image_data` of the
/// `png` crate, writing to an in-memory buffer: with a supported color type
/// at bit depth 8 and a pixel buffer of exactly the matching size, encoding
/// fails only for zero width or height, and the emitted stream is a
/// function of the arguments alone.
#[verifier::external_body]
fn png_encode(color_type: u8, width: u32, height: u32, pixels: &[u8]) -> (r: Result<
    Vec<u8>,
    String,
>)
    requires
        spec_format_for_color_type(color_type) is Some,
        pixels@.len() == width * height * spec_bytes_per_pixel(
            spec_format_for_color_type(color_type)->0,
        ),
    ensures
        match r {
            Ok(v) => 1 <= width && 1 <= height && v@ == png_encode_of(
                color_type,
                width,
                height,
                pixels@,
            ),
            Err(_) => width == 0 || height == 0,
        },
{
    let mut out: Vec<u8> = Vec::new();
    let mut encoder = png::Encoder::new(&mut out, width, height);
    match png::ColorType::from_u8(color_type) {
        Some(color) => encoder.set_color(color),
        None => return Err(format!("no PNG color type with code {}", color_type)),
    }
    encoder.set_depth(png::BitDepth::Eight);
    let result = encoder.write_header().and_then(|mut writer| writer.write_image_data(pixels));
    match result {
        Ok(()) => Ok(out),
        Err(err) => Err(format!("{}", err)),
    }
}

/// What `decode_from_png` returns for a given input, over the stream's
/// parsed header and decoded frame: each error if and only if its trigger,
/// in the order checked, and otherwise exactly the decoded image.
pub open spec fn decode_post(data: Seq<u8>, r: Result<Image, PngError>) -> bool {
    match png_header_of(data) {
        None => r matches Err(PngError::Codec(_)),
        Some(h) => match spec_format_for_color_type(h.color_type) {
            None => r == Err::<Image, PngError>(PngError::UnsupportedColorType(h.color_type)),
            Some(format) => if h.bit_depth != BIT_DEPTH_EIGHT {
                r == Err::<Image, PngError>(PngError::UnsupportedBitDepth(h.bit_depth))
            } else if h.buffer_size as int != h.width as int * h.height as int
                * spec_bytes_per_pixel(format) as int {
                r == Err::<Image, PngError>(PngError::SizeMismatch)
            } else {
                match png_frame_of(data) {
                    None => r matches Err(PngError::Codec(_)),
                    Some(pixels) => {
                        &&& r matches Ok(img)
                        &&& img.format == format
                        &&& img.width == h.width
                        &&& img.height == h.height
                        &&& img.data@ == pixels
                        &&& img.wf()
                    },
                }
            },
        },
    }
}

/// What `read_png` returns for a given input: it is refused exactly when
/// `decode_from_png` refuses it, with the same error, and otherwise the
/// result keeps the entire original byte stream under format `PNG`, with
/// the decoded dimensions.
pub open spec fn read_post(data: Seq<u8>, r: Result<Image, PngError>) -> bool {
    match png_header_of(data) {
        None => r matches Err(PngError::Codec(_)),
        Some(h) => match spec_format_for_color_type(h.color_type) {
            None => r == Err::<Image, PngError>(PngError::UnsupportedColorType(h.color_type)),
            Some(format) => if h.bit_depth != BIT_DEPTH_EIGHT {
                r == Err::<Image, PngError>(PngError::UnsupportedBitDepth(h.bit_depth))
            } else if h.buffer_size as int != h.width as int * h.height as int
                * spec_bytes_per_pixel(format) as int {
                r == Err::<Image, PngError>(PngError::SizeMismatch)
            } else {
                match png_frame_of(data) {
                    None => r matches Err(PngError::Codec(_)),
                    Some(pixels) => {
                        &&& r matches Ok(img)
                        &&& img.format == PixelFormat::PNG
                        &&& img.width == h.width
                        &&& img.height == h.height
                        &&& img.data@ == data
                    },
                }
            },
        },
    }
}

/// What `write_png` emits for a given image: the stored stream verbatim for
/// `PNG`, the encoder's gray-alpha stream for the widened buffer for
/// `Alpha`, and the encoder's stream for the format's own wire color type
/// for the other formats; encoding is refused exactly for zero width or
/// height.
pub open spec fn write_post(img: Image, r: Result<Seq<u8>, PngError>) -> bool {
    match img.format {
        PixelFormat::PNG => r == Ok::<Seq<u8>, PngError>(img.data@),
        PixelFormat::Alpha => if img.width == 0 || img.height == 0 {
            r matches Err(PngError::Codec(_))
        } else {
            r == Ok::<Seq<u8>, PngError>(
                png_encode_of(
                    COLOR_TYPE_GRAYSCALE_ALPHA,
                    img.width,
                    img.height,
                    alpha_widened(img.data@),
                ),
            )
        },
        _ => if img.width == 0 || img.height == 0 {
            r matches Err(PngError::Codec(_))
        } else {
            r == Ok::<Seq<u8>, PngError>(
                png_encode_of(
                    spec_color_type_for_format(img.format)->0,
                    img.width,
                    img.height,
                    img.data@,
                ),
            )
        },
    }
}

/// The view of an encode result, for stating `write_post` of an executable
/// result.
pub open spec fn bytes_result_view(r: Result<Vec<u8>, PngError>) -> Result<Seq<u8>, PngError> {
    match r {
        Ok(v) => Ok(v@),
        Err(e) => Err(e),
    }
}

/// How many more times `write_png` can recurse from a given format: once
/// for `Alpha` (which widens and re-dispatches), never otherwise.
pub open spec fn spec_encode_rank(format: PixelFormat) -> nat {
    if format == PixelFormat::Alpha {
        1
    } else {
        0
    }
}

/// The supported-format table is one-to-one: every supported wire color
/// type maps to a pixel format that maps back to the same color type.
pub proof fn lemma_color_type_format_round_trip(color_type: u8)
    requires
        spec_format_for_color_type(color_type) is Some,
    ensures
        spec_color_type_for_format(spec_format_for_color_type(color_type)->0) == Some(color_type),
{
}

/// ... and in the other direction: every raw format with a wire color type
/// maps back to itself, so an encoded raw-format image reports the color
/// type that decodes to the same format.
pub proof fn lemma_format_color_type_round_trip(format: PixelFormat)
    requires
        spec_color_type_for_format(format) is Some,
    ensures
        spec_format_for_color_type(spec_color_type_for_format(format)->0) == Some(format),
{
}

/// Pass-through idempotence: any byte stream the pass-through entry point
/// accepts is re-emitted byte for byte by the encoder.
pub proof fn lemma_pass_through_round_trip(
    input: Seq<u8>,
    img: Image,
    out: Result<Seq<u8>, PngError>,
)
    requires
        read_post(input, Ok(img)),
        write_post(img, out),
    ensures
        out == Ok::<Seq<u8>, PngError>(input),
{
}

/// Alpha fallback: encoding an alpha-only image of nonzero size emits
/// exactly the encoder's gray-alpha stream for the widened buffer, whose
/// byte count is the gray-alpha size for the same dimensions.
pub proof fn lemma_alpha_fallback(img: Image, out: Result<Seq<u8>, PngError>)
    requires
        img.wf(),
        img.format == PixelFormat::Alpha,
        1 <= img.width,
        1 <= img.height,
        write_post(img, out),
    ensures
        out == Ok::<Seq<u8>, PngError>(
            png_encode_of(
                COLOR_TYPE_GRAYSCALE_ALPHA,
                img.width,
                img.height,
                alpha_widened(img.data@),
            ),
        ),
        alpha_widened(img.data@).len() == img.width as int * img.height as int
            * spec_bytes_per_pixel(PixelFormat::GrayAlpha) as int,
{
}

/// Raw-format encoding: for a well-formed image of nonzero size whose
/// format has a wire color type, the emitted stream is exactly the
/// encoder's output for that color type and the image's own pixel bytes.
pub proof fn lemma_raw_format_encode(img: Image, out: Result<Seq<u8>, PngError>)
    requires
        img.wf(),
        spec_color_type_for_format(img.format) is Some,
        1 <= img.width,
        1 <= img.height,
        write_post(img, out),
    ensures
        out == Ok::<Seq<u8>, PngError>(
            png_encode_of(
                spec_color_type_for_format(img.format)->0,
                img.width,
                img.height,
                img.data@,
            ),
        ),
{
}

/// Rejection of unsupported inputs: a stream whose header reports a color
/// type outside the table is refused with `UnsupportedColorType`, and one
/// with a supported color type at a depth other than 8 is refused with
/// `UnsupportedBitDepth`.
pub proof fn lemma_rejects_unsupported(data: Seq<u8>, r: Result<Image, PngError>, h: PngHeader)
    requires
        decode_post(data, r),
        png_header_of(data) == Some(h),
    ensures
        spec_format_for_color_type(h.color_type) is None ==> r == Err::<Image, PngError>(
            PngError::UnsupportedColorType(h.color_type),
        ),
        spec_format_for_color_type(h.color_type) is Some && h.bit_depth != BIT_DEPTH_EIGHT ==> r
            == Err::<Image, PngError>(PngError::UnsupportedBitDepth(h.bit_depth)),
{
}

impl Image {
    /// Decodes a PNG byte stream into a raw pixel buffer. The stream's
    /// color type must be in the supported table and its bit depth exactly
    /// 8; both are checked, and the codec's reported frame size is
    /// cross-checked against the size computed from the dimensions and
    /// format, all before any buffer is allocated.
    pub fn decode_from_png(data: &[u8]) -> (r: Result<Image, PngError>)
        ensures
            decode_post(data@, r),
    {
        let header = match png_read_header(data) {
            Ok(h) => h,
            Err(msg) => {
                return Err(PngError::Codec(msg));
            },
        };
        let format = match format_for_color_type(header.color_type) {
            Some(f) => f,
            None => {
                return Err(PngError::UnsupportedColorType(header.color_type));
            },
        };
        if header.bit_depth != BIT_DEPTH_EIGHT {
            return Err(PngError::UnsupportedBitDepth(header.bit_depth));
        }
        let bpp = bytes_per_pixel(format);
        proof {
            let w = header.width as int;
            let h = header.height as int;
            let b = spec_bytes_per_pixel(format) as int;
            assert(w * h <= w * h * b && w * h * b == (w * h) * b) by (nonlinear_arith)
                requires
                    0 <= w,
                    0 <= h,
                    1 <= b,
            ;
        }
        let expected = match (header.width as usize).checked_mul(header.height as usize) {
            Some(pixels) => match pixels.checked_mul(bpp) {
                Some(e) => e,
                None => {
                    return Err(PngError::SizeMismatch);
                },
            },
            None => {
                return Err(PngError::SizeMismatch);
            },
        };
        if header.buffer_size != expected {
            return Err(PngError::SizeMismatch);
        }
        let mut buf = zeroed(header.buffer_size);
        match png_read_frame(data, &mut buf) {
            Ok(_) => Ok(
                Image { format, width: header.width, height: header.height, data: buf },
            ),
            Err(msg) => Err(PngError::Codec(msg)),
        }
    }

    /// The pass-through entry point: decodes the stream only to validate it
    /// and learn its dimensions, then keeps the entire original compressed
    /// byte stream as the image's data, under format `PNG`, so it can later
    /// be re-emitted byte for byte.
    pub fn read_png(data: Vec<u8>) -> (r: Result<Image, PngError>)
        ensures
            read_post(data@, r),
    {
        match Image::decode_from_png(data.as_slice()) {
            Ok(decoded) => Ok(
                Image {
                    format: PixelFormat::PNG,
                    width: decoded.width,
                    height: decoded.height,
                    data,
                },
            ),
            Err(e) => Err(e),
        }
    }

    /// Encodes the image as a PNG byte stream. Raw formats are written with
    /// their own wire color type at bit depth 8; an `Alpha` buffer has no
    /// wire color type, so it is widened to gray-alpha and encoded by the
    /// same dispatch; a `PNG` buffer is emitted verbatim.
    pub fn write_png(&self) -> (r: Result<Vec<u8>, PngError>)
        requires
            self.wf(),
        ensures
            write_post(*self, bytes_result_view(r)),
        decreases spec_encode_rank(self.format),
    {
        match self.format {
            PixelFormat::PNG => Ok(copy_bytes(&self.data)),
            PixelFormat::Alpha => self.convert_to(PixelFormat::GrayAlpha).write_png(),
            PixelFormat::RGBA => self.encode_raw(COLOR_TYPE_RGBA),
            PixelFormat::RGB => self.encode_raw(COLOR_TYPE_RGB),
            PixelFormat::GrayAlpha => self.encode_raw(COLOR_TYPE_GRAYSCALE_ALPHA),
            PixelFormat::Gray => self.encode_raw(COLOR_TYPE_GRAYSCALE),
        }
    }

    /// Writes a raw-format buffer through the codec under the given wire
    /// color type.
    fn encode_raw(&self, color_type: u8) -> (r: Result<Vec<u8>, PngError>)
        requires
            self.wf(),
            spec_color_type_for_format(self.format) == Some(color_type),
        ensures
            write_post(*self, bytes_result_view(r)),
    {
        match png_encode(color_type, self.width, self.height, self.data.as_slice()) {
            Ok(bytes) => Ok(bytes),
            Err(msg) => Err(PngError::Codec(msg)),
        }
    }
}

} // verus!
