//! The pixel buffer: a byte buffer tagged with a pixel format and dimensions.

use vstd::prelude::*;

verus! {

/// How the bytes of an `Image` are to be read: one of the raw interleaved
/// 8-bit-per-channel layouts, or `PNG`, meaning the buffer holds an
/// undecoded PNG byte stream rather than raw pixels.
#[derive(Clone, Copy, Debug, PartialEq, Eq, Structural)]
pub enum PixelFormat {
    RGBA,
    RGB,
    GrayAlpha,
    Gray,
    Alpha,
    PNG,
}

/// Bytes per pixel of each raw format. `PNG` holds no raw pixels, so it has
/// no per-pixel width; it is given 0 here and excluded everywhere the size
/// arithmetic matters.
pub open spec fn spec_bytes_per_pixel(format: PixelFormat) -> nat {
    match format {
        PixelFormat::RGBA => 4,
        PixelFormat::RGB => 3,
        PixelFormat::GrayAlpha => 2,
        PixelFormat::Gray => 1,
        PixelFormat::Alpha => 1,
        PixelFormat::PNG => 0,
    }
}

/// Bytes per pixel of each raw format; 0 for `PNG`.
pub fn bytes_per_pixel(format: PixelFormat) -> (r: usize)
    ensures
        r == spec_bytes_per_pixel(format),
{
    match format {
        PixelFormat::RGBA => 4,
        PixelFormat::RGB => 3,
        PixelFormat::GrayAlpha => 2,
        PixelFormat::Gray => 1,
        PixelFormat::Alpha => 1,
        PixelFormat::PNG => 0,
    }
}

/// The widening of an alpha-only buffer to gray-alpha: each alpha byte is
/// duplicated into a synthetic luminance sample followed by the alpha sample.
pub open spec fn alpha_widened(alpha: Seq<u8>) -> Seq<u8> {
    Seq::new(alpha.len() * 2, |i: int| alpha[i / 2])
}

/// An in-memory image: a byte buffer tagged with a pixel format and pixel
/// dimensions. When `format` is `PNG` the buffer holds an encoded PNG byte
/// stream and the dimensions are not authoritative over its content.
#[derive(Debug)]
pub struct Image {
    pub format: PixelFormat,
    pub width: u32,
    pub height: u32,
    pub data: Vec<u8>,
}

impl Image {
    /// The size invariant: a raw-format buffer holds exactly
    /// `width * height * bytes_per_pixel(format)` bytes.
    pub open spec fn wf(self) -> bool {
        self.format != PixelFormat::PNG ==> self.data@.len() == self.width as int
            * self.height as int * spec_bytes_per_pixel(self.format) as int
    }

    /// Allocates a zero-filled buffer of exactly
    /// `width * height * bytes_per_pixel(format)` bytes. Overflow of that
    /// product is a caller contract violation, so it is required away here;
    /// decoded dimensions must be cross-checked before allocation.
    pub fn new(format: PixelFormat, width: u32, height: u32) -> (r: Image)
        requires
            format != PixelFormat::PNG,
            width * height * spec_bytes_per_pixel(format) <= usize::MAX,
        ensures
            r.format == format,
            r.width == width,
            r.height == height,
            r.data@ == Seq::new((width * height * spec_bytes_per_pixel(format)) as nat, |i: int| 0u8),
            r.wf(),
    {
        let bpp = bytes_per_pixel(format);
        proof {
            let w = width as int;
            let h = height as int;
            let b = spec_bytes_per_pixel(format) as int;
            assert(w * h <= w * h * b && w * h * b == (w * h) * b) by (nonlinear_arith)
                requires
                    0 <= w,
                    0 <= h,
                    1 <= b,
            ;
        }
        let pixels = (width as usize) * (height as usize);
        let len = pixels * bpp;
        Image { format, width, height, data: zeroed(len) }
    }
}

/// A zero-filled byte buffer of the given length.
pub(crate) fn zeroed(len: usize) -> (v: Vec<u8>)
    ensures
        v@ == Seq::new(len as nat, |i: int| 0u8),
{
    let mut v: Vec<u8> = Vec::new();
    let mut i: usize = 0;
    while i < len
        invariant
            i <= len,
            v@.len() == i,
            forall|j: int| 0 <= j < i ==> v@[j] == 0u8,
        decreases len - i,
    {
        v.push(0);
        i += 1;
    }
    proof {
        assert(v@ =~= Seq::new(len as nat, |i: int| 0u8));
    }
    v
}

/// A copy of a byte buffer.
pub(crate) fn copy_bytes(v: &Vec<u8>) -> (r: Vec<u8>)
    ensures
        r@ == v@,
{
    let mut out: Vec<u8> = Vec::new();
    let mut i: usize = 0;
    while i < v.len()
        invariant
            i <= v@.len(),
            out@.len() == i,
            forall|j: int| 0 <= j < i ==> out@[j] == v@[j],
        decreases v@.len() - i,
    {
        out.push(v[i]);
        i += 1;
    }
    proof {
        assert(out@ =~= v@);
    }
    out
}

impl Image {
    /// The one conversion the codec needs: widening an alpha-only buffer to
    /// gray-alpha by duplicating each alpha byte into a synthetic luminance
    /// sample. No other conversion is in this library's scope.
    pub fn convert_to(&self, format: PixelFormat) -> (r: Image)
        requires
            self.wf(),
            self.format == PixelFormat::Alpha,
            format == PixelFormat::GrayAlpha,
        ensures
            r.format == PixelFormat::GrayAlpha,
            r.width == self.width,
            r.height == self.height,
            r.data@ == alpha_widened(self.data@),
            r.wf(),
    {
        let mut out: Vec<u8> = Vec::new();
        let mut i: usize = 0;
        while i < self.data.len()
            invariant
                i <= self.data@.len(),
                out@.len() == 2 * i,
                forall|j: int| 0 <= j < out@.len() ==> out@[j] == self.data@[j / 2],
            decreases self.data@.len() - i,
        {
            let a = self.data[i];
            out.push(a);
            out.push(a);
            i += 1;
        }
        proof {
            assert(out@ =~= alpha_widened(self.data@));
        }
        Image { format: PixelFormat::GrayAlpha, width: self.width, height: self.height, data: out }
    }
}

} // verus!
