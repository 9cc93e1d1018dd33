//! Screenshots: the raw packed framebuffer captured from the device, and its
//! decoding into 8-bit-per-channel pixels.
use vstd::prelude::*;

use vstd::slice::slice_to_vec;

use crate::error::{Error, Result};

verus! {

#[verifier::external_type_specification]
#[verifier::external_body]
pub struct ExDynamicImage(image::DynamicImage);

/// Largest value of the red channel of a 16-bit pixel.
pub const MAX_R: u8 = 31;
/// Largest value of the green channel of a 16-bit pixel.
pub const MAX_G: u8 = 63;
/// Largest value of the blue channel of a 16-bit pixel.
pub const MAX_B: u8 = 31;

/// An image from a screenshot.
pub struct Image {
    pub width: u16,
    pub height: u16,
    /// The number of bits per pixel. Either 8 for non-color calculators or 16
    /// for color calculators.
    pub bpp: u8,
    pub data: Vec<u8>,
}

/// How the bytes of a decoded frame are laid out.
#[derive(Debug, Clone, Copy, PartialEq, Eq, Structural)]
pub enum PixelLayout {
    /// One luminance byte per pixel.
    Luma8,
    /// Three bytes per pixel: red, green, blue.
    Rgb8,
}

/// A decoded screenshot, 8 bits per channel.
pub struct Frame {
    pub width: u32,
    pub height: u32,
    pub layout: PixelLayout,
    pub data: Vec<u8>,
}

/// Rounded linear rescaling of a channel value from `0..=from_max` to `0..=255`.
pub open spec fn scale_channel(value: int, from_max: int) -> int {
    (value * 255 + from_max / 2) / from_max
}

/// The 16-bit word of pixel `p`: two bytes, low byte first.
pub open spec fn pixel_word(data: Seq<u8>, p: int) -> int {
    data[2 * p] as int + 256 * data[2 * p + 1] as int
}

/// Output byte `k` of the colour decoding: channel `k % 3` (red, green, blue)
/// of pixel `k / 3`, red in the 5 low bits, green in the 6 middle bits, blue
/// in the 5 high bits.
pub open spec fn rgb_byte(data: Seq<u8>, k: int) -> u8 {
    let w = pixel_word(data, k / 3);
    if k % 3 == 0 {
        scale_channel(w % 32, MAX_R as int) as u8
    } else if k % 3 == 1 {
        scale_channel((w / 32) % 64, MAX_G as int) as u8
    } else {
        scale_channel(w / 2048, MAX_B as int) as u8
    }
}

/// The interleaved red-green-blue bytes of a 16-bit packed buffer.
pub open spec fn decode_rgb565(data: Seq<u8>) -> Seq<u8> {
    Seq::new(3 * (data.len() / 2), |k: int| rgb_byte(data, k))
}

/// Convert color channel values from one bit depth to another.
pub fn convert_channel(value: u8, from_max: u8) -> (r: u8)
    requires
        0 < from_max,
        value <= from_max,
    ensures
        r as int == scale_channel(value as int, from_max as int),
        r <= 255,
{
    assert(value as int * 255 + from_max as int / 2 <= 255 * from_max as int + from_max as int
        / 2) by (nonlinear_arith)
        requires
            value <= from_max,
    ;
    assert(scale_channel(value as int, from_max as int) <= 255) by (nonlinear_arith)
        requires
            value <= from_max,
            0 < from_max,
    ;
    ((value as u16 * 255u16 + from_max as u16 / 2) / from_max as u16) as u8
}

/// The number of bytes of a raw buffer of `width * height` pixels at `bpp`
/// bits each.
pub open spec fn raw_len(width: u16, height: u16, bpp: u8) -> int {
    width as int * height as int * bpp as int / 8
}

/// A name for the width of an `image::DynamicImage`.
pub uninterp spec fn image_width(img: image::DynamicImage) -> u32;

/// A name for the height of an `image::DynamicImage`.
pub uninterp spec fn image_height(img: image::DynamicImage) -> u32;

/// A name for the subpixel bytes that an `image::DynamicImage` holds.
pub uninterp spec fn image_bytes(img: image::DynamicImage) -> Seq<u8>;

/// Relies on image::ImageBuffer::from_vec (as a one-channel `Luma<u8>` buffer):
/// it gives an image exactly when `width * height` fits in `usize` and the
/// buffer holds that many bytes or more, and the image keeps the width, the
/// height and the buffer as they were given.
#[verifier::external_body]
fn luma8_image(width: u32, height: u32, data: Vec<u8>) -> (r: Option<image::DynamicImage>)
    ensures
        r is Some <==> (width as int * height as int <= usize::MAX && width as int
            * height as int <= data@.len()),
        r matches Some(img) ==> (image_width(img) == width && image_height(img) == height
            && image_bytes(img) == data@),
{
    image::ImageBuffer::<image::Luma<u8>, Vec<u8>>::from_vec(width, height, data).map(
        image::DynamicImage::ImageLuma8,
    )
}

/// Relies on image::ImageBuffer::from_vec (as a three-channel `Rgb<u8>` buffer):
/// it computes `3 * width`, then that times `height`, each without overflowing
/// `usize`, and gives an image exactly when both fit and the buffer holds that
/// many bytes or more; the image keeps the width, the height and the buffer
/// as they were given.
#[verifier::external_body]
fn rgb8_image(width: u32, height: u32, data: Vec<u8>) -> (r: Option<image::DynamicImage>)
    ensures
        r is Some <==> (3 * width as int <= usize::MAX && (3 * width as int) * height as int
            <= usize::MAX && (3 * width as int) * height as int <= data@.len()),
        r matches Some(img) ==> (image_width(img) == width && image_height(img) == height
            && image_bytes(img) == data@),
{
    image::ImageBuffer::<image::Rgb<u8>, Vec<u8>>::from_vec(width, height, data).map(
        image::DynamicImage::ImageRgb8,
    )
}

impl Image {
    /// The size in bytes of the raw buffer of a capture.
    pub fn raw_len(width: u16, height: u16, bpp: u8) -> (r: u64)
        ensures
            r as int == raw_len(width, height, bpp),
    {
        assert(width as int * height as int <= 65535 * 65535) by (nonlinear_arith)
            requires
                width <= 65535,
                height <= 65535,
        ;
        assert(width as int * height as int * bpp as int <= 65535 * 65535 * 255) by (
        nonlinear_arith)
            requires
                width as int * height as int <= 65535 * 65535,
                bpp <= 255,
        ;
        (width as u64 * height as u64 * bpp as u64) / 8
    }

    /// Copies a captured raw buffer out into an image.
    pub fn from_capture(width: u16, height: u16, bpp: u8, pixels: &[u8]) -> (r: Image)
        requires
            pixels@.len() == raw_len(width, height, bpp),
        ensures
            r.width == width,
            r.height == height,
            r.bpp == bpp,
            r.data@ == pixels@,
            r.well_sized(),
    {
        Image { width, height, bpp, data: slice_to_vec(pixels) }
    }

    /// The buffer holds exactly the bytes that the size and depth call for.
    pub open spec fn well_sized(&self) -> bool {
        self.data@.len() == raw_len(self.width, self.height, self.bpp)
    }

    /// Decodes the raw buffer: at 8 bits per pixel the bytes are luminance and
    /// are kept as they are; at 16 bits each little-endian word packs red,
    /// green and blue, rescaled to 8 bits with rounding.
    pub fn decode(&self) -> (r: Result<Frame>)
        requires
            (self.bpp == 8 || self.bpp == 16) ==> self.well_sized(),
        ensures
            self.bpp == 8 ==> (r matches Ok(f) && f.width == self.width && f.height
                == self.height && f.layout == PixelLayout::Luma8 && f.data@ == self.data@),
            self.bpp == 16 ==> (r matches Ok(f) && f.width == self.width && f.height
                == self.height && f.layout == PixelLayout::Rgb8 && f.data@ == decode_rgb565(
                self.data@)),
            (self.bpp != 8 && self.bpp != 16) ==> r == Err::<Frame, Error>(
                Error::UnknownBpp(self.bpp)),
    {
        if self.bpp == 8 {
            Ok(
                Frame {
                    width: self.width as u32,
                    height: self.height as u32,
                    layout: PixelLayout::Luma8,
                    data: slice_to_vec(self.data.as_slice()),
                },
            )
        } else if self.bpp == 16 {
            Ok(
                Frame {
                    width: self.width as u32,
                    height: self.height as u32,
                    layout: PixelLayout::Rgb8,
                    data: rgb565_to_rgb8(&self.data),
                },
            )
        } else {
            Err(Error::UnknownBpp(self.bpp))
        }
    }

    /// Converts the screenshot into an `image::DynamicImage`: grey at 8 bits
    /// per pixel, red-green-blue at 16.
    pub fn to_dynamic_image(self) -> (r: Result<image::DynamicImage>)
        requires
            (self.bpp == 8 || self.bpp == 16) ==> self.well_sized(),
        ensures
            r is Ok <==> (self.bpp == 8 || self.bpp == 16),
            r matches Ok(img) ==> (image_width(img) == self.width as u32 && image_height(img)
                == self.height as u32),
            self.bpp == 8 ==> (r matches Ok(img) && image_bytes(img) == self.data@),
            self.bpp == 16 ==> (r matches Ok(img) && image_bytes(img) == decode_rgb565(
                self.data@)),
            (self.bpp != 8 && self.bpp != 16) ==> r == Err::<image::DynamicImage, Error>(
                Error::UnknownBpp(self.bpp)),
    {
        let frame = self.decode();
        match frame {
            Ok(f) => {
                assert(f.width as int * f.height as int <= 65535 * 65535) by (nonlinear_arith)
                    requires
                        f.width <= 65535,
                        f.height <= 65535,
                ;
                match f.layout {
                    PixelLayout::Luma8 => Ok(luma8_image(f.width, f.height, f.data).unwrap()),
                    PixelLayout::Rgb8 => {
                        assert(self.data@.len() == 2 * (f.width as int * f.height as int)) by (
                        nonlinear_arith)
                            requires
                                self.data@.len() == f.width as int * f.height as int * 16 / 8,
                        ;
                        let len: usize = f.data.len();
                        assert(f.data@.len() == 3 * (self.data@.len() / 2));
                        assert(f.data@.len() == len);
                        assert(f.data@.len() == 3 * (f.width as int * f.height as int));
                        assert((3 * f.width as int) * f.height as int == 3 * (f.width as int
                            * f.height as int)) by (nonlinear_arith);
                        Ok(rgb8_image(f.width, f.height, f.data).unwrap())
                    },
                }
            },
            Err(e) => Err(e),
        }
    }
}

/// Decodes a buffer of little-endian 16-bit words, each packing 5 bits of
/// red (low), 6 of green and 5 of blue (high), into red-green-blue bytes.
pub fn rgb565_to_rgb8(data: &Vec<u8>) -> (r: Vec<u8>)
    ensures
        r@ == decode_rgb565(data@),
{
    let len: usize = data.len();
    let n: usize = len / 2;
    let mut out: Vec<u8> = Vec::new();
    let mut p: usize = 0;
    while p < n
        invariant
            len == data@.len(),
            n == len / 2,
            p <= n,
            out@.len() == 3 * p,
            forall|k: int| 0 <= k < 3 * p ==> out@[k] == rgb_byte(data@, k),
        decreases n - p,
    {
        assert(2 * p + 1 < data@.len());
        let lo: u16 = data[2 * p] as u16;
        let hi: u16 = data[2 * p + 1] as u16;
        let color: u16 = lo | (hi << 8);
        assert(color == lo + 256 * hi) by (bit_vector)
            requires
                lo < 256,
                hi < 256,
                color == lo | (hi << 8),
        ;
        let red: u16 = color & 0x1f;
        let green: u16 = (color >> 5) & 0x3f;
        let blue: u16 = (color >> 11) & 0x1f;
        assert(red == color % 32 && green == (color / 32) % 64 && blue == color / 2048) by (
        bit_vector)
            requires
                red == color & 0x1f,
                green == (color >> 5) & 0x3f,
                blue == (color >> 11) & 0x1f,
        ;
        let r = convert_channel(red as u8, MAX_R);
        let g = convert_channel(green as u8, MAX_G);
        let b = convert_channel(blue as u8, MAX_B);
        assert(pixel_word(data@, p as int) == color as int);
        out.push(r);
        out.push(g);
        out.push(b);
        assert forall|k: int| 0 <= k < 3 * (p + 1) implies out@[k] == rgb_byte(data@, k) by {
            if k >= 3 * p {
                assert(k / 3 == p);
            }
        }
        p = p + 1;
    }
    assert(out@ =~= decode_rgb565(data@));
    out
}

/// A channel at its native maximum becomes 255 and a zero channel stays zero.
pub proof fn lemma_scale_endpoints(from_max: int)
    requires
        0 < from_max,
    ensures
        scale_channel(0, from_max) == 0,
        scale_channel(from_max, from_max) == 255,
{
    assert(scale_channel(0, from_max) == 0) by (nonlinear_arith)
        requires
            0 < from_max,
    ;
    assert(scale_channel(from_max, from_max) == 255) by (nonlinear_arith)
        requires
            0 < from_max,
    ;
}

/// A 16-bit buffer whose bits are all clear decodes to black, and one whose
/// bits are all set decodes to white.
pub proof fn lemma_rgb565_black_and_white(data: Seq<u8>)
    ensures
        (forall|i: int| 0 <= i < data.len() ==> data[i] == 0) ==> (forall|k: int|
            0 <= k < decode_rgb565(data).len() ==> decode_rgb565(data)[k] == 0),
        (forall|i: int| 0 <= i < data.len() ==> data[i] == 255) ==> (forall|k: int|
            0 <= k < decode_rgb565(data).len() ==> decode_rgb565(data)[k] == 255),
{
    lemma_scale_endpoints(MAX_R as int);
    lemma_scale_endpoints(MAX_G as int);
    assert forall|k: int| 0 <= k < decode_rgb565(data).len() implies {
        &&& (forall|i: int| 0 <= i < data.len() ==> data[i] == 0) ==> decode_rgb565(data)[k] == 0
        &&& (forall|i: int| 0 <= i < data.len() ==> data[i] == 255) ==> decode_rgb565(data)[k]
            == 255
    } by {
        let p = k / 3;
        assert(0 <= 2 * p && 2 * p + 1 < data.len());
        if forall|i: int| 0 <= i < data.len() ==> data[i] == 255 {
            assert(pixel_word(data, p) == 65535);
        }
    }
}

} // verus!
