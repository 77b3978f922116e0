//! Rasters: interleaved RGB pages and single-channel luma bitmaps.
//!
//! Both kinds keep their pixels in one byte buffer, row by row from the top,
//! without padding between rows.

use vstd::prelude::*;

verus! {

/// What a raster is: its size in pixels and its bytes.
pub struct RasterView {
    pub width: u32,
    pub height: u32,
    pub bytes: Seq<u8>,
}

/// Number of bytes that the pixels of an interleaved RGB raster take.
pub open spec fn rgb_len(width: u32, height: u32) -> int {
    3 * width * height
}

/// Number of bytes that the pixels of a single-channel raster take.
pub open spec fn gray_len(width: u32, height: u32) -> int {
    width * height
}

/// Whether a buffer of `len` bytes can back an RGB raster of the given size:
/// the length of one row must be a `usize`, and the buffer must hold every
/// pixel.
pub open spec fn rgb_fits(width: u32, height: u32, len: nat) -> bool {
    3 * width <= usize::MAX && rgb_len(width, height) <= len
}

impl RasterView {
    /// The bytes of an RGB raster that are pixels: three for each pixel, from
    /// the start of the buffer.
    pub open spec fn rgb_pixels(self) -> Seq<u8> {
        self.bytes.subrange(0, rgb_len(self.width, self.height))
    }
}

/// The luma bytes that `image::DynamicImage::to_luma8` gives for an 8-bit RGB
/// image of the given size and pixels.
pub uninterp spec fn luma8_of(width: u32, height: u32, pixels: Seq<u8>) -> Seq<u8>;

/// Hands `samples` to `image::ImageBuffer::from_raw` for the pixel type
/// `Rgb<u8>` and takes the buffer back out of the image.
///
/// Trusted: `from_raw` keeps the buffer untouched and accepts it exactly when
/// three times the width, and that times the height, can be computed in a
/// `usize` and the result is at most the buffer's length.
#[verifier::external_body]
fn rgb_buffer_checked(width: u32, height: u32, samples: Vec<u8>) -> (r: Option<Vec<u8>>)
    ensures
        r == if rgb_fits(width, height, samples@.len()) {
            Some(samples)
        } else {
            None
        },
{
    match image::RgbImage::from_raw(width, height, samples) {
        Some(image) => Some(image.into_raw()),
        None => None,
    }
}

/// Builds an RGB image over a copy of `samples` and calls
/// `image::DynamicImage::to_luma8` on it; returns the bytes of the luma image.
///
/// Trusted: the luma image has the size of the RGB image and one byte for
/// each pixel, and its bytes depend on nothing but the size and the pixels
/// of the RGB image: bytes of the buffer behind the last pixel are not read.
/// How bright a pixel comes out is the conversion's own matter: it weighs
/// the three channels in floating point and rounds.
#[verifier::external_body]
fn luma8_bytes(width: u32, height: u32, samples: &Vec<u8>) -> (luma: Vec<u8>)
    requires
        rgb_fits(width, height, samples@.len()),
    ensures
        luma@ == luma8_of(width, height, samples@.subrange(0, rgb_len(width, height))),
        luma@.len() == gray_len(width, height),
{
    let rgb = image::RgbImage::from_raw(width, height, samples.clone());
    image::DynamicImage::ImageRgb8(rgb.unwrap()).to_luma8().into_raw()
}

/// An 8-bit RGB raster: three bytes for each pixel, red first.
///
/// The buffer may be longer than the pixels need; what lies behind the last
/// pixel is kept and never read as a pixel.
#[derive(Debug, PartialEq, Eq)]
pub struct RgbRaster {
    width: u32,
    height: u32,
    samples: Vec<u8>,
}

/// An 8-bit luma raster: one byte for each pixel, and no byte more.
#[derive(Debug, PartialEq, Eq)]
pub struct GrayRaster {
    width: u32,
    height: u32,
    data: Vec<u8>,
}

impl View for RgbRaster {
    type V = RasterView;

    closed spec fn view(&self) -> RasterView {
        RasterView { width: self.width, height: self.height, bytes: self.samples@ }
    }
}

impl View for GrayRaster {
    type V = RasterView;

    closed spec fn view(&self) -> RasterView {
        RasterView { width: self.width, height: self.height, bytes: self.data@ }
    }
}

impl Clone for RgbRaster {
    fn clone(&self) -> (copy: RgbRaster)
        ensures
            copy@ == self@,
    {
        proof {
            use_type_invariant(self);
        }
        RgbRaster { width: self.width, height: self.height, samples: self.samples.clone() }
    }
}

impl Clone for GrayRaster {
    fn clone(&self) -> (copy: GrayRaster)
        ensures
            copy@ == self@,
    {
        proof {
            use_type_invariant(self);
        }
        GrayRaster { width: self.width, height: self.height, data: self.data.clone() }
    }
}

impl RgbRaster {
    #[verifier::type_invariant]
    spec fn inv(self) -> bool {
        rgb_fits(self.width, self.height, self.samples@.len())
    }

    /// Wraps `samples` as a raster of `width` by `height` pixels, or returns
    /// `None` when the buffer is too short for that many pixels.
    pub fn from_raw(width: u32, height: u32, samples: Vec<u8>) -> (r: Option<RgbRaster>)
        ensures
            r is Some <==> rgb_fits(width, height, samples@.len()),
            r matches Some(img) ==> img@ == (RasterView { width, height, bytes: samples@ }),
    {
        match rgb_buffer_checked(width, height, samples) {
            Some(samples) => Some(RgbRaster { width, height, samples }),
            None => None,
        }
    }

    /// Width in pixels.
    pub fn width(&self) -> (w: u32)
        ensures
            w == self@.width,
    {
        self.width
    }

    /// Height in pixels.
    pub fn height(&self) -> (h: u32)
        ensures
            h == self@.height,
    {
        self.height
    }

    /// The byte buffer, which holds at least the pixels.
    pub fn as_raw(&self) -> (samples: &Vec<u8>)
        ensures
            samples@ == self@.bytes,
            rgb_fits(self@.width, self@.height, samples@.len()),
    {
        proof {
            use_type_invariant(self);
        }
        &self.samples
    }

    /// Gives the byte buffer back.
    pub fn into_raw(self) -> (samples: Vec<u8>)
        ensures
            samples@ == self@.bytes,
            rgb_fits(self@.width, self@.height, samples@.len()),
    {
        proof {
            use_type_invariant(&self);
        }
        self.samples
    }

    /// Converts to luma. The result has the size of `self`, and its bytes
    /// are those that the conversion gives for the pixels of `self`.
    pub fn to_luma8(&self) -> (gray: GrayRaster)
        ensures
            gray@ == (RasterView {
                width: self@.width,
                height: self@.height,
                bytes: luma8_of(self@.width, self@.height, self@.rgb_pixels()),
            }),
            gray@.bytes.len() == gray_len(self@.width, self@.height),
    {
        proof {
            use_type_invariant(self);
        }
        let data = luma8_bytes(self.width, self.height, &self.samples);
        GrayRaster { width: self.width, height: self.height, data }
    }
}

impl GrayRaster {
    #[verifier::type_invariant]
    spec fn inv(self) -> bool {
        self.data@.len() == gray_len(self.width, self.height)
    }

    /// Wraps `data` as a raster of `width` by `height` pixels, or returns
    /// `None` unless the buffer holds exactly one byte for each pixel.
    pub fn from_raw(width: u32, height: u32, data: Vec<u8>) -> (r: Option<GrayRaster>)
        ensures
            r is Some <==> data@.len() == gray_len(width, height),
            r matches Some(img) ==> img@ == (RasterView { width, height, bytes: data@ }),
    {
        assert(width * height <= 0xFFFF_FFFF * 0xFFFF_FFFF) by (nonlinear_arith)
            requires
                0 <= width <= 0xFFFF_FFFF,
                0 <= height <= 0xFFFF_FFFF,
        ;
        let pixels: u64 = (width as u64) * (height as u64);
        if data.len() as u64 == pixels {
            Some(GrayRaster { width, height, data })
        } else {
            None
        }
    }

    /// Width in pixels.
    pub fn width(&self) -> (w: u32)
        ensures
            w == self@.width,
    {
        self.width
    }

    /// Height in pixels.
    pub fn height(&self) -> (h: u32)
        ensures
            h == self@.height,
    {
        self.height
    }

    /// The bytes, one for each pixel.
    pub fn as_raw(&self) -> (data: &Vec<u8>)
        ensures
            data@ == self@.bytes,
            data@.len() == gray_len(self@.width, self@.height),
    {
        proof {
            use_type_invariant(self);
        }
        &self.data
    }

    /// Gives the bytes back.
    pub fn into_raw(self) -> (data: Vec<u8>)
        ensures
            data@ == self@.bytes,
            data@.len() == gray_len(self@.width, self@.height),
    {
        proof {
            use_type_invariant(&self);
        }
        self.data
    }
}

} // verus!
