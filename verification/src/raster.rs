//! Scan Reader: turn one page's raw sample bytes plus the geometry the
//! device reported into a typed image buffer.
//!
//! The native subsystem reports, immediately before each transfer, a
//! pixel format tag together with the pixel geometry of the upcoming
//! page. Exactly the gray tag selects a single-channel raster; every
//! other tag selects a three-channel red/green/blue raster. A buffer is
//! only constructed when the transferred byte count agrees exactly with
//! `pixels_per_line * lines * channels`; any disagreement is a driver
//! inconsistency and fails the page rather than being truncated or
//! padded away.

use vstd::prelude::*;

use crate::error::ScanError;

verus! {

/// The pixel format tags the native subsystem can report for a page.
#[derive(Clone, Copy, Debug, PartialEq, Eq, Structural)]
pub enum Frame {
    /// Single-channel intensity samples.
    Gray,
    /// Interleaved red/green/blue triplets.
    Rgb,
    /// A red-only pass of a three-pass transfer.
    Red,
    /// A green-only pass of a three-pass transfer.
    Green,
    /// A blue-only pass of a three-pass transfer.
    Blue,
}

/// Geometry and pixel encoding of the page about to be transferred, as
/// reported by the device. Valid only for the scan in progress; it must
/// be re-read for every page.
#[derive(Clone, Copy, Debug, PartialEq, Eq, Structural)]
pub struct ScanParameters {
    /// The reported pixel format tag.
    pub format: Frame,
    /// Pixels in one scan line.
    pub pixels_per_line: u32,
    /// Number of scan lines in the page.
    pub lines: u32,
}

/// How many bytes one pixel occupies under the given format tag:
/// exactly the gray tag is single-channel, everything else decodes as a
/// red/green/blue triplet.
pub open spec fn spec_channel_count(format: Frame) -> int {
    if format is Gray {
        1
    } else {
        3
    }
}

/// Executable twin of [`spec_channel_count`].
pub fn channel_count(format: Frame) -> (c: u32)
    ensures
        c == spec_channel_count(format),
{
    match format {
        Frame::Gray => 1,
        _ => 3,
    }
}

/// The byte count the sample stream must have for one page under the
/// given parameters.
pub open spec fn expected_byte_len(params: ScanParameters) -> int {
    params.pixels_per_line * params.lines * spec_channel_count(params.format)
}

/// Mathematical shape of an image buffer: its channel count, pixel
/// geometry, and raw samples in row-major order.
pub struct ImageView {
    /// Bytes per pixel: 1 for the single-channel variant, 3 for the
    /// three-channel variant.
    pub channels: int,
    /// Pixels per row.
    pub width: int,
    /// Number of rows.
    pub height: int,
    /// The raw samples, row-major, `channels` bytes per pixel.
    pub data: Seq<u8>,
}

/// One completed page. A closed union over exactly two pixel layouts, so
/// every consumer must handle both and a third encoding would be a
/// compile-time-visible change.
#[derive(Debug)]
pub enum ImageBuffer {
    /// Single-channel 8-bit-per-pixel raster.
    Luma {
        /// Pixels per row.
        width: u32,
        /// Number of rows.
        height: u32,
        /// One intensity byte per pixel, row-major.
        data: Vec<u8>,
    },
    /// Three-channel 8-bit-per-channel raster.
    Rgb {
        /// Pixels per row.
        width: u32,
        /// Number of rows.
        height: u32,
        /// Interleaved red/green/blue bytes, row-major.
        data: Vec<u8>,
    },
}

impl View for ImageBuffer {
    type V = ImageView;

    open spec fn view(&self) -> ImageView {
        match *self {
            ImageBuffer::Luma { width, height, data } => ImageView {
                channels: 1,
                width: width as int,
                height: height as int,
                data: data@,
            },
            ImageBuffer::Rgb { width, height, data } => ImageView {
                channels: 3,
                width: width as int,
                height: height as int,
                data: data@,
            },
        }
    }
}

impl ImageBuffer {
    /// The construction invariant: the backing samples cover the pixel
    /// grid exactly.
    pub open spec fn wf(self) -> bool {
        self@.data.len() == self@.width * self@.height * self@.channels
    }

    /// Pixels per row.
    pub fn width(&self) -> (w: u32)
        ensures
            w == self@.width,
    {
        match self {
            ImageBuffer::Luma { width, .. } => *width,
            ImageBuffer::Rgb { width, .. } => *width,
        }
    }

    /// Number of rows.
    pub fn height(&self) -> (h: u32)
        ensures
            h == self@.height,
    {
        match self {
            ImageBuffer::Luma { height, .. } => *height,
            ImageBuffer::Rgb { height, .. } => *height,
        }
    }

    /// Bytes per pixel of this variant.
    pub fn channels(&self) -> (c: u32)
        ensures
            c == self@.channels,
    {
        match self {
            ImageBuffer::Luma { .. } => 1,
            ImageBuffer::Rgb { .. } => 3,
        }
    }

    /// The raw samples, row-major.
    pub fn data(&self) -> (d: &Vec<u8>)
        ensures
            d@ == self@.data,
    {
        match self {
            ImageBuffer::Luma { data, .. } => data,
            ImageBuffer::Rgb { data, .. } => data,
        }
    }

    /// Build a buffer from raw transferred samples, choosing the variant
    /// by the format tag. Succeeds exactly when the byte count equals
    /// `width * height * channels` for that variant; a disagreeing
    /// stream yields no buffer at all.
    pub fn from_raw(format: Frame, width: u32, height: u32, data: Vec<u8>) -> (r: Option<
        ImageBuffer,
    >)
        ensures
            r is Some <==> data@.len() == width * height * spec_channel_count(format),
            r is Some ==> r->Some_0@ == (ImageView {
                channels: spec_channel_count(format),
                width: width as int,
                height: height as int,
                data: data@,
            }),
            r is Some ==> r->Some_0.wf(),
            r is Some ==> (r->Some_0 is Luma <==> format is Gray),
    {
        let c = channel_count(format);
        proof {
            assert(width * height * c <= 0xffff_ffffu32 * 0xffff_ffffu32 * 3) by (nonlinear_arith)
                requires
                    width <= 0xffff_ffffu32,
                    height <= 0xffff_ffffu32,
                    c <= 3,
            ;
        }
        let expected: u128 = (width as u128) * (height as u128) * (c as u128);
        if (data.len() as u128) == expected {
            if c == 1 {
                Some(ImageBuffer::Luma { width, height, data })
            } else {
                Some(ImageBuffer::Rgb { width, height, data })
            }
        } else {
            None
        }
    }
}

/// Assemble one page: interpret the complete transferred sample stream
/// against the parameters reported for this page. Returns the
/// single-channel variant exactly for the gray tag and the three-channel
/// variant for every other tag; fails with
/// [`ScanError::BufferConstruction`] exactly when the byte count
/// disagrees with the geometry, never truncating or padding.
pub fn image_from_scan(params: &ScanParameters, data: Vec<u8>) -> (r: Result<
    ImageBuffer,
    ScanError,
>)
    ensures
        r is Ok <==> data@.len() == expected_byte_len(*params),
        r is Ok ==> r->Ok_0@ == (ImageView {
            channels: spec_channel_count(params.format),
            width: params.pixels_per_line as int,
            height: params.lines as int,
            data: data@,
        }),
        r is Ok ==> r->Ok_0.wf(),
        r is Ok ==> (r->Ok_0 is Luma <==> params.format is Gray),
        data@.len() != expected_byte_len(*params) ==> r == Err::<ImageBuffer, ScanError>(
            ScanError::BufferConstruction,
        ),
{
    match ImageBuffer::from_raw(params.format, params.pixels_per_line, params.lines, data) {
        Some(buffer) => Ok(buffer),
        None => Err(ScanError::BufferConstruction),
    }
}

} // verus!
