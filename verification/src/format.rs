//! The fixed media description of the test pattern: 320x240 BGRX at 15 frames per second.

use vstd::prelude::*;

verus! {

/// Frame width in pixels.
pub const WIDTH: usize = 320;

/// Frame height in pixels.
pub const HEIGHT: usize = 240;

/// Bytes per pixel of the BGRX layout: blue, green, red and one unused byte.
pub const BYTES_PER_PIXEL: usize = 4;

/// Frames per second.
pub const FRAME_RATE: u64 = 15;

/// Number of pixels of one frame.
pub const FRAME_PIXELS: usize = WIDTH * HEIGHT;

/// Number of bytes of one frame.
pub const FRAME_BYTES: usize = WIDTH * HEIGHT * BYTES_PER_PIXEL;

/// Nanoseconds in one second, the unit in which the pipeline counts time.
pub const NANOS_PER_SECOND: u64 = 1_000_000_000;

/// Nanoseconds between two consecutive frames.
pub const FRAME_INTERVAL_NANOS: u64 = NANOS_PER_SECOND / FRAME_RATE;

/// How raw pixels are laid out in a frame buffer.
#[derive(Clone, Copy, Debug, PartialEq, Eq, Structural)]
pub enum PixelLayout {
    /// Four bytes per pixel: blue, green, red, unused.
    Bgrx,
}

/// The media description that an ingestion point is told to expect.
#[derive(Clone, Copy, Debug, PartialEq, Eq, Structural)]
pub struct FrameFormat {
    pub width: u32,
    pub height: u32,
    pub layout: PixelLayout,
    pub frame_rate: u32,
}

impl PixelLayout {
    /// Bytes that one pixel occupies in this layout.
    pub open spec fn pixel_width(self) -> nat {
        match self {
            PixelLayout::Bgrx => 4,
        }
    }

    /// Returns the number of bytes that one pixel occupies.
    pub fn bytes_per_pixel(&self) -> (n: u8)
        ensures
            n == self.pixel_width(),
    {
        match self {
            PixelLayout::Bgrx => 4,
        }
    }
}

impl FrameFormat {
    /// The one format this library streams.
    pub open spec fn test_pattern() -> FrameFormat {
        FrameFormat { width: 320, height: 240, layout: PixelLayout::Bgrx, frame_rate: 15 }
    }

    /// Bytes of a frame buffer of this format: width x height x pixel width.
    pub open spec fn byte_len(self) -> nat {
        (self.width * self.height * self.layout.pixel_width()) as nat
    }

    /// Returns the test-pattern format.
    pub fn standard() -> (format: FrameFormat)
        ensures
            format == FrameFormat::test_pattern(),
            format.width == WIDTH,
            format.height == HEIGHT,
            format.frame_rate == FRAME_RATE,
            format.byte_len() == FRAME_BYTES,
    {
        FrameFormat { width: 320, height: 240, layout: PixelLayout::Bgrx, frame_rate: 15 }
    }

    /// Returns the size in bytes of a frame buffer of this format.
    pub fn buffer_len(&self) -> (n: u128)
        ensures
            n == self.byte_len(),
    {
        let width: u128 = self.width as u128;
        let height: u128 = self.height as u128;
        let depth: u128 = self.layout.bytes_per_pixel() as u128;
        assert(width * height <= 0xffff_ffff * 0xffff_ffff) by (nonlinear_arith)
            requires
                width <= 0xffff_ffff,
                height <= 0xffff_ffff,
        ;
        width * height * depth
    }
}

} // verus!
