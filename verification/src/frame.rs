//! Solid-colour test frames whose content and timestamp depend on the sequence index alone.

use vstd::prelude::*;
use crate::format::{
    FrameFormat, BYTES_PER_PIXEL, FRAME_BYTES, FRAME_INTERVAL_NANOS, FRAME_PIXELS,
};

verus! {

/// The channel intensities shared by every pixel of one frame.
#[derive(Clone, Copy, Debug, PartialEq, Eq, Structural)]
pub struct Color {
    pub red: u8,
    pub green: u8,
    pub blue: u8,
}

/// Intensity of a channel that is dark on every multiple of `period` and fully lit otherwise.
pub open spec fn channel_level(index: u64, period: u64) -> u8 {
    if index % period == 0 {
        0u8
    } else {
        255u8
    }
}

/// The colour of frame `index`: red follows a period of 2, green of 3, blue of 5.
pub open spec fn color_at(index: u64) -> Color {
    Color {
        red: channel_level(index, 2),
        green: channel_level(index, 3),
        blue: channel_level(index, 5),
    }
}

/// The byte at `offset` of a BGRX buffer filled with `color`.
pub open spec fn pixel_byte(color: Color, offset: int) -> u8 {
    let lane = offset % 4;
    if lane == 0 {
        color.blue
    } else if lane == 1 {
        color.green
    } else if lane == 2 {
        color.red
    } else {
        0u8
    }
}

/// The pixel buffer of a frame in which every pixel is `color`.
pub open spec fn solid_pixels(color: Color) -> Seq<u8> {
    Seq::new(FRAME_BYTES as nat, |offset: int| pixel_byte(color, offset))
}

/// The presentation time of frame `index` in nanoseconds: `index` frame intervals.
pub open spec fn presentation_nanos(index: u64) -> nat {
    (index * FRAME_INTERVAL_NANOS) as nat
}

/// What a frame is: its place in the sequence, when it is shown, and its bytes.
pub struct VideoFrameView {
    pub sequence_index: u64,
    pub presentation_time: nat,
    pub pixel_data: Seq<u8>,
}

/// The frame that the generator produces for `index`.
pub open spec fn frame_at(index: u64) -> VideoFrameView {
    VideoFrameView {
        sequence_index: index,
        presentation_time: presentation_nanos(index),
        pixel_data: solid_pixels(color_at(index)),
    }
}

/// One raw frame of the test pattern. It is created whole and never changed afterwards.
pub struct VideoFrame {
    sequence_index: u64,
    presentation_time: u128,
    pixel_data: Vec<u8>,
}

impl View for VideoFrame {
    type V = VideoFrameView;

    closed spec fn view(&self) -> VideoFrameView {
        VideoFrameView {
            sequence_index: self.sequence_index,
            presentation_time: self.presentation_time as nat,
            pixel_data: self.pixel_data@,
        }
    }
}

/// Returns the colour of frame `index`.
pub fn frame_color(index: u64) -> (color: Color)
    ensures
        color == color_at(index),
{
    Color {
        red: if index % 2 == 0 { 0 } else { 255 },
        green: if index % 3 == 0 { 0 } else { 255 },
        blue: if index % 5 == 0 { 0 } else { 255 },
    }
}

/// Returns the presentation time of frame `index` in nanoseconds.
pub fn presentation_time(index: u64) -> (nanos: u128)
    ensures
        nanos == presentation_nanos(index),
{
    (index as u128) * (FRAME_INTERVAL_NANOS as u128)
}

/// Builds the pixel buffer of a frame in which every pixel is `color`.
pub fn fill_pixels(color: Color) -> (data: Vec<u8>)
    ensures
        data@ == solid_pixels(color),
{
    let mut data: Vec<u8> = Vec::with_capacity(FRAME_BYTES);
    let mut pixel: usize = 0;
    while pixel < FRAME_PIXELS
        invariant
            pixel <= FRAME_PIXELS,
            data@.len() == pixel * BYTES_PER_PIXEL,
            forall|offset: int|
                0 <= offset < data@.len() ==> data@[offset] == pixel_byte(color, offset),
        decreases FRAME_PIXELS - pixel,
    {
        data.push(color.blue);
        data.push(color.green);
        data.push(color.red);
        data.push(0);
        pixel += 1;
    }
    data
}

/// Produces frame `index` of the test pattern.
pub fn next_frame(index: u64) -> (frame: VideoFrame)
    ensures
        frame@ == frame_at(index),
        frame@.pixel_data.len() == FRAME_BYTES,
{
    VideoFrame {
        sequence_index: index,
        presentation_time: presentation_time(index),
        pixel_data: fill_pixels(frame_color(index)),
    }
}

impl VideoFrame {
    /// Every frame is the one that the generator produces for its sequence index.
    #[verifier::type_invariant]
    spec fn is_generated(&self) -> bool {
        self@ == frame_at(self.sequence_index)
    }

    /// Returns the position of this frame in the sequence.
    pub fn sequence_index(&self) -> (index: u64)
        ensures
            index == self@.sequence_index,
            self@ == frame_at(index),
    {
        proof {
            use_type_invariant(self);
        }
        self.sequence_index
    }

    /// Returns the time, in nanoseconds, at which this frame is to be shown.
    pub fn presentation_time(&self) -> (nanos: u128)
        ensures
            nanos == self@.presentation_time,
            nanos == presentation_nanos(self@.sequence_index),
    {
        proof {
            use_type_invariant(self);
        }
        self.presentation_time
    }

    /// Returns the bytes of this frame, one BGRX pixel after the other.
    pub fn pixel_data(&self) -> (data: &Vec<u8>)
        ensures
            data@ == self@.pixel_data,
            data@ == solid_pixels(color_at(self@.sequence_index)),
            data@.len() == FRAME_BYTES,
    {
        proof {
            use_type_invariant(self);
        }
        &self.pixel_data
    }

    /// Gives the bytes of this frame away, as a push into an ingestion point does.
    pub fn into_pixel_data(self) -> (data: Vec<u8>)
        ensures
            data@ == self@.pixel_data,
            data@ == solid_pixels(color_at(self@.sequence_index)),
            data@.len() == FRAME_BYTES,
    {
        proof {
            use_type_invariant(&self);
        }
        self.pixel_data
    }

    /// Tells whether this frame has the shape that `format` describes.
    pub fn conforms_to(&self, format: &FrameFormat) -> (fits: bool)
        ensures
            fits == (self@.pixel_data.len() == format.byte_len()),
            *format == FrameFormat::test_pattern() ==> fits,
    {
        proof {
            use_type_invariant(self);
        }
        self.pixel_data.len() as u128 == format.buffer_len()
    }
}

/// Producing a frame is a function of its index: two frames produced for one index are equal
/// in every byte and in their timestamp.
pub proof fn lemma_next_frame_is_deterministic(
    index: u64,
    first: VideoFrameView,
    second: VideoFrameView,
)
    requires
        first == frame_at(index),
        second == frame_at(index),
    ensures
        first.pixel_data == second.pixel_data,
        first == second,
{
}

/// Every pixel of a frame is the colour of the frame: its four bytes are blue, green, red and
/// zero, so that any two pixels of one frame are equal.
pub proof fn lemma_frame_is_solid(index: u64, pixel: int)
    requires
        0 <= pixel < FRAME_PIXELS,
    ensures
        frame_at(index).pixel_data.len() == FRAME_BYTES,
        frame_at(index).pixel_data.subrange(4 * pixel, 4 * pixel + 4) == seq![
            color_at(index).blue,
            color_at(index).green,
            color_at(index).red,
            0u8,
        ],
{
    let data = frame_at(index).pixel_data;
    let color = color_at(index);
    assert(data.subrange(4 * pixel, 4 * pixel + 4) =~= seq![
        color.blue,
        color.green,
        color.red,
        0u8,
    ]);
}

/// A later frame is shown strictly later: presentation times never repeat and never go back.
pub proof fn lemma_presentation_time_strictly_increasing(earlier: u64, later: u64)
    requires
        earlier < later,
    ensures
        presentation_nanos(earlier) < presentation_nanos(later),
        presentation_nanos(later) - presentation_nanos(earlier) == (later - earlier)
            * FRAME_INTERVAL_NANOS,
{
}

/// Two frames with the same presentation time are the same frame of the sequence.
pub proof fn lemma_presentation_time_injective(first: u64, second: u64)
    requires
        presentation_nanos(first) == presentation_nanos(second),
    ensures
        first == second,
{
}

/// The pattern repeats every 30 frames, the least common multiple of the channel periods.
pub proof fn lemma_color_period(index: u64)
    requires
        index + 30 <= u64::MAX,
    ensures
        color_at((index + 30) as u64) == color_at(index),
{
}

} // verus!
