//! Typed audio metadata of the host: sample formats and speaker layouts.

use vstd::prelude::*;

verus! {

/// The sample formats the host delivers, either interleaved across
/// channels or with one plane per channel.
#[derive(Clone, Copy, Debug, Eq, PartialEq, Structural)]
pub enum AudioFormatKind {
    Unknown,
    InterleavedU8,
    InterleavedI16,
    InterleavedI32,
    InterleavedF32,
    PlanarU8,
    PlanarI16,
    PlanarI32,
    PlanarF32,
}

impl AudioFormatKind {
    /// Whether samples arrive with one plane per channel.
    pub open spec fn spec_is_planar(self) -> bool {
        match self {
            AudioFormatKind::PlanarU8
            | AudioFormatKind::PlanarI16
            | AudioFormatKind::PlanarI32
            | AudioFormatKind::PlanarF32 => true,
            _ => false,
        }
    }

    /// Width of one sample of the format, in bytes; `0` for the unknown
    /// format.
    pub open spec fn spec_bytes_per_sample(self) -> nat {
        match self {
            AudioFormatKind::Unknown => 0,
            AudioFormatKind::InterleavedU8 | AudioFormatKind::PlanarU8 => 1,
            AudioFormatKind::InterleavedI16 | AudioFormatKind::PlanarI16 => 2,
            AudioFormatKind::InterleavedI32 | AudioFormatKind::PlanarI32 => 4,
            AudioFormatKind::InterleavedF32 | AudioFormatKind::PlanarF32 => 4,
        }
    }

    /// Whether samples arrive with one plane per channel.
    pub fn is_planar(self) -> (r: bool)
        ensures
            r == self.spec_is_planar(),
    {
        match self {
            AudioFormatKind::PlanarU8
            | AudioFormatKind::PlanarI16
            | AudioFormatKind::PlanarI32
            | AudioFormatKind::PlanarF32 => true,
            _ => false,
        }
    }

    /// Width of one sample of the format, in bytes.
    pub fn get_bytes_per_sample(self) -> (r: usize)
        ensures
            r == self.spec_bytes_per_sample(),
    {
        match self {
            AudioFormatKind::Unknown => 0,
            AudioFormatKind::InterleavedU8 | AudioFormatKind::PlanarU8 => 1,
            AudioFormatKind::InterleavedI16 | AudioFormatKind::PlanarI16 => 2,
            AudioFormatKind::InterleavedI32 | AudioFormatKind::PlanarI32 => 4,
            AudioFormatKind::InterleavedF32 | AudioFormatKind::PlanarF32 => 4,
        }
    }
}

/// The speaker layouts the host knows.
#[derive(Clone, Copy, Debug, Eq, PartialEq, Structural)]
pub enum SpeakerLayoutKind {
    Unknown,
    Mono,
    Stereo,
    Surround2Point1,
    Surround4Point0,
    Surround4Point1,
    Surround5Point1,
    Surround7Point1,
}

impl SpeakerLayoutKind {
    /// Number of channels of the layout; `0` for the unknown layout.
    pub open spec fn spec_channel_count(self) -> nat {
        match self {
            SpeakerLayoutKind::Unknown => 0,
            SpeakerLayoutKind::Mono => 1,
            SpeakerLayoutKind::Stereo => 2,
            SpeakerLayoutKind::Surround2Point1 => 3,
            SpeakerLayoutKind::Surround4Point0 => 4,
            SpeakerLayoutKind::Surround4Point1 => 5,
            SpeakerLayoutKind::Surround5Point1 => 6,
            SpeakerLayoutKind::Surround7Point1 => 8,
        }
    }

    /// Number of channels of the layout.
    pub fn get_channel_count(self) -> (r: usize)
        ensures
            r == self.spec_channel_count(),
    {
        match self {
            SpeakerLayoutKind::Unknown => 0,
            SpeakerLayoutKind::Mono => 1,
            SpeakerLayoutKind::Stereo => 2,
            SpeakerLayoutKind::Surround2Point1 => 3,
            SpeakerLayoutKind::Surround4Point0 => 4,
            SpeakerLayoutKind::Surround4Point1 => 5,
            SpeakerLayoutKind::Surround5Point1 => 6,
            SpeakerLayoutKind::Surround7Point1 => 8,
        }
    }
}

/// Number of planes in one block of audio delivered as `format`: one per
/// channel for planar formats, one shared plane otherwise.
pub fn get_planes(format: AudioFormatKind, layout: SpeakerLayoutKind) -> (r: usize)
    ensures
        r == if format.spec_is_planar() {
            layout.spec_channel_count()
        } else {
            1nat
        },
{
    if format.is_planar() {
        layout.get_channel_count()
    } else {
        1
    }
}

/// Byte stride between consecutive samples of one channel in a block:
/// planar samples sit back to back, interleaved samples are spaced by the
/// whole channel group.
pub fn get_sample_stride(format: AudioFormatKind, layout: SpeakerLayoutKind) -> (r: usize)
    ensures
        r == (if format.spec_is_planar() {
            1nat
        } else {
            layout.spec_channel_count()
        }) * format.spec_bytes_per_sample(),
{
    (if format.is_planar() {
        1
    } else {
        layout.get_channel_count()
    }) * format.get_bytes_per_sample()
}

} // verus!
