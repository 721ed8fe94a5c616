//! Sample formats and the wire-level stream description derived from them.

use vstd::prelude::*;

verus! {

/// Identifier of linear PCM in a stream description ('lpcm').
pub const FORMAT_LINEAR_PCM: u32 = 0x6c70636d;

/// Samples are floating-point numbers.
pub const FLAG_IS_FLOAT: u32 = 1;

/// Samples are signed integers.
pub const FLAG_IS_SIGNED_INTEGER: u32 = 4;

/// Sample bits occupy the whole sample slot.
pub const FLAG_IS_PACKED: u32 = 8;

/// Each channel lives in a buffer of its own.
pub const FLAG_IS_NON_INTERLEAVED: u32 = 32;

/// The sample representations a stream can carry.
#[derive(Clone, Copy, Debug, PartialEq, Eq, Structural)]
pub enum Format {
    /// PCM signed 16-bit little-endian.
    S16LE,
    /// PCM 32-bit floating-point little-endian.
    F32LE,
}

impl Format {
    /// Width in bytes of one sample of this format.
    pub open spec fn spec_byte_size(self) -> nat {
        match self {
            Format::S16LE => 2,
            Format::F32LE => 4,
        }
    }

    /// The format flags of a packed, non-interleaved stream of this format.
    pub open spec fn spec_format_flags(self) -> u32 {
        match self {
            Format::S16LE => FLAG_IS_SIGNED_INTEGER | FLAG_IS_PACKED | FLAG_IS_NON_INTERLEAVED,
            Format::F32LE => FLAG_IS_FLOAT | FLAG_IS_PACKED | FLAG_IS_NON_INTERLEAVED,
        }
    }

    pub fn byte_size(&self) -> (r: usize)
        ensures
            r as nat == self.spec_byte_size(),
    {
        match self {
            Format::S16LE => 2,
            Format::F32LE => 4,
        }
    }

    pub fn to_format_flags(&self) -> (r: u32)
        ensures
            r == self.spec_format_flags(),
    {
        let flags: u32 = match self {
            Format::S16LE => FLAG_IS_SIGNED_INTEGER,
            Format::F32LE => FLAG_IS_FLOAT,
        };
        flags | FLAG_IS_PACKED | FLAG_IS_NON_INTERLEAVED
    }
}

/// The integer part of the wire-level description a hardware unit consumes;
/// the sample rate travels beside it.
#[derive(Clone, Copy, Debug, PartialEq, Eq, Structural)]
pub struct StreamDescription {
    pub format_id: u32,
    pub format_flags: u32,
    pub bytes_per_packet: u32,
    pub frames_per_packet: u32,
    pub bytes_per_frame: u32,
    pub channels_per_frame: u32,
    pub bits_per_channel: u32,
}

/// Channel count and sample representation of a stream.
#[derive(Clone, Copy, Debug, PartialEq, Eq, Structural)]
pub struct Parameters {
    pub channels: u32,
    pub format: Format,
}

impl Parameters {
    /// The description of a non-interleaved stream: one sample per frame in
    /// each channel buffer, one frame per packet.
    pub open spec fn spec_description(self) -> StreamDescription {
        let byte_size = self.format.spec_byte_size() as u32;
        StreamDescription {
            format_id: FORMAT_LINEAR_PCM,
            format_flags: self.format.spec_format_flags(),
            bytes_per_packet: byte_size,
            frames_per_packet: 1,
            bytes_per_frame: byte_size,
            channels_per_frame: self.channels,
            bits_per_channel: (byte_size * 8) as u32,
        }
    }

    pub fn new(channels: u32, format: Format) -> (r: Parameters)
        ensures
            r.channels == channels,
            r.format == format,
    {
        Parameters { channels, format }
    }

    pub fn to_description(&self) -> (r: StreamDescription)
        ensures
            r == self.spec_description(),
    {
        let byte_size = self.format.byte_size() as u32;
        let bits_per_channel = byte_size * 8;
        let frames_per_packet: u32 = 1;
        // Non-interleaved: each channel buffer holds one sample per frame.
        let bytes_per_frame = byte_size;
        let bytes_per_packet = bytes_per_frame * frames_per_packet;
        StreamDescription {
            format_id: FORMAT_LINEAR_PCM,
            format_flags: self.format.to_format_flags(),
            bytes_per_packet,
            frames_per_packet,
            bytes_per_frame,
            channels_per_frame: self.channels,
            bits_per_channel,
        }
    }
}

} // verus!
