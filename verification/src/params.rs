//! The SBC codec parameters, each with the byte code that the SBC
//! configuration record stores for it.

use vstd::prelude::*;

verus! {

/// Sampling frequency.
#[allow(non_camel_case_types)]
#[derive(Copy, Clone, Debug, PartialEq, Eq, Structural)]
pub enum Frequency {
    SBC_FREQ_16000,
    SBC_FREQ_32000,
    SBC_FREQ_44100,
    SBC_FREQ_48000,
}

/// Number of blocks in a frame.
#[allow(non_camel_case_types)]
#[derive(Copy, Clone, Debug, PartialEq, Eq, Structural)]
pub enum Blocks {
    SBC_BLK_4,
    SBC_BLK_8,
    SBC_BLK_12,
    SBC_BLK_16,
}

/// Channel mode.
#[allow(non_camel_case_types)]
#[derive(Copy, Clone, Debug, PartialEq, Eq, Structural)]
pub enum ChannelMode {
    SBC_MODE_MONO,
    SBC_MODE_DUAL_CHANNEL,
    SBC_MODE_STEREO,
    SBC_MODE_JOINT_STEREO,
}

/// Bit allocation method.
#[allow(non_camel_case_types)]
#[derive(Copy, Clone, Debug, PartialEq, Eq, Structural)]
pub enum AllocationMethod {
    SBC_AM_LOUDNESS,
    SBC_AM_SNR,
}

/// Number of subbands.
#[allow(non_camel_case_types)]
#[derive(Copy, Clone, Debug, PartialEq, Eq, Structural)]
pub enum Subbands {
    SBC_SB_4,
    SBC_SB_8,
}

/// Byte order of the PCM samples.
#[allow(non_camel_case_types)]
#[derive(Copy, Clone, Debug, PartialEq, Eq, Structural)]
pub enum ByteOrder {
    SBC_LE,
    SBC_BE,
}

impl Frequency {
    /// The byte code of the frequency: 0x00 to 0x03 in declaration order.
    pub open spec fn spec_code(self) -> u8 {
        match self {
            Frequency::SBC_FREQ_16000 => 0x00,
            Frequency::SBC_FREQ_32000 => 0x01,
            Frequency::SBC_FREQ_44100 => 0x02,
            Frequency::SBC_FREQ_48000 => 0x03,
        }
    }

    /// The sampling rate in Hz.
    pub open spec fn spec_hz(self) -> nat {
        match self {
            Frequency::SBC_FREQ_16000 => 16000,
            Frequency::SBC_FREQ_32000 => 32000,
            Frequency::SBC_FREQ_44100 => 44100,
            Frequency::SBC_FREQ_48000 => 48000,
        }
    }

    /// The byte code of the frequency.
    pub fn code(self) -> (c: u8)
        ensures
            c == self.spec_code(),
    {
        match self {
            Frequency::SBC_FREQ_16000 => 0x00,
            Frequency::SBC_FREQ_32000 => 0x01,
            Frequency::SBC_FREQ_44100 => 0x02,
            Frequency::SBC_FREQ_48000 => 0x03,
        }
    }
}

impl Blocks {
    /// The byte code of the block count: 0x00 to 0x03 in declaration order.
    pub open spec fn spec_code(self) -> u8 {
        match self {
            Blocks::SBC_BLK_4 => 0x00,
            Blocks::SBC_BLK_8 => 0x01,
            Blocks::SBC_BLK_12 => 0x02,
            Blocks::SBC_BLK_16 => 0x03,
        }
    }

    /// The number of blocks in a frame.
    pub open spec fn spec_count(self) -> nat {
        match self {
            Blocks::SBC_BLK_4 => 4,
            Blocks::SBC_BLK_8 => 8,
            Blocks::SBC_BLK_12 => 12,
            Blocks::SBC_BLK_16 => 16,
        }
    }

    /// The byte code of the block count.
    pub fn code(self) -> (c: u8)
        ensures
            c == self.spec_code(),
    {
        match self {
            Blocks::SBC_BLK_4 => 0x00,
            Blocks::SBC_BLK_8 => 0x01,
            Blocks::SBC_BLK_12 => 0x02,
            Blocks::SBC_BLK_16 => 0x03,
        }
    }
}

impl ChannelMode {
    /// The byte code of the channel mode: 0x00 to 0x03 in declaration order.
    pub open spec fn spec_code(self) -> u8 {
        match self {
            ChannelMode::SBC_MODE_MONO => 0x00,
            ChannelMode::SBC_MODE_DUAL_CHANNEL => 0x01,
            ChannelMode::SBC_MODE_STEREO => 0x02,
            ChannelMode::SBC_MODE_JOINT_STEREO => 0x03,
        }
    }

    /// The number of audio channels: one in mono mode, two otherwise.
    pub open spec fn spec_channels(self) -> nat {
        match self {
            ChannelMode::SBC_MODE_MONO => 1,
            _ => 2,
        }
    }

    /// The byte code of the channel mode.
    pub fn code(self) -> (c: u8)
        ensures
            c == self.spec_code(),
    {
        match self {
            ChannelMode::SBC_MODE_MONO => 0x00,
            ChannelMode::SBC_MODE_DUAL_CHANNEL => 0x01,
            ChannelMode::SBC_MODE_STEREO => 0x02,
            ChannelMode::SBC_MODE_JOINT_STEREO => 0x03,
        }
    }
}

impl AllocationMethod {
    /// The byte code of the allocation method: 0x00 for loudness, 0x01 for SNR.
    pub open spec fn spec_code(self) -> u8 {
        match self {
            AllocationMethod::SBC_AM_LOUDNESS => 0x00,
            AllocationMethod::SBC_AM_SNR => 0x01,
        }
    }

    /// The byte code of the allocation method.
    pub fn code(self) -> (c: u8)
        ensures
            c == self.spec_code(),
    {
        match self {
            AllocationMethod::SBC_AM_LOUDNESS => 0x00,
            AllocationMethod::SBC_AM_SNR => 0x01,
        }
    }
}

impl Subbands {
    /// The byte code of the subband count: 0x00 for four, 0x01 for eight.
    pub open spec fn spec_code(self) -> u8 {
        match self {
            Subbands::SBC_SB_4 => 0x00,
            Subbands::SBC_SB_8 => 0x01,
        }
    }

    /// The number of subbands.
    pub open spec fn spec_count(self) -> nat {
        match self {
            Subbands::SBC_SB_4 => 4,
            Subbands::SBC_SB_8 => 8,
        }
    }

    /// The byte code of the subband count.
    pub fn code(self) -> (c: u8)
        ensures
            c == self.spec_code(),
    {
        match self {
            Subbands::SBC_SB_4 => 0x00,
            Subbands::SBC_SB_8 => 0x01,
        }
    }
}

impl ByteOrder {
    /// The byte code of the byte order: 0x00 for little endian, 0x01 for big endian.
    pub open spec fn spec_code(self) -> u8 {
        match self {
            ByteOrder::SBC_LE => 0x00,
            ByteOrder::SBC_BE => 0x01,
        }
    }

    /// The byte code of the byte order.
    pub fn code(self) -> (c: u8)
        ensures
            c == self.spec_code(),
    {
        match self {
            ByteOrder::SBC_LE => 0x00,
            ByteOrder::SBC_BE => 0x01,
        }
    }
}

} // verus!
