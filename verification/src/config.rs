//! The SBC configuration record and the frame geometry that follows from it.
//!
//! The record holds the settable fields of an SBC codec state as byte codes.
//! The geometry functions read it as the SBC reference implementation does
//! for a codec that has not yet processed a frame: a nonzero subband code
//! means eight subbands, a block code `b` means `4 + 4 * b` blocks (kept to a
//! byte), a channel mode other than mono has two channels, and a frequency
//! code outside the four known rates has no frame duration.

use vstd::prelude::*;
use crate::params::{AllocationMethod, Blocks, ByteOrder, ChannelMode, Frequency, Subbands};

verus! {

/// Channel mode code of mono.
pub const MODE_MONO: u8 = 0x00;
/// Channel mode code of dual channel.
pub const MODE_DUAL_CHANNEL: u8 = 0x01;
/// Channel mode code of joint stereo.
pub const MODE_JOINT_STEREO: u8 = 0x03;

/// The settable fields of an SBC codec state, as byte codes.
#[derive(Copy, Clone, Debug, PartialEq, Eq, Structural)]
pub struct SbcConfig {
    pub flags: u64,
    pub frequency: u8,
    pub blocks: u8,
    pub subbands: u8,
    pub mode: u8,
    pub allocation: u8,
    pub bitpool: u8,
    pub endian: u8,
}

/// Number of subbands that a subband code stands for.
pub open spec fn subband_count(code: u8) -> nat {
    if code != 0 { 8 } else { 4 }
}

/// Number of blocks that a block code stands for, kept to a byte.
pub open spec fn block_count(code: u8) -> nat {
    ((4 + 4 * code) % 256) as nat
}

/// Number of channels of a channel mode code.
pub open spec fn channel_count(mode: u8) -> nat {
    if mode == MODE_MONO { 1 } else { 2 }
}

/// Sampling rate in Hz of a frequency code; 0 for an unknown code.
pub open spec fn frequency_hz(code: u8) -> nat {
    if code == 0 {
        16000
    } else if code == 1 {
        32000
    } else if code == 2 {
        44100
    } else if code == 3 {
        48000
    } else {
        0
    }
}

/// The record that a codec made from these parameters holds.
pub open spec fn spec_init_sbc(
    frequency: Frequency,
    blocks: Blocks,
    channel_mode: ChannelMode,
    allocation_method: AllocationMethod,
    subbands: Subbands,
    byte_order: ByteOrder,
    bitpool_size: u8,
) -> SbcConfig {
    SbcConfig {
        flags: 0,
        frequency: frequency.spec_code(),
        blocks: blocks.spec_code(),
        subbands: subbands.spec_code(),
        mode: channel_mode.spec_code(),
        allocation: allocation_method.spec_code(),
        bitpool: bitpool_size,
        endian: byte_order.spec_code(),
    }
}

impl SbcConfig {
    /// Every code is one that a parameter enum gives, and no flag is set.
    pub open spec fn wf(self) -> bool {
        &&& self.flags == 0
        &&& self.frequency <= 3
        &&& self.blocks <= 3
        &&& self.subbands <= 1
        &&& self.mode <= 3
        &&& self.allocation <= 1
        &&& self.endian <= 1
    }

    /// The same record with another bit pool.
    pub open spec fn with_bitpool(self, bitpool: u8) -> SbcConfig {
        SbcConfig { bitpool, ..self }
    }

    /// Bytes of the fixed header and the scale factors of one frame.
    pub open spec fn spec_header_length(self) -> nat {
        4 + (4 * subband_count(self.subbands) * channel_count(self.mode)) / 8
    }

    /// Bytes of the audio samples of one frame, rounded up to whole bytes.
    /// Mono and dual channel code each channel apart; stereo codes both
    /// channels in one bit pool, and joint stereo adds one join bit per subband.
    pub open spec fn spec_payload_length(self) -> nat {
        let sb = subband_count(self.subbands);
        let bl = block_count(self.blocks);
        let ch = channel_count(self.mode);
        if ch == 1 || self.mode == MODE_DUAL_CHANNEL {
            (bl * ch * (self.bitpool as nat) + 7) / 8
        } else {
            ((if self.mode == MODE_JOINT_STEREO { sb } else { 0 }) + bl * (self.bitpool as nat) + 7) / 8
        }
    }

    /// Bytes of one encoded frame.
    pub open spec fn spec_frame_length(self) -> nat {
        self.spec_header_length() + self.spec_payload_length()
    }

    /// Microseconds of audio in one frame, rounded down; 0 for an unknown
    /// frequency code.
    pub open spec fn spec_frame_duration(self) -> nat {
        let hz = frequency_hz(self.frequency);
        if hz == 0 {
            0
        } else {
            (1000000 * block_count(self.blocks) * subband_count(self.subbands)) / hz
        }
    }

    /// Bytes of 16-bit PCM input that one frame encodes (or output that one
    /// frame decodes to).
    pub open spec fn spec_codesize(self) -> nat {
        subband_count(self.subbands) * block_count(self.blocks) * channel_count(self.mode) * 2
    }

    /// Bytes of one encoded frame.
    pub fn frame_length(&self) -> (n: usize)
        ensures
            n == self.spec_frame_length(),
    {
        let sb: u32 = if self.subbands != 0 { 8 } else { 4 };
        let bl: u32 = (4 + 4 * (self.blocks as u32)) % 256;
        let ch: u32 = if self.mode == MODE_MONO { 1 } else { 2 };
        let bp: u32 = self.bitpool as u32;
        assert(bl * bp <= 255 * 255) by (nonlinear_arith)
            requires
                bl < 256,
                bp < 256,
        ;
        let header: u32 = 4 + (4 * sb * ch) / 8;
        let payload: u32 = if ch == 1 || self.mode == MODE_DUAL_CHANNEL {
            assert(bl * ch * bp == ch * (bl * bp)) by (nonlinear_arith);
            (bl * ch * bp + 7) / 8
        } else {
            let join: u32 = if self.mode == MODE_JOINT_STEREO { sb } else { 0 };
            (join + bl * bp + 7) / 8
        };
        (header + payload) as usize
    }

    /// Microseconds of audio in one frame, rounded down; 0 for an unknown
    /// frequency code.
    pub fn frame_duration(&self) -> (d: u32)
        ensures
            d == self.spec_frame_duration(),
    {
        let hz: u64 = if self.frequency == 0 {
            16000
        } else if self.frequency == 1 {
            32000
        } else if self.frequency == 2 {
            44100
        } else if self.frequency == 3 {
            48000
        } else {
            return 0;
        };
        let sb: u64 = if self.subbands != 0 { 8 } else { 4 };
        let bl: u64 = (4 + 4 * (self.blocks as u64)) % 256;
        assert(1000000 * bl * sb <= 1000000 * 255 * 8) by (nonlinear_arith)
            requires
                bl < 256,
                sb <= 8,
        ;
        let d: u64 = (1000000 * bl * sb) / hz;
        assert(d <= 1000000 * 255 * 8 / 16000) by (nonlinear_arith)
            requires
                d == (1000000 * bl * sb) / (hz as int),
                1000000 * bl * sb <= 1000000 * 255 * 8,
                hz >= 16000,
        ;
        d as u32
    }

    /// Bytes of 16-bit PCM that one frame encodes or decodes to.
    pub fn codesize(&self) -> (n: usize)
        ensures
            n == self.spec_codesize(),
    {
        let sb: u32 = if self.subbands != 0 { 8 } else { 4 };
        let bl: u32 = (4 + 4 * (self.blocks as u32)) % 256;
        let ch: u32 = if self.mode == MODE_MONO { 1 } else { 2 };
        assert(sb * bl * ch * 2 <= 8 * 255 * 2 * 2) by (nonlinear_arith)
            requires
                sb <= 8,
                bl < 256,
                ch <= 2,
        ;
        (sb * bl * ch * 2) as usize
    }
}

/// The configuration record for the given codec parameters: each field holds
/// the code of its parameter, and no flag is set.
pub fn init_sbc(
    frequency: Frequency,
    blocks: Blocks,
    channel_mode: ChannelMode,
    allocation_method: AllocationMethod,
    subbands: Subbands,
    byte_order: ByteOrder,
    bitpool_size: u8,
) -> (sbc: SbcConfig)
    ensures
        sbc == spec_init_sbc(
            frequency,
            blocks,
            channel_mode,
            allocation_method,
            subbands,
            byte_order,
            bitpool_size,
        ),
        sbc.wf(),
{
    SbcConfig {
        flags: 0,
        frequency: frequency.code(),
        blocks: blocks.code(),
        subbands: subbands.code(),
        mode: channel_mode.code(),
        allocation: allocation_method.code(),
        bitpool: bitpool_size,
        endian: byte_order.code(),
    }
}

} // verus!
