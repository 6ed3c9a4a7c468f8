//! SBC encoder and decoder handles: each holds its own configuration record,
//! made once from the codec parameters and never changed afterwards.

use vstd::prelude::*;
use crate::config::{init_sbc, spec_init_sbc, SbcConfig};
use crate::params::{AllocationMethod, Blocks, ByteOrder, ChannelMode, Frequency, Subbands};

verus! {

/// An SBC encoder.
pub struct SBCEncoder {
    sbc: SbcConfig,
}

/// An SBC decoder. It holds a record of its own: one record shared between
/// encoding and decoding gives garbage output.
pub struct SBCDecoder {
    sbc: SbcConfig,
}

impl View for SBCEncoder {
    type V = SbcConfig;

    closed spec fn view(&self) -> SbcConfig {
        self.sbc
    }
}

impl View for SBCDecoder {
    type V = SbcConfig;

    closed spec fn view(&self) -> SbcConfig {
        self.sbc
    }
}

impl SBCEncoder {
    /// An encoder configured with the given parameters.
    pub fn new(
        frequency: Frequency,
        blocks: Blocks,
        channel_mode: ChannelMode,
        allocation_method: AllocationMethod,
        subbands: Subbands,
        byte_order: ByteOrder,
        bitpool_size: u8,
    ) -> (enc: SBCEncoder)
        ensures
            enc@ == spec_init_sbc(
                frequency,
                blocks,
                channel_mode,
                allocation_method,
                subbands,
                byte_order,
                bitpool_size,
            ),
            enc@.wf(),
    {
        let sbc = init_sbc(
            frequency,
            blocks,
            channel_mode,
            allocation_method,
            subbands,
            byte_order,
            bitpool_size,
        );
        SBCEncoder { sbc }
    }

    /// The configuration record of the encoder.
    pub fn config(&self) -> (c: SbcConfig)
        ensures
            c == self@,
    {
        self.sbc
    }

    /// Bytes of one encoded frame.
    pub fn get_frame_length(&mut self) -> (n: usize)
        ensures
            n == old(self)@.spec_frame_length(),
            final(self)@ == old(self)@,
    {
        self.sbc.frame_length()
    }

    /// Microseconds of audio in one frame, rounded down.
    pub fn get_frame_duration(&mut self) -> (d: u32)
        ensures
            d == old(self)@.spec_frame_duration(),
            final(self)@ == old(self)@,
    {
        self.sbc.frame_duration()
    }

    /// Bytes of 16-bit PCM input that one frame encodes.
    pub fn get_codesize(&mut self) -> (n: usize)
        ensures
            n == old(self)@.spec_codesize(),
            final(self)@ == old(self)@,
    {
        self.sbc.codesize()
    }
}

impl SBCDecoder {
    /// A decoder configured with the given parameters.
    pub fn new(
        frequency: Frequency,
        blocks: Blocks,
        channel_mode: ChannelMode,
        allocation_method: AllocationMethod,
        subbands: Subbands,
        byte_order: ByteOrder,
        bitpool_size: u8,
    ) -> (dec: SBCDecoder)
        ensures
            dec@ == spec_init_sbc(
                frequency,
                blocks,
                channel_mode,
                allocation_method,
                subbands,
                byte_order,
                bitpool_size,
            ),
            dec@.wf(),
    {
        let sbc = init_sbc(
            frequency,
            blocks,
            channel_mode,
            allocation_method,
            subbands,
            byte_order,
            bitpool_size,
        );
        SBCDecoder { sbc }
    }

    /// The configuration record of the decoder.
    pub fn config(&self) -> (c: SbcConfig)
        ensures
            c == self@,
    {
        self.sbc
    }

    /// Bytes of one encoded frame of the configured parameters.
    pub fn get_frame_length(&mut self) -> (n: usize)
        ensures
            n == old(self)@.spec_frame_length(),
            final(self)@ == old(self)@,
    {
        self.sbc.frame_length()
    }

    /// Microseconds of audio in one frame of the configured parameters,
    /// rounded down.
    pub fn get_frame_duration(&mut self) -> (d: u32)
        ensures
            d == old(self)@.spec_frame_duration(),
            final(self)@ == old(self)@,
    {
        self.sbc.frame_duration()
    }

    /// Bytes of 16-bit PCM that one frame of the configured parameters
    /// decodes to.
    pub fn get_codesize(&mut self) -> (n: usize)
        ensures
            n == old(self)@.spec_codesize(),
            final(self)@ == old(self)@,
    {
        self.sbc.codesize()
    }
}

} // verus!
