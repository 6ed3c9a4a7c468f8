//! Properties of the configuration record and of the frame geometry that
//! hold for every codec.

use vstd::prelude::*;
use vstd::arithmetic::div_mod::lemma_div_is_ordered;
use crate::config::{spec_init_sbc, SbcConfig};
use crate::params::{AllocationMethod, Blocks, ByteOrder, ChannelMode, Frequency, Subbands};

verus! {

/// The record determines the parameters: two parameter sets that give the
/// same record are the same.
pub proof fn lemma_init_sbc_injective(
    f1: Frequency, b1: Blocks, m1: ChannelMode, a1: AllocationMethod, s1: Subbands, o1: ByteOrder, p1: u8,
    f2: Frequency, b2: Blocks, m2: ChannelMode, a2: AllocationMethod, s2: Subbands, o2: ByteOrder, p2: u8,
)
    requires
        spec_init_sbc(f1, b1, m1, a1, s1, o1, p1) == spec_init_sbc(f2, b2, m2, a2, s2, o2, p2),
    ensures
        f1 == f2,
        b1 == b2,
        m1 == m2,
        a1 == a2,
        s1 == s2,
        o1 == o2,
        p1 == p2,
{
    let c1 = spec_init_sbc(f1, b1, m1, a1, s1, o1, p1);
    let c2 = spec_init_sbc(f2, b2, m2, a2, s2, o2, p2);
    assert(c1.frequency == c2.frequency && c1.blocks == c2.blocks && c1.mode == c2.mode);
    assert(c1.allocation == c2.allocation && c1.subbands == c2.subbands && c1.endian == c2.endian);
}

/// The geometry of a codec in terms of its parameters: one frame carries
/// `blocks * subbands` samples per channel; its PCM is two bytes per sample
/// and channel; it lasts that many samples at the sampling rate; and it is
/// coded in a four-byte header, four bits of scale factor per subband and
/// channel, and the bit pool of each block (per channel in mono and dual
/// channel, shared in stereo, plus one join bit per subband in joint stereo).
pub proof fn lemma_geometry_of_parameters(
    f: Frequency, b: Blocks, m: ChannelMode, a: AllocationMethod, s: Subbands, o: ByteOrder, p: u8,
)
    ensures
        ({
            let c = spec_init_sbc(f, b, m, a, s, o, p);
            let sb = s.spec_count();
            let bl = b.spec_count();
            let ch = m.spec_channels();
            &&& c.spec_codesize() == sb * bl * ch * 2
            &&& c.spec_frame_duration() == (1000000 * bl * sb) / f.spec_hz()
            &&& c.spec_frame_length() == 4 + (4 * sb * ch) / 8 + (match m {
                ChannelMode::SBC_MODE_MONO => (bl * (p as nat) + 7) / 8,
                ChannelMode::SBC_MODE_DUAL_CHANNEL => (2 * bl * (p as nat) + 7) / 8,
                ChannelMode::SBC_MODE_STEREO => (bl * (p as nat) + 7) / 8,
                ChannelMode::SBC_MODE_JOINT_STEREO => (sb + bl * (p as nat) + 7) / 8,
            })
        }),
{
    let c = spec_init_sbc(f, b, m, a, s, o, p);
    let bl = b.spec_count();
    assert(crate::config::block_count(c.blocks) == bl);
    assert(crate::config::subband_count(c.subbands) == s.spec_count());
    assert(crate::config::channel_count(c.mode) == m.spec_channels());
    assert(crate::config::frequency_hz(c.frequency) == f.spec_hz());
    assert(bl * 2 * (p as nat) == 2 * bl * (p as nat)) by (nonlinear_arith);
    assert(bl * 1 * (p as nat) == bl * (p as nat)) by (nonlinear_arith);
}

/// A larger bit pool never gives a shorter frame.
pub proof fn lemma_frame_length_monotone_in_bitpool(c: SbcConfig, p1: u8, p2: u8)
    requires
        p1 <= p2,
    ensures
        c.with_bitpool(p1).spec_frame_length() <= c.with_bitpool(p2).spec_frame_length(),
{
    let c1 = c.with_bitpool(p1);
    let c2 = c.with_bitpool(p2);
    let sb = crate::config::subband_count(c.subbands);
    let bl = crate::config::block_count(c.blocks);
    let ch = crate::config::channel_count(c.mode);
    let q1 = p1 as nat;
    let q2 = p2 as nat;
    assert(bl * q1 <= bl * q2) by (nonlinear_arith)
        requires
            q1 <= q2,
    ;
    assert(bl * ch * q1 <= bl * ch * q2) by (nonlinear_arith)
        requires
            q1 <= q2,
    ;
    let j: nat = if c.mode == crate::config::MODE_JOINT_STEREO { sb } else { 0 };
    lemma_div_is_ordered((bl * ch * q1 + 7) as int, (bl * ch * q2 + 7) as int, 8);
    lemma_div_is_ordered((j + bl * q1 + 7) as int, (j + bl * q2 + 7) as int, 8);
    assert(c1.spec_payload_length() <= c2.spec_payload_length());
}

/// A frame is never shorter than its header and scale factors, and with a
/// nonzero bit pool a well-formed record's frame carries audio bytes beyond them.
pub proof fn lemma_frame_length_covers_header(c: SbcConfig)
    ensures
        c.spec_frame_length() >= c.spec_header_length(),
        c.wf() && c.bitpool > 0 ==> c.spec_frame_length() > c.spec_header_length(),
{
    let bl = crate::config::block_count(c.blocks);
    let ch = crate::config::channel_count(c.mode);
    let sb = crate::config::subband_count(c.subbands);
    let q = c.bitpool as nat;
    if c.wf() && c.bitpool > 0 {
        assert(bl >= 4);
        assert(bl * q >= 4) by (nonlinear_arith)
            requires
                bl >= 4,
                q >= 1,
        ;
        assert(bl * ch * q >= 4) by (nonlinear_arith)
            requires
                bl >= 4,
                q >= 1,
                ch >= 1,
        ;
        let j: nat = if c.mode == crate::config::MODE_JOINT_STEREO { sb } else { 0 };
        lemma_div_is_ordered(8int, (bl * ch * q + 7) as int, 8);
        lemma_div_is_ordered(8int, (j + bl * q + 7) as int, 8);
    }
}


/// The record made from a parameter set holds each parameter's byte code:
/// frequency 16, 32, 44.1, 48 kHz as 0 to 3; 4, 8, 12, 16 blocks as 0 to 3;
/// mono, dual channel, stereo, joint stereo as 0 to 3; loudness and SNR
/// allocation as 0 and 1; 4 and 8 subbands as 0 and 1; little- and big-endian
/// PCM as 0 and 1; the bit pool as given; and no flag.
pub proof fn lemma_init_sbc_codes(
    f: Frequency, b: Blocks, m: ChannelMode, a: AllocationMethod, s: Subbands, o: ByteOrder, p: u8,
)
    ensures
        ({
            let c = spec_init_sbc(f, b, m, a, s, o, p);
            &&& c.flags == 0
            &&& c.bitpool == p
            &&& (c.frequency == 0 <==> f == Frequency::SBC_FREQ_16000)
            &&& (c.frequency == 1 <==> f == Frequency::SBC_FREQ_32000)
            &&& (c.frequency == 2 <==> f == Frequency::SBC_FREQ_44100)
            &&& (c.frequency == 3 <==> f == Frequency::SBC_FREQ_48000)
            &&& (c.blocks == 0 <==> b == Blocks::SBC_BLK_4)
            &&& (c.blocks == 1 <==> b == Blocks::SBC_BLK_8)
            &&& (c.blocks == 2 <==> b == Blocks::SBC_BLK_12)
            &&& (c.blocks == 3 <==> b == Blocks::SBC_BLK_16)
            &&& (c.mode == 0 <==> m == ChannelMode::SBC_MODE_MONO)
            &&& (c.mode == 1 <==> m == ChannelMode::SBC_MODE_DUAL_CHANNEL)
            &&& (c.mode == 2 <==> m == ChannelMode::SBC_MODE_STEREO)
            &&& (c.mode == 3 <==> m == ChannelMode::SBC_MODE_JOINT_STEREO)
            &&& (c.allocation == 0 <==> a == AllocationMethod::SBC_AM_LOUDNESS)
            &&& (c.allocation == 1 <==> a == AllocationMethod::SBC_AM_SNR)
            &&& (c.subbands == 0 <==> s == Subbands::SBC_SB_4)
            &&& (c.subbands == 1 <==> s == Subbands::SBC_SB_8)
            &&& (c.endian == 0 <==> o == ByteOrder::SBC_LE)
            &&& (c.endian == 1 <==> o == ByteOrder::SBC_BE)
        }),
{
}

/// Code size of any record: subband code 0 means 4 subbands and any other 8;
/// block code `b` means `4 + 4 * b` blocks (kept to a byte); mode 0 is one
/// channel and any other two; each sample is two bytes.
pub proof fn lemma_codesize_of_record(c: SbcConfig)
    ensures
        c.spec_codesize() == (if c.subbands == 0 { 4int } else { 8int }) * ((4 + 4 * c.blocks) % 256)
            * (if c.mode == 0 { 1int } else { 2int }) * 2,
{
}

/// A second channel doubles the code size: a mono record (mode 0) encodes
/// half the PCM of the same record in any other mode.
pub proof fn lemma_codesize_second_channel(c: SbcConfig, mode: u8)
    requires
        c.mode == 0,
        mode != 0,
    ensures
        (SbcConfig { mode: mode, ..c }).spec_codesize() == 2 * c.spec_codesize(),
{
}

/// Frame duration of any record: frequency codes 0 to 3 are 16000, 32000,
/// 44100 and 48000 Hz, and the duration is the frame's samples per channel
/// (blocks times subbands) in whole microseconds at that rate; any other
/// frequency code gives 0.
pub proof fn lemma_frame_duration_of_record(c: SbcConfig)
    ensures
        ({
            let samples = ((4 + 4 * c.blocks) % 256) * (if c.subbands == 0 { 4int } else { 8int });
            &&& c.frequency == 0 ==> c.spec_frame_duration() == 1000000 * samples / 16000
            &&& c.frequency == 1 ==> c.spec_frame_duration() == 1000000 * samples / 32000
            &&& c.frequency == 2 ==> c.spec_frame_duration() == 1000000 * samples / 44100
            &&& c.frequency == 3 ==> c.spec_frame_duration() == 1000000 * samples / 48000
            &&& c.frequency > 3 ==> c.spec_frame_duration() == 0
        }),
{
    let bl = (4 + 4 * c.blocks) % 256;
    let sb: int = if c.subbands == 0 { 4int } else { 8int };
    assert(1000000 * bl * sb == 1000000 * (bl * sb)) by (nonlinear_arith);
}

/// Frame length of any record: a four-byte header and four bits of scale
/// factor per subband and channel, then the coded samples rounded up to whole
/// bytes. Mono (mode 0) codes one channel, dual channel (mode 1) two channels
/// apart, stereo (mode 2) both channels in one bit pool per block, and joint
/// stereo (mode 3) adds one join bit per subband to that.
pub proof fn lemma_frame_length_of_record(c: SbcConfig)
    ensures
        ({
            let sb: int = if c.subbands == 0 { 4int } else { 8int };
            let bl: int = (4 + 4 * c.blocks) % 256;
            let p: int = c.bitpool as int;
            &&& c.mode == 0 ==> c.spec_frame_length() == 4 + (4 * sb) / 8 + (bl * p + 7) / 8
            &&& c.mode == 1 ==> c.spec_frame_length() == 4 + (8 * sb) / 8 + (2 * bl * p + 7) / 8
            &&& c.mode == 2 ==> c.spec_frame_length() == 4 + (8 * sb) / 8 + (bl * p + 7) / 8
            &&& c.mode == 3 ==> c.spec_frame_length() == 4 + (8 * sb) / 8 + (sb + bl * p + 7) / 8
            &&& c.mode > 3 ==> c.spec_frame_length() == 4 + (8 * sb) / 8 + (bl * p + 7) / 8
        }),
{
    let bl: int = (4 + 4 * c.blocks) % 256;
    let p: int = c.bitpool as int;
    assert(bl * 2 * p == 2 * bl * p) by (nonlinear_arith);
    assert(bl * 1 * p == bl * p) by (nonlinear_arith);
}

} // verus!
