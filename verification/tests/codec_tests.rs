use sbc::config::{init_sbc, SbcConfig};
use sbc::{AllocationMethod, Blocks, ByteOrder, ChannelMode, Frequency, SBCDecoder, SBCEncoder, Subbands};

fn encoder(
    frequency: Frequency,
    blocks: Blocks,
    mode: ChannelMode,
    subbands: Subbands,
    bitpool: u8,
) -> SBCEncoder {
    SBCEncoder::new(
        frequency,
        blocks,
        mode,
        AllocationMethod::SBC_AM_LOUDNESS,
        subbands,
        ByteOrder::SBC_LE,
        bitpool,
    )
}

#[test]
fn parameter_codes() {
    assert_eq!(Frequency::SBC_FREQ_16000.code(), 0x00);
    assert_eq!(Frequency::SBC_FREQ_32000.code(), 0x01);
    assert_eq!(Frequency::SBC_FREQ_44100.code(), 0x02);
    assert_eq!(Frequency::SBC_FREQ_48000.code(), 0x03);
    assert_eq!(Blocks::SBC_BLK_4.code(), 0x00);
    assert_eq!(Blocks::SBC_BLK_8.code(), 0x01);
    assert_eq!(Blocks::SBC_BLK_12.code(), 0x02);
    assert_eq!(Blocks::SBC_BLK_16.code(), 0x03);
    assert_eq!(ChannelMode::SBC_MODE_MONO.code(), 0x00);
    assert_eq!(ChannelMode::SBC_MODE_DUAL_CHANNEL.code(), 0x01);
    assert_eq!(ChannelMode::SBC_MODE_STEREO.code(), 0x02);
    assert_eq!(ChannelMode::SBC_MODE_JOINT_STEREO.code(), 0x03);
    assert_eq!(AllocationMethod::SBC_AM_LOUDNESS.code(), 0x00);
    assert_eq!(AllocationMethod::SBC_AM_SNR.code(), 0x01);
    assert_eq!(Subbands::SBC_SB_4.code(), 0x00);
    assert_eq!(Subbands::SBC_SB_8.code(), 0x01);
    assert_eq!(ByteOrder::SBC_LE.code(), 0x00);
    assert_eq!(ByteOrder::SBC_BE.code(), 0x01);
}

#[test]
fn init_sbc_stores_codes() {
    let c = init_sbc(
        Frequency::SBC_FREQ_48000,
        Blocks::SBC_BLK_12,
        ChannelMode::SBC_MODE_DUAL_CHANNEL,
        AllocationMethod::SBC_AM_SNR,
        Subbands::SBC_SB_8,
        ByteOrder::SBC_BE,
        64,
    );
    assert_eq!(
        c,
        SbcConfig {
            flags: 0,
            frequency: 3,
            blocks: 2,
            subbands: 1,
            mode: 1,
            allocation: 1,
            bitpool: 64,
            endian: 1,
        }
    );
}

#[test]
fn encoder_and_decoder_hold_the_same_record() {
    let enc = SBCEncoder::new(
        Frequency::SBC_FREQ_44100,
        Blocks::SBC_BLK_16,
        ChannelMode::SBC_MODE_STEREO,
        AllocationMethod::SBC_AM_LOUDNESS,
        Subbands::SBC_SB_4,
        ByteOrder::SBC_LE,
        44,
    );
    let dec = SBCDecoder::new(
        Frequency::SBC_FREQ_44100,
        Blocks::SBC_BLK_16,
        ChannelMode::SBC_MODE_STEREO,
        AllocationMethod::SBC_AM_LOUDNESS,
        Subbands::SBC_SB_4,
        ByteOrder::SBC_LE,
        44,
    );
    assert_eq!(enc.config(), dec.config());
}

#[test]
fn stereo_geometry() {
    let mut enc = encoder(
        Frequency::SBC_FREQ_44100,
        Blocks::SBC_BLK_16,
        ChannelMode::SBC_MODE_STEREO,
        Subbands::SBC_SB_4,
        44,
    );
    let before = enc.config();
    assert_eq!(enc.get_codesize(), 256);
    assert_eq!(enc.get_frame_length(), 96);
    assert_eq!(enc.get_frame_duration(), 1451);
    assert_eq!(enc.config(), before);
}

#[test]
fn joint_stereo_geometry() {
    let mut enc = encoder(
        Frequency::SBC_FREQ_48000,
        Blocks::SBC_BLK_16,
        ChannelMode::SBC_MODE_JOINT_STEREO,
        Subbands::SBC_SB_8,
        53,
    );
    assert_eq!(enc.get_codesize(), 512);
    assert_eq!(enc.get_frame_length(), 119);
    assert_eq!(enc.get_frame_duration(), 2666);
}

#[test]
fn mono_geometry() {
    let mut dec = SBCDecoder::new(
        Frequency::SBC_FREQ_16000,
        Blocks::SBC_BLK_8,
        ChannelMode::SBC_MODE_MONO,
        AllocationMethod::SBC_AM_SNR,
        Subbands::SBC_SB_4,
        ByteOrder::SBC_BE,
        10,
    );
    let before = dec.config();
    assert_eq!(dec.get_codesize(), 64);
    assert_eq!(dec.get_frame_length(), 16);
    assert_eq!(dec.get_frame_duration(), 2000);
    assert_eq!(dec.config(), before);
}

#[test]
fn dual_channel_geometry() {
    let mut enc = encoder(
        Frequency::SBC_FREQ_32000,
        Blocks::SBC_BLK_12,
        ChannelMode::SBC_MODE_DUAL_CHANNEL,
        Subbands::SBC_SB_8,
        20,
    );
    assert_eq!(enc.get_codesize(), 384);
    assert_eq!(enc.get_frame_length(), 72);
    assert_eq!(enc.get_frame_duration(), 3000);
}

#[test]
fn zero_bitpool_frame_is_header_only() {
    let mut enc = encoder(
        Frequency::SBC_FREQ_44100,
        Blocks::SBC_BLK_4,
        ChannelMode::SBC_MODE_JOINT_STEREO,
        Subbands::SBC_SB_8,
        0,
    );
    // 4 header bytes, 8 bytes of scale factors, one byte of join bits
    assert_eq!(enc.get_frame_length(), 13);
    let mut mono = encoder(
        Frequency::SBC_FREQ_44100,
        Blocks::SBC_BLK_4,
        ChannelMode::SBC_MODE_MONO,
        Subbands::SBC_SB_4,
        0,
    );
    assert_eq!(mono.get_frame_length(), 6);
}

#[test]
fn frame_length_grows_with_bitpool() {
    let mut previous = 0;
    for bitpool in 1..64 {
        let mut enc = encoder(
            Frequency::SBC_FREQ_44100,
            Blocks::SBC_BLK_16,
            ChannelMode::SBC_MODE_STEREO,
            Subbands::SBC_SB_4,
            bitpool,
        );
        let len = enc.get_frame_length();
        assert!(len >= previous);
        assert!(len > 4 + 4);
        previous = len;
    }
    assert_eq!(previous, 4 + 4 + (16 * 63 + 7) / 8);
}

#[test]
fn unknown_codes_in_a_record() {
    let c = SbcConfig {
        flags: 0,
        frequency: 7,
        blocks: 63,
        subbands: 5,
        mode: 9,
        allocation: 0,
        bitpool: 255,
        endian: 0,
    };
    // an unknown frequency has no duration; block code 63 wraps to zero blocks
    assert_eq!(c.frame_duration(), 0);
    assert_eq!(c.codesize(), 0);
    assert_eq!(c.frame_length(), 4 + 8 + 0);
    let d = SbcConfig { blocks: 3, frequency: 3, ..c };
    assert_eq!(d.codesize(), 8 * 16 * 2 * 2);
    assert_eq!(d.frame_length(), 12 + (16 * 255 + 7) / 8);
    assert_eq!(d.frame_duration(), 2666);
}
