//! Configuration and frame geometry of a Bluetooth SBC (sub-band codec)
//! encoder and decoder.
//!
//! The codec settings are the six parameter enums of [`params`]; a codec
//! stores them as the byte codes of the SBC configuration record
//! ([`config::SbcConfig`]), and the sizes and timing of one frame follow
//! from that record ([`config`]).

pub mod params;
pub mod config;
pub mod codec;
pub mod laws;

pub use params::{AllocationMethod, Blocks, ByteOrder, ChannelMode, Frequency, Subbands};
pub use config::SbcConfig;
pub use codec::{SBCDecoder, SBCEncoder};
