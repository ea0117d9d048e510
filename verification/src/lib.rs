//! Decoder for the fixed-layout capture files written by a two-channel
//! digital oscilloscope.
//!
//! The crate turns the bytes of a capture into a [`record::File`] and, on
//! request, into a physically normalized [`normalize::Data`] record. Every
//! function is verified against a mathematical description of the on-disk
//! layout.

pub mod codes;
pub mod decode;
pub mod error;
pub mod layout;
pub mod normalize;
pub mod output;
pub mod profile;
pub mod record;
pub mod scale;
pub mod wire;
