//! Layout profiles: how one firmware generation lays a capture out on disk.
//!
//! The generations agree on the order of the fields and on the gaps between
//! them. They differ along the axes gathered here, and a decode follows one
//! profile from the first byte to the last.

use vstd::prelude::*;

verus! {

/// Width of every field that is not a 32-bit statistic.
#[derive(Clone, Copy, Debug, PartialEq, Eq, Structural)]
pub enum FieldWidth {
    /// 8-bit fields.
    Byte,
    /// 16-bit fields.
    Word,
}

/// Byte order a capture was written in.
#[derive(Clone, Copy, Debug, PartialEq, Eq, Structural)]
pub enum ByteOrder {
    /// Least significant byte first, on every machine.
    Little,
    /// The order of the machine that runs the decode.
    Native,
}

/// A byte order with nothing left to the machine.
#[derive(Clone, Copy, Debug, PartialEq, Eq, Structural)]
pub enum Endian {
    /// Least significant byte first.
    Little,
    /// Most significant byte first.
    Big,
}

/// How a measurements block stores the frequency and the timing statistics.
#[derive(Clone, Copy, Debug, PartialEq, Eq, Structural)]
pub enum MeasurementLayout {
    /// The frequency as two halves, high half first, and each timing
    /// statistic as one field behind a two-byte gap.
    SplitFrequency,
    /// The frequency and each timing statistic as one 32-bit field.
    NativeFrequency,
}

/// When scale and setting codes are held against their closed sets.
#[derive(Clone, Copy, Debug, PartialEq, Eq, Structural)]
pub enum CodeResolution {
    /// The decode stores the codes as found; normalization resolves them.
    Deferred,
    /// The decode checks each code as the cursor passes it.
    Inline,
}

/// The buffer a channel's trace is drawn from.
#[derive(Clone, Copy, Debug, PartialEq, Eq, Structural)]
pub enum TraceSource {
    /// The channel's own coarse buffer.
    OwnBuffer,
    /// The coarse buffer of channel 1.
    Channel1Buffer,
}

/// Absolute positions of the blocks that the cursor seeks to.
#[derive(Clone, Copy, Debug, PartialEq, Eq, Structural)]
pub struct Offsets {
    pub channel1_measurements_offset: u32,
    pub channel2_measurements_offset: u32,
    pub sample_block_offset: u32,
}

/// One on-disk variant of the capture format.
#[derive(Clone, Copy, Debug, PartialEq, Eq, Structural)]
pub struct LayoutProfile {
    pub field_width: FieldWidth,
    pub byte_order: ByteOrder,
    pub measurement_layout: MeasurementLayout,
    pub code_resolution: CodeResolution,
    /// Where the trace of channel 2 comes from. Plotting tools have long been
    /// fed a channel 2 trace computed from channel 1's coarse buffer;
    /// `Channel1Buffer` keeps that output, `OwnBuffer` draws channel 2 from
    /// its own samples.
    pub channel2_trace: TraceSource,
    pub offsets: Offsets,
}

impl FieldWidth {
    /// Bytes that one field of this width takes.
    pub open spec fn spec_bytes(self) -> nat {
        match self {
            FieldWidth::Byte => 1,
            FieldWidth::Word => 2,
        }
    }

    /// Bytes that one field of this width takes.
    pub fn bytes(self) -> (size: u64)
        ensures
            size == self.spec_bytes(),
    {
        match self {
            FieldWidth::Byte => 1,
            FieldWidth::Word => 2,
        }
    }
}

impl LayoutProfile {
    /// The profile of the common firmware: 16-bit little-endian fields, codes
    /// resolved after the decode, a split frequency, the measurements blocks
    /// at 208 and 256, the samples from 1000 on, and both traces drawn from
    /// channel 1's coarse buffer.
    pub open spec fn spec_standard() -> LayoutProfile {
        LayoutProfile {
            field_width: FieldWidth::Word,
            byte_order: ByteOrder::Little,
            measurement_layout: MeasurementLayout::SplitFrequency,
            code_resolution: CodeResolution::Deferred,
            channel2_trace: TraceSource::Channel1Buffer,
            offsets: Offsets {
                channel1_measurements_offset: 208,
                channel2_measurements_offset: 256,
                sample_block_offset: 1000,
            },
        }
    }

    /// The profile of the common firmware; see [`LayoutProfile::spec_standard`].
    pub fn standard() -> (profile: LayoutProfile)
        ensures
            profile == LayoutProfile::spec_standard(),
    {
        LayoutProfile {
            field_width: FieldWidth::Word,
            byte_order: ByteOrder::Little,
            measurement_layout: MeasurementLayout::SplitFrequency,
            code_resolution: CodeResolution::Deferred,
            channel2_trace: TraceSource::Channel1Buffer,
            offsets: Offsets {
                channel1_measurements_offset: 208,
                channel2_measurements_offset: 256,
                sample_block_offset: 1000,
            },
        }
    }
}

} // verus!
