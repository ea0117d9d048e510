//! Failures a decode can end in.

use vstd::prelude::*;

verus! {

/// The closed sets of device settings that a capture stores as small codes.
#[derive(Clone, Copy, Debug, PartialEq, Eq, Structural)]
pub enum EnumField {
    Coupling,
    Attenuation,
    ScrollSpeed,
    TriggerType,
    TriggerEdge,
    TriggerChannel,
    Trigger50,
}

/// Why a capture could not be decoded. Every failure ends the whole decode.
#[derive(Clone, Copy, Debug, PartialEq, Eq, Structural)]
pub enum DecodeError {
    /// The buffer ends before the byte the layout asks for.
    TruncatedInput { expected_bytes: u64, available_bytes: u64 },
    /// A scale code does not index its table.
    ScaleIndexOutOfRange { index: u16, table_len: usize },
    /// A setting code is outside the declared variants of its set.
    UnknownEnumCode { field_name: EnumField, raw_code: u16 },
}

} // verus!
