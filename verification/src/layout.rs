//! The order of the fields in a capture.
//!
//! A region is a list of slots that a forward cursor reads one after the
//! other. Each slot skips a gap of uninterpreted bytes and then holds one
//! field. The header region opens the capture; a measurements region stands
//! wherever the profile puts it.

use vstd::prelude::*;
use crate::codes::{spec_variant_count, variant_count};
use crate::error::{DecodeError, EnumField};
use crate::profile::{FieldWidth, MeasurementLayout};
use crate::scale::{spec_table_len, table_len, Unit};

verus! {

/// What a slot holds.
#[derive(Clone, Copy, Debug, PartialEq, Eq, Structural)]
pub enum SlotKind {
    /// A number with no closed set behind it.
    Plain,
    /// A 32-bit statistic, whatever the field width of the profile.
    Wide,
    /// An index into the volts-per-division table.
    VoltScale,
    /// An index into the time-per-division table.
    TimeScale,
    Coupling,
    Attenuation,
    ScrollSpeed,
    TriggerType,
    TriggerEdge,
    TriggerChannel,
    Trigger50,
}

/// A list of slots that the cursor reads in one sweep.
#[derive(Clone, Copy, Debug, PartialEq, Eq, Structural)]
pub enum Region {
    /// The sixteen settings at the start of a capture.
    Header,
    /// The summary statistics of one channel.
    Measurements(MeasurementLayout),
}

/// Gaps before the header slots: scale, coupling and probe of channel 1 and
/// of channel 2, time scale, scroll speed, trigger type, edge and channel,
/// the zero levels of both channels, screen and grid brightness, trigger-50.
pub const HEADER_GAPS: [u8; 16] = [4, 2, 0, 2, 2, 0, 0, 0, 0, 0, 0, 52, 0, 32, 0, 0];

/// What the header slots hold.
pub const HEADER_KINDS: [SlotKind; 16] = [
    SlotKind::VoltScale,
    SlotKind::Coupling,
    SlotKind::Attenuation,
    SlotKind::VoltScale,
    SlotKind::Coupling,
    SlotKind::Attenuation,
    SlotKind::TimeScale,
    SlotKind::ScrollSpeed,
    SlotKind::TriggerType,
    SlotKind::TriggerEdge,
    SlotKind::TriggerChannel,
    SlotKind::Plain,
    SlotKind::Plain,
    SlotKind::Plain,
    SlotKind::Plain,
    SlotKind::Trigger50,
];

/// Gaps before the slots of a split measurements block: six amplitudes, the
/// high and the low half of the frequency, five timing statistics.
pub const SPLIT_GAPS: [u8; 13] = [2, 2, 2, 2, 2, 2, 0, 0, 2, 2, 2, 2, 2];

/// Gaps before the slots of a native measurements block: six amplitudes, the
/// frequency, five timing statistics.
pub const NATIVE_GAPS: [u8; 12] = [2, 2, 2, 2, 2, 2, 0, 0, 0, 0, 0, 0];

/// Number of slots in `region`.
pub open spec fn spec_slot_count(region: Region) -> nat {
    match region {
        Region::Header => 16,
        Region::Measurements(MeasurementLayout::SplitFrequency) => 13,
        Region::Measurements(MeasurementLayout::NativeFrequency) => 12,
    }
}

/// Bytes skipped before slot `k` of `region`.
pub open spec fn spec_slot_gap(region: Region, k: int) -> nat
    recommends
        0 <= k < spec_slot_count(region),
{
    match region {
        Region::Header => HEADER_GAPS[k] as nat,
        Region::Measurements(MeasurementLayout::SplitFrequency) => SPLIT_GAPS[k] as nat,
        Region::Measurements(MeasurementLayout::NativeFrequency) => NATIVE_GAPS[k] as nat,
    }
}

/// What slot `k` of `region` holds.
pub open spec fn spec_slot_kind(region: Region, k: int) -> SlotKind
    recommends
        0 <= k < spec_slot_count(region),
{
    match region {
        Region::Header => HEADER_KINDS[k],
        Region::Measurements(MeasurementLayout::SplitFrequency) => SlotKind::Plain,
        Region::Measurements(MeasurementLayout::NativeFrequency) => if k < 6 {
            SlotKind::Plain
        } else {
            SlotKind::Wide
        },
    }
}

/// Bytes that a slot of `kind` takes.
pub open spec fn spec_slot_size(kind: SlotKind, width: FieldWidth) -> nat {
    if kind == SlotKind::Wide {
        4
    } else {
        width.spec_bytes()
    }
}

/// Where the cursor stands, counted from the start of `region`, once it has
/// read the first `k` slots.
pub open spec fn cursor_after(region: Region, width: FieldWidth, k: int) -> nat
    decreases k,
{
    if k <= 0 {
        0
    } else {
        cursor_after(region, width, k - 1) + spec_slot_gap(region, k - 1) + spec_slot_size(
            spec_slot_kind(region, k - 1),
            width,
        )
    }
}

/// Where the field of slot `k` starts, counted from the start of `region`.
pub open spec fn slot_at(region: Region, width: FieldWidth, k: int) -> nat {
    cursor_after(region, width, k) + spec_slot_gap(region, k)
}

/// Bytes from the start of `region` to the end of its last slot.
pub open spec fn region_size(region: Region, width: FieldWidth) -> nat {
    cursor_after(region, width, spec_slot_count(region) as int)
}

/// The table that a slot of `kind` indexes, if it holds a scale code.
pub open spec fn spec_kind_unit(kind: SlotKind) -> Option<Unit> {
    match kind {
        SlotKind::VoltScale => Some(Unit::Volt),
        SlotKind::TimeScale => Some(Unit::Second),
        _ => None,
    }
}

/// The closed set that a slot of `kind` draws from, if it holds a setting.
pub open spec fn spec_kind_field(kind: SlotKind) -> Option<EnumField> {
    match kind {
        SlotKind::Coupling => Some(EnumField::Coupling),
        SlotKind::Attenuation => Some(EnumField::Attenuation),
        SlotKind::ScrollSpeed => Some(EnumField::ScrollSpeed),
        SlotKind::TriggerType => Some(EnumField::TriggerType),
        SlotKind::TriggerEdge => Some(EnumField::TriggerEdge),
        SlotKind::TriggerChannel => Some(EnumField::TriggerChannel),
        SlotKind::Trigger50 => Some(EnumField::Trigger50),
        _ => None,
    }
}

/// What is wrong with `value` as the content of a slot of `kind`: a scale
/// code that does not index its table, a setting code outside its set, or
/// nothing.
pub open spec fn code_fault(kind: SlotKind, value: int) -> Option<DecodeError> {
    if let Some(unit) = spec_kind_unit(kind) {
        if value >= spec_table_len(unit) {
            Some(
                DecodeError::ScaleIndexOutOfRange {
                    index: value as u16,
                    table_len: spec_table_len(unit) as usize,
                },
            )
        } else {
            None
        }
    } else if let Some(field) = spec_kind_field(kind) {
        if value >= spec_variant_count(field) {
            Some(DecodeError::UnknownEnumCode { field_name: field, raw_code: value as u16 })
        } else {
            None
        }
    } else {
        None
    }
}

/// Number of slots in `region`.
pub fn slot_count(region: Region) -> (count: usize)
    ensures
        count == spec_slot_count(region),
{
    match region {
        Region::Header => 16,
        Region::Measurements(MeasurementLayout::SplitFrequency) => 13,
        Region::Measurements(MeasurementLayout::NativeFrequency) => 12,
    }
}

/// Bytes skipped before slot `k` of `region`.
pub fn slot_gap(region: Region, k: usize) -> (gap: u64)
    requires
        k < spec_slot_count(region),
    ensures
        gap == spec_slot_gap(region, k as int),
        gap <= 255,
{
    match region {
        Region::Header => HEADER_GAPS[k] as u64,
        Region::Measurements(MeasurementLayout::SplitFrequency) => SPLIT_GAPS[k] as u64,
        Region::Measurements(MeasurementLayout::NativeFrequency) => NATIVE_GAPS[k] as u64,
    }
}

/// What slot `k` of `region` holds.
pub fn slot_kind(region: Region, k: usize) -> (kind: SlotKind)
    requires
        k < spec_slot_count(region),
    ensures
        kind == spec_slot_kind(region, k as int),
{
    match region {
        Region::Header => HEADER_KINDS[k],
        Region::Measurements(MeasurementLayout::SplitFrequency) => SlotKind::Plain,
        Region::Measurements(MeasurementLayout::NativeFrequency) => if k < 6 {
            SlotKind::Plain
        } else {
            SlotKind::Wide
        },
    }
}

/// The table that a slot of `kind` indexes, if it holds a scale code.
pub fn kind_unit(kind: SlotKind) -> (unit: Option<Unit>)
    ensures
        unit == spec_kind_unit(kind),
{
    match kind {
        SlotKind::VoltScale => Some(Unit::Volt),
        SlotKind::TimeScale => Some(Unit::Second),
        _ => None,
    }
}

/// The closed set that a slot of `kind` draws from, if it holds a setting.
pub fn kind_field(kind: SlotKind) -> (field: Option<EnumField>)
    ensures
        field == spec_kind_field(kind),
{
    match kind {
        SlotKind::Coupling => Some(EnumField::Coupling),
        SlotKind::Attenuation => Some(EnumField::Attenuation),
        SlotKind::ScrollSpeed => Some(EnumField::ScrollSpeed),
        SlotKind::TriggerType => Some(EnumField::TriggerType),
        SlotKind::TriggerEdge => Some(EnumField::TriggerEdge),
        SlotKind::TriggerChannel => Some(EnumField::TriggerChannel),
        SlotKind::Trigger50 => Some(EnumField::Trigger50),
        _ => None,
    }
}

/// Holds `value` against the closed set of a slot of `kind`.
pub fn check_code(kind: SlotKind, value: u16) -> (fault: Option<DecodeError>)
    ensures
        fault == code_fault(kind, value as int),
{
    if let Some(unit) = kind_unit(kind) {
        let len = table_len(unit);
        if value as usize >= len {
            return Some(DecodeError::ScaleIndexOutOfRange { index: value, table_len: len });
        }
    } else if let Some(field) = kind_field(kind) {
        if value >= variant_count(field) {
            return Some(DecodeError::UnknownEnumCode { field_name: field, raw_code: value });
        }
    }
    None
}

} // verus!
