//! The capture decoder: one forward cursor over the bytes of a capture.
//!
//! The cursor reads the header slots from the first byte on, seeks to the
//! measurements block of channel 1 and to that of channel 2, then seeks to
//! the sample block and reads the four buffers. The first fault on that path
//! ends the decode; there is no partial record.

use vstd::prelude::*;
use crate::error::DecodeError;
use crate::layout::{
    check_code, code_fault, cursor_after, region_size, slot_at, slot_count, slot_gap, slot_kind,
    spec_slot_count, spec_slot_kind, spec_slot_size, Region, SlotKind,
};
use crate::profile::{
    ByteOrder, CodeResolution, Endian, FieldWidth, LayoutProfile, MeasurementLayout,
};
use crate::record::{
    File, FileView, Header, Measurements, RawFrequency, COARSE_SAMPLES, FINE_SAMPLES,
};
use crate::wire::{
    field_value, native_endian, read_field, read_run, read_wide, run_values, truncated,
    wide_value, word_value,
};

verus! {

/// The value in slot `k` of the region that starts at `base`.
pub open spec fn slot_value(
    bytes: Seq<u8>,
    base: int,
    region: Region,
    width: FieldWidth,
    endian: Endian,
    k: int,
) -> int {
    let at = base + slot_at(region, width, k);
    if spec_slot_kind(region, k) == SlotKind::Wide {
        wide_value(bytes, at, endian)
    } else {
        field_value(bytes, at, width, endian)
    }
}

/// The position just behind slot `k` of the region that starts at `base`.
pub open spec fn slot_end(base: int, region: Region, width: FieldWidth, k: int) -> int {
    base + slot_at(region, width, k) + spec_slot_size(spec_slot_kind(region, k), width)
}

/// What stops the cursor at slot `k`: the buffer ends before the slot does,
/// or the profile resolves codes inline and the slot holds a code outside
/// its closed set.
pub open spec fn slot_fault(
    bytes: Seq<u8>,
    base: int,
    region: Region,
    profile: LayoutProfile,
    endian: Endian,
    k: int,
) -> Option<DecodeError> {
    if slot_end(base, region, profile.field_width, k) > bytes.len() {
        Some(truncated(slot_end(base, region, profile.field_width, k), bytes.len()))
    } else if profile.code_resolution == CodeResolution::Inline {
        code_fault(
            spec_slot_kind(region, k),
            slot_value(bytes, base, region, profile.field_width, endian, k),
        )
    } else {
        None
    }
}

/// The first fault among the slots of a region from slot `k` on.
pub open spec fn region_fault_from(
    bytes: Seq<u8>,
    base: int,
    region: Region,
    profile: LayoutProfile,
    endian: Endian,
    k: int,
) -> Option<DecodeError>
    decreases spec_slot_count(region) - k,
{
    if k < 0 || k >= spec_slot_count(region) {
        None
    } else if slot_fault(bytes, base, region, profile, endian, k) is Some {
        slot_fault(bytes, base, region, profile, endian, k)
    } else {
        region_fault_from(bytes, base, region, profile, endian, k + 1)
    }
}

/// The first fault among the slots of the region that starts at `base`.
pub open spec fn region_fault(
    bytes: Seq<u8>,
    base: int,
    region: Region,
    profile: LayoutProfile,
    endian: Endian,
) -> Option<DecodeError> {
    region_fault_from(bytes, base, region, profile, endian, 0)
}

/// The measurements block that starts at `base`, slot by slot.
pub open spec fn spec_measurements(
    bytes: Seq<u8>,
    base: int,
    profile: LayoutProfile,
    endian: Endian,
) -> Measurements {
    let region = Region::Measurements(profile.measurement_layout);
    let width = profile.field_width;
    let timing: int = match profile.measurement_layout {
        MeasurementLayout::SplitFrequency => 8,
        MeasurementLayout::NativeFrequency => 7,
    };
    Measurements {
        vmax: slot_value(bytes, base, region, width, endian, 0) as u16,
        vmin: slot_value(bytes, base, region, width, endian, 1) as u16,
        vavg: slot_value(bytes, base, region, width, endian, 2) as u16,
        vrms: slot_value(bytes, base, region, width, endian, 3) as u16,
        vpp: slot_value(bytes, base, region, width, endian, 4) as u16,
        vp: slot_value(bytes, base, region, width, endian, 5) as u16,
        frequency: match profile.measurement_layout {
            MeasurementLayout::SplitFrequency => RawFrequency::Split {
                high: slot_value(bytes, base, region, width, endian, 6) as u16,
                low: slot_value(bytes, base, region, width, endian, 7) as u16,
            },
            MeasurementLayout::NativeFrequency => RawFrequency::Native {
                value: slot_value(bytes, base, region, width, endian, 6) as u32,
            },
        },
        cycle_ns: slot_value(bytes, base, region, width, endian, timing) as u32,
        time_plus_ns: slot_value(bytes, base, region, width, endian, timing + 1) as u32,
        time_minus_ns: slot_value(bytes, base, region, width, endian, timing + 2) as u32,
        duty_plus_percentage: slot_value(bytes, base, region, width, endian, timing + 3) as u32,
        duty_minus_percentage: slot_value(bytes, base, region, width, endian, timing + 4) as u32,
    }
}

/// The header of a capture, slot by slot, with both measurements blocks.
pub open spec fn spec_header(bytes: Seq<u8>, profile: LayoutProfile, endian: Endian) -> Header {
    let width = profile.field_width;
    Header {
        channel1_scale: slot_value(bytes, 0, Region::Header, width, endian, 0) as u16,
        channel1_coupling: slot_value(bytes, 0, Region::Header, width, endian, 1) as u16,
        channel1_probe: slot_value(bytes, 0, Region::Header, width, endian, 2) as u16,
        channel2_scale: slot_value(bytes, 0, Region::Header, width, endian, 3) as u16,
        channel2_coupling: slot_value(bytes, 0, Region::Header, width, endian, 4) as u16,
        channel2_probe: slot_value(bytes, 0, Region::Header, width, endian, 5) as u16,
        time_scale: slot_value(bytes, 0, Region::Header, width, endian, 6) as u16,
        scroll_speed: slot_value(bytes, 0, Region::Header, width, endian, 7) as u16,
        trigger_type: slot_value(bytes, 0, Region::Header, width, endian, 8) as u16,
        trigger_edge: slot_value(bytes, 0, Region::Header, width, endian, 9) as u16,
        trigger_channel: slot_value(bytes, 0, Region::Header, width, endian, 10) as u16,
        channel1_offset: slot_value(bytes, 0, Region::Header, width, endian, 11) as u16,
        channel2_offset: slot_value(bytes, 0, Region::Header, width, endian, 12) as u16,
        screen_brightness: slot_value(bytes, 0, Region::Header, width, endian, 13) as u16,
        grid_brightness: slot_value(bytes, 0, Region::Header, width, endian, 14) as u16,
        trigger_50: slot_value(bytes, 0, Region::Header, width, endian, 15) as u16,
        channel1_measurements: spec_measurements(
            bytes,
            profile.offsets.channel1_measurements_offset as int,
            profile,
            endian,
        ),
        channel2_measurements: spec_measurements(
            bytes,
            profile.offsets.channel2_measurements_offset as int,
            profile,
            endian,
        ),
    }
}

/// The first fault on the cursor's way through the header and the two
/// measurements blocks.
pub open spec fn header_fault(bytes: Seq<u8>, profile: LayoutProfile, endian: Endian) -> Option<
    DecodeError,
> {
    let block = Region::Measurements(profile.measurement_layout);
    if region_fault(bytes, 0, Region::Header, profile, endian) is Some {
        region_fault(bytes, 0, Region::Header, profile, endian)
    } else if region_fault(
        bytes,
        profile.offsets.channel1_measurements_offset as int,
        block,
        profile,
        endian,
    ) is Some {
        region_fault(
            bytes,
            profile.offsets.channel1_measurements_offset as int,
            block,
            profile,
            endian,
        )
    } else {
        region_fault(
            bytes,
            profile.offsets.channel2_measurements_offset as int,
            block,
            profile,
            endian,
        )
    }
}

/// Samples in buffer `run`, counted in the order the buffers are stored.
pub open spec fn run_len(run: int) -> nat {
    if run < 2 {
        1500
    } else {
        750
    }
}

/// Samples stored before buffer `run`.
pub open spec fn samples_before(run: int) -> nat {
    if run <= 0 {
        0
    } else if run == 1 {
        1500
    } else if run == 2 {
        3000
    } else if run == 3 {
        3750
    } else {
        4500
    }
}

/// Where buffer `run` starts.
pub open spec fn run_start(profile: LayoutProfile, run: int) -> int {
    profile.offsets.sample_block_offset + samples_before(run) * profile.field_width.spec_bytes()
}

/// The first buffer that the capture ends in, as the truncation that names
/// the end of that buffer.
pub open spec fn samples_fault(bytes: Seq<u8>, profile: LayoutProfile) -> Option<DecodeError> {
    if run_start(profile, 1) > bytes.len() {
        Some(truncated(run_start(profile, 1), bytes.len()))
    } else if run_start(profile, 2) > bytes.len() {
        Some(truncated(run_start(profile, 2), bytes.len()))
    } else if run_start(profile, 3) > bytes.len() {
        Some(truncated(run_start(profile, 3), bytes.len()))
    } else if run_start(profile, 4) > bytes.len() {
        Some(truncated(run_start(profile, 4), bytes.len()))
    } else {
        None
    }
}

/// Buffer `run` of a capture.
pub open spec fn spec_samples(bytes: Seq<u8>, profile: LayoutProfile, endian: Endian, run: int)
    -> Seq<u16> {
    run_values(bytes, run_start(profile, run), run_len(run), profile.field_width, endian)
}

/// What the bytes of a capture decode to under a profile and a byte order:
/// the first fault on the cursor's way, or the record of every field at its
/// place.
pub open spec fn spec_decode(bytes: Seq<u8>, profile: LayoutProfile, endian: Endian) -> Result<
    FileView,
    DecodeError,
> {
    if header_fault(bytes, profile, endian) is Some {
        Err(header_fault(bytes, profile, endian)->Some_0)
    } else if samples_fault(bytes, profile) is Some {
        Err(samples_fault(bytes, profile)->Some_0)
    } else {
        Ok(
            FileView {
                header: spec_header(bytes, profile, endian),
                channel11: spec_samples(bytes, profile, endian, 0),
                channel21: spec_samples(bytes, profile, endian, 1),
                channel12: spec_samples(bytes, profile, endian, 2),
                channel22: spec_samples(bytes, profile, endian, 3),
            },
        )
    }
}

/// Whether `outcome` is `expected` with its buffers held in vectors.
pub open spec fn decoded_as(outcome: Result<File, DecodeError>, expected: Result<
    FileView,
    DecodeError,
>) -> bool {
    match outcome {
        Ok(file) => expected == Ok::<FileView, DecodeError>(file@),
        Err(fault) => expected == Err::<FileView, DecodeError>(fault),
    }
}

/// A slot ends at most 259 bytes behind the slot before it.
proof fn lemma_cursor_bound(region: Region, width: FieldWidth, k: int)
    requires
        0 <= k <= spec_slot_count(region),
    ensures
        cursor_after(region, width, k) <= 259 * k,
    decreases k,
{
    if k > 0 {
        lemma_cursor_bound(region, width, k - 1);
    }
}

/// Sweeps the cursor over the region that starts at `base` and returns the
/// value of every slot, or the first fault.
pub fn read_region(
    bytes: &[u8],
    base: u32,
    region: Region,
    profile: &LayoutProfile,
    endian: Endian,
) -> (outcome: Result<Vec<u32>, DecodeError>)
    ensures
        match outcome {
            Ok(values) => {
                &&& region_fault(bytes@, base as int, region, *profile, endian) is None
                &&& values@.len() == spec_slot_count(region)
                &&& forall|k: int|
                    0 <= k < spec_slot_count(region) ==> values@[k] == slot_value(
                        bytes@,
                        base as int,
                        region,
                        profile.field_width,
                        endian,
                        k,
                    )
            },
            Err(fault) => region_fault(bytes@, base as int, region, *profile, endian) == Some(
                fault,
            ),
        },
{
    let width = profile.field_width;
    let count = slot_count(region);
    let mut values: Vec<u32> = Vec::new();
    let mut position: u64 = base as u64;
    let mut k: usize = 0;
    while k < count
        invariant
            k <= count,
            count == spec_slot_count(region),
            width == profile.field_width,
            position == base + cursor_after(region, width, k as int),
            values@.len() == k,
            forall|j: int|
                0 <= j < k ==> values@[j] == slot_value(
                    bytes@,
                    base as int,
                    region,
                    width,
                    endian,
                    j,
                ),
            region_fault(bytes@, base as int, region, *profile, endian) == region_fault_from(
                bytes@,
                base as int,
                region,
                *profile,
                endian,
                k as int,
            ),
        decreases count - k,
    {
        proof {
            lemma_cursor_bound(region, width, k as int);
        }
        let kind = slot_kind(region, k);
        let at = position + slot_gap(region, k);
        let value: u32 = match kind {
            SlotKind::Wide => match read_wide(bytes, at, endian) {
                Ok(value) => value,
                Err(fault) => return Err(fault),
            },
            _ => {
                let value = match read_field(bytes, at, width, endian) {
                    Ok(value) => value,
                    Err(fault) => return Err(fault),
                };
                if let CodeResolution::Inline = profile.code_resolution {
                    if let Some(fault) = check_code(kind, value) {
                        return Err(fault);
                    }
                }
                value as u32
            },
        };
        values.push(value);
        position = at + match kind {
            SlotKind::Wide => 4,
            _ => width.bytes(),
        };
        k = k + 1;
    }
    Ok(values)
}

/// Decodes the measurements block that starts at `base`.
pub fn decode_measurements(bytes: &[u8], base: u32, profile: &LayoutProfile, endian: Endian) -> (outcome:
    Result<Measurements, DecodeError>)
    ensures
        match outcome {
            Ok(block) => {
                &&& region_fault(
                    bytes@,
                    base as int,
                    Region::Measurements(profile.measurement_layout),
                    *profile,
                    endian,
                ) is None
                &&& block == spec_measurements(bytes@, base as int, *profile, endian)
            },
            Err(fault) => region_fault(
                bytes@,
                base as int,
                Region::Measurements(profile.measurement_layout),
                *profile,
                endian,
            ) == Some(fault),
        },
{
    let region = Region::Measurements(profile.measurement_layout);
    let values = match read_region(bytes, base, region, profile, endian) {
        Ok(values) => values,
        Err(fault) => return Err(fault),
    };
    let (frequency, timing) = match profile.measurement_layout {
        MeasurementLayout::SplitFrequency => (
            RawFrequency::Split { high: values[6] as u16, low: values[7] as u16 },
            8usize,
        ),
        MeasurementLayout::NativeFrequency => (RawFrequency::Native { value: values[6] }, 7usize),
    };
    Ok(
        Measurements {
            vmax: values[0] as u16,
            vmin: values[1] as u16,
            vavg: values[2] as u16,
            vrms: values[3] as u16,
            vpp: values[4] as u16,
            vp: values[5] as u16,
            frequency,
            cycle_ns: values[timing],
            time_plus_ns: values[timing + 1],
            time_minus_ns: values[timing + 2],
            duty_plus_percentage: values[timing + 3],
            duty_minus_percentage: values[timing + 4],
        },
    )
}

/// Decodes the header: the sixteen settings from the first byte on, then
/// the measurements block of each channel at the offset the profile gives.
pub fn decode_header(bytes: &[u8], profile: &LayoutProfile, endian: Endian) -> (outcome: Result<
    Header,
    DecodeError,
>)
    ensures
        match outcome {
            Ok(header) => header_fault(bytes@, *profile, endian) is None && header == spec_header(
                bytes@,
                *profile,
                endian,
            ),
            Err(fault) => header_fault(bytes@, *profile, endian) == Some(fault),
        },
{
    let values = match read_region(bytes, 0, Region::Header, profile, endian) {
        Ok(values) => values,
        Err(fault) => return Err(fault),
    };
    let channel1_measurements = match decode_measurements(
        bytes,
        profile.offsets.channel1_measurements_offset,
        profile,
        endian,
    ) {
        Ok(block) => block,
        Err(fault) => return Err(fault),
    };
    let channel2_measurements = match decode_measurements(
        bytes,
        profile.offsets.channel2_measurements_offset,
        profile,
        endian,
    ) {
        Ok(block) => block,
        Err(fault) => return Err(fault),
    };
    Ok(
        Header {
            channel1_scale: values[0] as u16,
            channel1_coupling: values[1] as u16,
            channel1_probe: values[2] as u16,
            channel2_scale: values[3] as u16,
            channel2_coupling: values[4] as u16,
            channel2_probe: values[5] as u16,
            time_scale: values[6] as u16,
            scroll_speed: values[7] as u16,
            trigger_type: values[8] as u16,
            trigger_edge: values[9] as u16,
            trigger_channel: values[10] as u16,
            channel1_offset: values[11] as u16,
            channel2_offset: values[12] as u16,
            screen_brightness: values[13] as u16,
            grid_brightness: values[14] as u16,
            trigger_50: values[15] as u16,
            channel1_measurements,
            channel2_measurements,
        },
    )
}

/// Decodes a capture under a profile, reading multi-byte fields in the
/// byte order `endian`.
pub fn decode_with(bytes: &[u8], profile: &LayoutProfile, endian: Endian) -> (outcome: Result<
    File,
    DecodeError,
>)
    ensures
        decoded_as(outcome, spec_decode(bytes@, *profile, endian)),
{
    let header = match decode_header(bytes, profile, endian) {
        Ok(header) => header,
        Err(fault) => return Err(fault),
    };
    let width = profile.field_width;
    let size = width.bytes();
    let start = profile.offsets.sample_block_offset as u64;
    let channel11 = match read_run(bytes, start, COARSE_SAMPLES, width, endian) {
        Ok(samples) => samples,
        Err(fault) => return Err(fault),
    };
    let channel21 = match read_run(bytes, start + 1500 * size, COARSE_SAMPLES, width, endian) {
        Ok(samples) => samples,
        Err(fault) => return Err(fault),
    };
    let channel12 = match read_run(bytes, start + 3000 * size, FINE_SAMPLES, width, endian) {
        Ok(samples) => samples,
        Err(fault) => return Err(fault),
    };
    let channel22 = match read_run(bytes, start + 3750 * size, FINE_SAMPLES, width, endian) {
        Ok(samples) => samples,
        Err(fault) => return Err(fault),
    };
    Ok(File { header, channel11, channel21, channel12, channel22 })
}

/// Decodes a capture under a profile.
///
/// Under [`ByteOrder::Little`] the outcome is that of little-endian reading.
/// Under [`ByteOrder::Native`] the machine settles the byte order once, for
/// the whole decode.
pub fn decode(bytes: &[u8], profile: &LayoutProfile) -> (outcome: Result<File, DecodeError>)
    ensures
        profile.byte_order == ByteOrder::Little ==> decoded_as(
            outcome,
            spec_decode(bytes@, *profile, Endian::Little),
        ),
        decoded_as(outcome, spec_decode(bytes@, *profile, Endian::Little)) || decoded_as(
            outcome,
            spec_decode(bytes@, *profile, Endian::Big),
        ),
{
    let endian = match profile.byte_order {
        ByteOrder::Little => Endian::Little,
        ByteOrder::Native => native_endian(),
    };
    decode_with(bytes, profile, endian)
}

/// The larger of two lengths.
pub open spec fn longer(a: int, b: int) -> int {
    if a >= b {
        a
    } else {
        b
    }
}

/// Bytes that a capture needs under `profile`: the end of whichever of the
/// header, the two measurements blocks and the sample block reaches furthest.
pub open spec fn layout_extent(profile: LayoutProfile) -> int {
    let width = profile.field_width;
    let block = region_size(Region::Measurements(profile.measurement_layout), width);
    longer(
        longer(
            region_size(Region::Header, width) as int,
            run_start(profile, 4),
        ),
        longer(
            profile.offsets.channel1_measurements_offset + block,
            profile.offsets.channel2_measurements_offset + block,
        ),
    )
}

/// The cursor only moves forward within a region.
pub proof fn lemma_cursor_monotonic(region: Region, width: FieldWidth, i: int, j: int)
    requires
        0 <= i <= j,
    ensures
        cursor_after(region, width, i) <= cursor_after(region, width, j),
    decreases j - i,
{
    if i < j {
        lemma_cursor_monotonic(region, width, i, j - 1);
    }
}

/// With codes left for later, only a short buffer stops the cursor: a
/// region reads through exactly when the buffer reaches its end, and every
/// fault is a truncation.
pub proof fn lemma_region_deferred(
    bytes: Seq<u8>,
    base: int,
    region: Region,
    profile: LayoutProfile,
    endian: Endian,
    k: int,
)
    requires
        profile.code_resolution == CodeResolution::Deferred,
        0 <= k < spec_slot_count(region),
    ensures
        region_fault_from(bytes, base, region, profile, endian, k) is None <==> base
            + region_size(region, profile.field_width) <= bytes.len(),
        region_fault_from(bytes, base, region, profile, endian, k) matches Some(fault)
            ==> fault is TruncatedInput,
    decreases spec_slot_count(region) - k,
{
    let width = profile.field_width;
    let count = spec_slot_count(region) as int;
    assert(slot_end(base, region, width, k) == base + cursor_after(region, width, k + 1));
    lemma_cursor_monotonic(region, width, k + 1, count);
    if k + 1 < count {
        lemma_region_deferred(bytes, base, region, profile, endian, k + 1);
    }
}

/// The four sample buffers follow each other.
pub proof fn lemma_runs_in_order(profile: LayoutProfile)
    ensures
        run_start(profile, 0) == profile.offsets.sample_block_offset,
        run_start(profile, 0) < run_start(profile, 1) < run_start(profile, 2) < run_start(
            profile,
            3,
        ) < run_start(profile, 4),
        run_start(profile, 4) == profile.offsets.sample_block_offset + 4500
            * profile.field_width.spec_bytes(),
{
    let size = profile.field_width.spec_bytes();
    assert(size == 1 || size == 2);
}

/// With codes left for later, a capture decodes exactly when it is as long
/// as its layout reaches, and a shorter one fails as truncated.
pub proof fn law_deferred_decode_needs_length_only(
    bytes: Seq<u8>,
    profile: LayoutProfile,
    endian: Endian,
)
    requires
        profile.code_resolution == CodeResolution::Deferred,
    ensures
        spec_decode(bytes, profile, endian) is Ok <==> bytes.len() >= layout_extent(profile),
        spec_decode(bytes, profile, endian) matches Err(fault) ==> fault is TruncatedInput,
{
    let block = Region::Measurements(profile.measurement_layout);
    lemma_runs_in_order(profile);
    lemma_region_deferred(bytes, 0, Region::Header, profile, endian, 0);
    lemma_region_deferred(
        bytes,
        profile.offsets.channel1_measurements_offset as int,
        block,
        profile,
        endian,
        0,
    );
    lemma_region_deferred(
        bytes,
        profile.offsets.channel2_measurements_offset as int,
        block,
        profile,
        endian,
        0,
    );
}

/// No profile turns a capture that ends before its last sample into a
/// record.
pub proof fn law_short_capture_never_decodes(
    bytes: Seq<u8>,
    profile: LayoutProfile,
    endian: Endian,
)
    requires
        bytes.len() < run_start(profile, 4),
    ensures
        spec_decode(bytes, profile, endian) is Err,
{
}

/// The little-endian word at `at`.
pub open spec fn word_at(bytes: Seq<u8>, at: int) -> int {
    word_value(bytes[at], bytes[at + 1], Endian::Little)
}

/// A measurements block of the common firmware, by the documented offset of
/// each statistic from the start of the block.
pub open spec fn standard_block(bytes: Seq<u8>, base: int) -> Measurements {
    Measurements {
        vmax: word_at(bytes, base + 2) as u16,
        vmin: word_at(bytes, base + 6) as u16,
        vavg: word_at(bytes, base + 10) as u16,
        vrms: word_at(bytes, base + 14) as u16,
        vpp: word_at(bytes, base + 18) as u16,
        vp: word_at(bytes, base + 22) as u16,
        frequency: RawFrequency::Split {
            high: word_at(bytes, base + 24) as u16,
            low: word_at(bytes, base + 26) as u16,
        },
        cycle_ns: word_at(bytes, base + 30) as u32,
        time_plus_ns: word_at(bytes, base + 34) as u32,
        time_minus_ns: word_at(bytes, base + 38) as u32,
        duty_plus_percentage: word_at(bytes, base + 42) as u32,
        duty_minus_percentage: word_at(bytes, base + 46) as u32,
    }
}

/// Where the slots of the common firmware stand: the sixteen header slots
/// from the start of the capture, the thirteen slots of a measurements block
/// from the start of the block.
pub proof fn lemma_standard_offsets()
    ensures
        slot_at(Region::Header, FieldWidth::Word, 0) == 4,
        slot_at(Region::Header, FieldWidth::Word, 1) == 8,
        slot_at(Region::Header, FieldWidth::Word, 2) == 10,
        slot_at(Region::Header, FieldWidth::Word, 3) == 14,
        slot_at(Region::Header, FieldWidth::Word, 4) == 18,
        slot_at(Region::Header, FieldWidth::Word, 5) == 20,
        slot_at(Region::Header, FieldWidth::Word, 6) == 22,
        slot_at(Region::Header, FieldWidth::Word, 7) == 24,
        slot_at(Region::Header, FieldWidth::Word, 8) == 26,
        slot_at(Region::Header, FieldWidth::Word, 9) == 28,
        slot_at(Region::Header, FieldWidth::Word, 10) == 30,
        slot_at(Region::Header, FieldWidth::Word, 11) == 84,
        slot_at(Region::Header, FieldWidth::Word, 12) == 86,
        slot_at(Region::Header, FieldWidth::Word, 13) == 120,
        slot_at(Region::Header, FieldWidth::Word, 14) == 122,
        slot_at(Region::Header, FieldWidth::Word, 15) == 124,
        region_size(Region::Header, FieldWidth::Word) == 126,
        slot_at(Region::Measurements(MeasurementLayout::SplitFrequency), FieldWidth::Word, 0)
            == 2,
        slot_at(Region::Measurements(MeasurementLayout::SplitFrequency), FieldWidth::Word, 1)
            == 6,
        slot_at(Region::Measurements(MeasurementLayout::SplitFrequency), FieldWidth::Word, 2)
            == 10,
        slot_at(Region::Measurements(MeasurementLayout::SplitFrequency), FieldWidth::Word, 3)
            == 14,
        slot_at(Region::Measurements(MeasurementLayout::SplitFrequency), FieldWidth::Word, 4)
            == 18,
        slot_at(Region::Measurements(MeasurementLayout::SplitFrequency), FieldWidth::Word, 5)
            == 22,
        slot_at(Region::Measurements(MeasurementLayout::SplitFrequency), FieldWidth::Word, 6)
            == 24,
        slot_at(Region::Measurements(MeasurementLayout::SplitFrequency), FieldWidth::Word, 7)
            == 26,
        slot_at(Region::Measurements(MeasurementLayout::SplitFrequency), FieldWidth::Word, 8)
            == 30,
        slot_at(Region::Measurements(MeasurementLayout::SplitFrequency), FieldWidth::Word, 9)
            == 34,
        slot_at(Region::Measurements(MeasurementLayout::SplitFrequency), FieldWidth::Word, 10)
            == 38,
        slot_at(Region::Measurements(MeasurementLayout::SplitFrequency), FieldWidth::Word, 11)
            == 42,
        slot_at(Region::Measurements(MeasurementLayout::SplitFrequency), FieldWidth::Word, 12)
            == 46,
        region_size(Region::Measurements(MeasurementLayout::SplitFrequency), FieldWidth::Word)
            == 48,
{
    reveal_with_fuel(cursor_after, 17);
}

/// A capture of the common firmware needs 10 000 bytes.
pub proof fn law_standard_extent()
    ensures
        layout_extent(LayoutProfile::spec_standard()) == 10_000,
{
    lemma_standard_offsets();
}

/// A capture of the common firmware that holds its 10 000 bytes always
/// decodes, and every field of the record is the little-endian word at its
/// documented offset: the settings from byte 4 on, the measurements blocks
/// at 208 and 256, the four sample buffers from byte 1000 on.
pub proof fn law_standard_fixture_decodes(bytes: Seq<u8>)
    requires
        bytes.len() >= 10_000,
    ensures
        spec_decode(bytes, LayoutProfile::spec_standard(), Endian::Little) matches Ok(file) && {
            &&& file.header.channel1_scale == word_at(bytes, 4)
            &&& file.header.channel1_coupling == word_at(bytes, 8)
            &&& file.header.channel1_probe == word_at(bytes, 10)
            &&& file.header.channel2_scale == word_at(bytes, 14)
            &&& file.header.channel2_coupling == word_at(bytes, 18)
            &&& file.header.channel2_probe == word_at(bytes, 20)
            &&& file.header.time_scale == word_at(bytes, 22)
            &&& file.header.scroll_speed == word_at(bytes, 24)
            &&& file.header.trigger_type == word_at(bytes, 26)
            &&& file.header.trigger_edge == word_at(bytes, 28)
            &&& file.header.trigger_channel == word_at(bytes, 30)
            &&& file.header.channel1_offset == word_at(bytes, 84)
            &&& file.header.channel2_offset == word_at(bytes, 86)
            &&& file.header.screen_brightness == word_at(bytes, 120)
            &&& file.header.grid_brightness == word_at(bytes, 122)
            &&& file.header.trigger_50 == word_at(bytes, 124)
            &&& file.header.channel1_measurements == standard_block(bytes, 208)
            &&& file.header.channel2_measurements == standard_block(bytes, 256)
            &&& file.channel11.len() == 1500
            &&& file.channel21.len() == 1500
            &&& file.channel12.len() == 750
            &&& file.channel22.len() == 750
            &&& forall|i: int|
                0 <= i < 1500 ==> file.channel11[i] == word_at(bytes, 1000 + 2 * i)
            &&& forall|i: int|
                0 <= i < 1500 ==> file.channel21[i] == word_at(bytes, 4000 + 2 * i)
            &&& forall|i: int| 0 <= i < 750 ==> file.channel12[i] == word_at(bytes, 7000 + 2 * i)
            &&& forall|i: int| 0 <= i < 750 ==> file.channel22[i] == word_at(bytes, 8500 + 2 * i)
        },
{
    let profile = LayoutProfile::spec_standard();
    lemma_standard_offsets();
    law_standard_extent();
    law_deferred_decode_needs_length_only(bytes, profile, Endian::Little);
}

/// A capture of the common firmware that is cut anywhere before its
/// 10 000th byte fails as truncated.
pub proof fn law_standard_truncated(bytes: Seq<u8>)
    requires
        bytes.len() < 10_000,
    ensures
        spec_decode(bytes, LayoutProfile::spec_standard(), Endian::Little) matches Err(fault)
            && fault is TruncatedInput,
{
    law_standard_extent();
    law_deferred_decode_needs_length_only(bytes, LayoutProfile::spec_standard(), Endian::Little);
}

} // verus!
