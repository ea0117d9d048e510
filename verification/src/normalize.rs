//! The physical normalizer: from device codes to volts and seconds.
//!
//! Every quantity is exact. Voltages are counted in picovolts and times in
//! picoseconds, so the fiftieth of a division and the 1024th of a volt are
//! whole numbers.

use vstd::prelude::*;
use crate::codes::{
    Attenuation, Coupling, ScrollSpeed, Setting, Trigger50, TriggerChannel, TriggerEdge,
    TriggerType,
};
use crate::decode::{
    lemma_cursor_monotonic, region_fault_from, samples_fault, slot_end, slot_value, spec_decode,
    spec_header,
};
use crate::error::DecodeError;
use crate::layout::{
    code_fault, cursor_after, region_size, spec_slot_count, spec_slot_kind, Region, SlotKind,
};
use crate::profile::{
    CodeResolution, Endian, FieldWidth, LayoutProfile, MeasurementLayout, TraceSource,
};
use crate::record::{File, FileView, Header, Measurements, RawFrequency};
use crate::scale::{lemma_pico_range, Scale, Unit, DIVISION_POINTS};

verus! {

/// The amplitude code that stands for one volt.
pub const VOLTAGE_MEASUREMENT_DIVISOR: u64 = 1024;

/// Picovolts that one step of an amplitude code stands for: `10^12 / 1024`.
pub const PICOVOLTS_PER_CODE: u64 = 976_562_500;

/// One sample of a trace.
#[derive(Clone, Copy, Debug, PartialEq, Eq, Structural)]
pub struct Point {
    /// Picoseconds since the first sample.
    pub time: u128,
    /// Picovolts above the zero level of the channel.
    pub voltage: i64,
}

/// Summary statistics of one channel in physical units: the amplitudes in
/// picovolts, the frequency composed, the rest as the device counted it.
#[derive(Clone, Copy, Debug, PartialEq, Eq, Structural)]
pub struct ProcessedMeasurements {
    pub vmax: u64,
    pub vmin: u64,
    pub vavg: u64,
    pub vrms: u64,
    pub vpp: u64,
    pub vp: u64,
    pub frequency: u32,
    pub cycle_ns: u32,
    pub time_plus_ns: u32,
    pub time_minus_ns: u32,
    pub duty_plus_percentage: u32,
    pub duty_minus_percentage: u32,
}

/// The trigger configuration with every setting resolved.
#[derive(Clone, Copy, Debug, PartialEq, Eq, Structural)]
pub struct Trigger {
    pub trigger_type: TriggerType,
    pub edge: TriggerEdge,
    pub channel: TriggerChannel,
    pub trigger_50: Trigger50,
}

/// One channel of the normalized record. The attenuation is reported, not
/// applied: the voltages are those at the input of the device.
#[derive(Clone, Debug, PartialEq, Eq)]
pub struct Channel {
    pub scale: Scale,
    pub coupling: Coupling,
    pub attenuation: Attenuation,
    pub measurements: ProcessedMeasurements,
    pub points: Vec<Point>,
}

/// The normalized record of a capture.
#[derive(Clone, Debug, PartialEq, Eq)]
pub struct Data {
    pub trigger: Trigger,
    pub time_scale: Scale,
    pub channel1: Channel,
    pub channel2: Channel,
}

/// A [`Channel`] with its trace as a sequence.
pub struct ChannelView {
    pub scale: Scale,
    pub coupling: Coupling,
    pub attenuation: Attenuation,
    pub measurements: ProcessedMeasurements,
    pub points: Seq<Point>,
}

/// A [`Data`] with its traces as sequences.
pub struct DataView {
    pub trigger: Trigger,
    pub time_scale: Scale,
    pub channel1: ChannelView,
    pub channel2: ChannelView,
}

impl View for Channel {
    type V = ChannelView;

    open spec fn view(&self) -> ChannelView {
        ChannelView {
            scale: self.scale,
            coupling: self.coupling,
            attenuation: self.attenuation,
            measurements: self.measurements,
            points: self.points@,
        }
    }
}

impl View for Data {
    type V = DataView;

    open spec fn view(&self) -> DataView {
        DataView {
            trigger: self.trigger,
            time_scale: self.time_scale,
            channel1: self.channel1@,
            channel2: self.channel2@,
        }
    }
}

/// The frequency that two stored halves stand for.
pub open spec fn spec_parse_frequency(high: int, low: int) -> int {
    high * 65_536 + low
}

/// The frequency that a measurements block stores.
pub open spec fn spec_frequency(raw: RawFrequency) -> int {
    match raw {
        RawFrequency::Split { high, low } => spec_parse_frequency(high as int, low as int),
        RawFrequency::Native { value } => value as int,
    }
}

/// Sample `index` of a trace: `index` fiftieths of a time division after the
/// first sample, and as many fiftieths of a voltage division above the zero
/// level as the sample code lies above `offset`.
pub open spec fn point_at(index: int, sample: int, offset: int, volt_pico: int, time_pico: int)
    -> Point {
    Point {
        time: (index * time_pico / (DIVISION_POINTS as int)) as u128,
        voltage: ((sample - offset) * volt_pico / (DIVISION_POINTS as int)) as i64,
    }
}

/// The trace of a sample buffer, in index order.
pub open spec fn spec_points(samples: Seq<u16>, offset: int, volt_pico: int, time_pico: int)
    -> Seq<Point> {
    Seq::new(
        samples.len(),
        |i: int| point_at(i, samples[i] as int, offset, volt_pico, time_pico),
    )
}

/// The statistics of a measurements block in physical units.
pub open spec fn spec_processed(block: Measurements) -> ProcessedMeasurements {
    ProcessedMeasurements {
        vmax: (block.vmax * PICOVOLTS_PER_CODE) as u64,
        vmin: (block.vmin * PICOVOLTS_PER_CODE) as u64,
        vavg: (block.vavg * PICOVOLTS_PER_CODE) as u64,
        vrms: (block.vrms * PICOVOLTS_PER_CODE) as u64,
        vpp: (block.vpp * PICOVOLTS_PER_CODE) as u64,
        vp: (block.vp * PICOVOLTS_PER_CODE) as u64,
        frequency: spec_frequency(block.frequency) as u32,
        cycle_ns: block.cycle_ns,
        time_plus_ns: block.time_plus_ns,
        time_minus_ns: block.time_minus_ns,
        duty_plus_percentage: block.duty_plus_percentage,
        duty_minus_percentage: block.duty_minus_percentage,
    }
}

/// `first` if it is a fault, else `rest`.
pub open spec fn first_of(first: Option<DecodeError>, rest: Option<DecodeError>) -> Option<
    DecodeError,
> {
    if first is Some {
        first
    } else {
        rest
    }
}

/// The first code of a header, in the order the header stores them, that
/// lies outside its closed set.
pub open spec fn codes_fault(header: Header) -> Option<DecodeError> {
    first_of(
        code_fault(SlotKind::VoltScale, header.channel1_scale as int),
        first_of(
            code_fault(SlotKind::Coupling, header.channel1_coupling as int),
            first_of(
                code_fault(SlotKind::Attenuation, header.channel1_probe as int),
                first_of(
                    code_fault(SlotKind::VoltScale, header.channel2_scale as int),
                    first_of(
                        code_fault(SlotKind::Coupling, header.channel2_coupling as int),
                        first_of(
                            code_fault(SlotKind::Attenuation, header.channel2_probe as int),
                            first_of(
                                code_fault(SlotKind::TimeScale, header.time_scale as int),
                                first_of(
                                    code_fault(SlotKind::ScrollSpeed, header.scroll_speed as int),
                                    first_of(
                                        code_fault(
                                            SlotKind::TriggerType,
                                            header.trigger_type as int,
                                        ),
                                        first_of(
                                            code_fault(
                                                SlotKind::TriggerEdge,
                                                header.trigger_edge as int,
                                            ),
                                            first_of(
                                                code_fault(
                                                    SlotKind::TriggerChannel,
                                                    header.trigger_channel as int,
                                                ),
                                                code_fault(
                                                    SlotKind::Trigger50,
                                                    header.trigger_50 as int,
                                                ),
                                            ),
                                        ),
                                    ),
                                ),
                            ),
                        ),
                    ),
                ),
            ),
        ),
    )
}

/// The buffer that the trace of channel 2 is drawn from.
pub open spec fn channel2_samples(file: FileView, profile: LayoutProfile) -> Seq<u16> {
    match profile.channel2_trace {
        TraceSource::OwnBuffer => file.channel21,
        TraceSource::Channel1Buffer => file.channel11,
    }
}

/// One channel of the normalized record.
pub open spec fn spec_channel(
    scale_code: u16,
    coupling_code: u16,
    probe_code: u16,
    block: Measurements,
    samples: Seq<u16>,
    offset: u16,
    time_scale: Scale,
) -> ChannelView {
    let scale = Scale::entry(Unit::Volt, scale_code as int);
    ChannelView {
        scale,
        coupling: Coupling::variant(coupling_code as int),
        attenuation: Attenuation::variant(probe_code as int),
        measurements: spec_processed(block),
        points: spec_points(samples, offset as int, scale.pico(), time_scale.pico()),
    }
}

/// What a decoded capture normalizes to: the first code outside its closed
/// set, or the record with every code resolved and both traces generated.
pub open spec fn spec_normalize(file: FileView, profile: LayoutProfile) -> Result<
    DataView,
    DecodeError,
> {
    let header = file.header;
    if codes_fault(header) is Some {
        Err(codes_fault(header)->Some_0)
    } else {
        let time_scale = Scale::entry(Unit::Second, header.time_scale as int);
        Ok(
            DataView {
                trigger: Trigger {
                    trigger_type: TriggerType::variant(header.trigger_type as int),
                    edge: TriggerEdge::variant(header.trigger_edge as int),
                    channel: TriggerChannel::variant(header.trigger_channel as int),
                    trigger_50: Trigger50::variant(header.trigger_50 as int),
                },
                time_scale,
                channel1: spec_channel(
                    header.channel1_scale,
                    header.channel1_coupling,
                    header.channel1_probe,
                    header.channel1_measurements,
                    file.channel11,
                    header.channel1_offset,
                    time_scale,
                ),
                channel2: spec_channel(
                    header.channel2_scale,
                    header.channel2_coupling,
                    header.channel2_probe,
                    header.channel2_measurements,
                    channel2_samples(file, profile),
                    header.channel2_offset,
                    time_scale,
                ),
            },
        )
    }
}

/// Composes a frequency from its two stored halves: `high << 16 | low`.
pub fn parse_frequency(high: u16, low: u16) -> (frequency: u32)
    ensures
        frequency == spec_parse_frequency(high as int, low as int),
{
    let wide_high = high as u32;
    let wide_low = low as u32;
    assert((wide_high << 16) | wide_low == wide_high * 65_536 + wide_low) by (bit_vector)
        requires
            wide_high <= 0xffff,
            wide_low <= 0xffff,
    ;
    (wide_high << 16) | wide_low
}

/// The frequency that a measurements block stores: the two halves composed,
/// or the 32-bit field as it stands.
pub fn compose_frequency(raw: RawFrequency) -> (frequency: u32)
    ensures
        frequency == spec_frequency(raw),
{
    match raw {
        RawFrequency::Split { high, low } => parse_frequency(high, low),
        RawFrequency::Native { value } => value,
    }
}

/// An amplitude code in picovolts. The code counts 1024ths of a volt.
pub fn process_voltage_measurement(measurement: u16) -> (picovolts: u64)
    ensures
        picovolts * VOLTAGE_MEASUREMENT_DIVISOR == measurement * 1_000_000_000_000,
        picovolts == measurement * PICOVOLTS_PER_CODE,
{
    (measurement as u64) * PICOVOLTS_PER_CODE
}

/// The statistics of a measurements block in physical units.
pub fn process_measurements(block: &Measurements) -> (processed: ProcessedMeasurements)
    ensures
        processed == spec_processed(*block),
{
    ProcessedMeasurements {
        vmax: process_voltage_measurement(block.vmax),
        vmin: process_voltage_measurement(block.vmin),
        vavg: process_voltage_measurement(block.vavg),
        vrms: process_voltage_measurement(block.vrms),
        vpp: process_voltage_measurement(block.vpp),
        vp: process_voltage_measurement(block.vp),
        frequency: compose_frequency(block.frequency),
        cycle_ns: block.cycle_ns,
        time_plus_ns: block.time_plus_ns,
        time_minus_ns: block.time_minus_ns,
        duty_plus_percentage: block.duty_plus_percentage,
        duty_minus_percentage: block.duty_minus_percentage,
    }
}

/// Generates the trace of a sample buffer: point `i` lies `i` fiftieths of a
/// time division after the first and `values[i] - offset` fiftieths of a
/// voltage division above the zero level.
pub fn generate_points(
    values: &Vec<u16>,
    voltage_scale: &Scale,
    time_scale: &Scale,
    offset: u16,
) -> (points: Vec<Point>)
    ensures
        points@ == spec_points(values@, offset as int, voltage_scale.pico(), time_scale.pico()),
{
    let volt_pico = voltage_scale.get_scale();
    let time_pico = time_scale.get_scale();
    let volt_step = (volt_pico / 50) as i64;
    let time_step = (time_pico / 50) as u128;
    let mut points: Vec<Point> = Vec::new();
    let mut index: usize = 0;
    while index < values.len()
        invariant
            index <= values.len(),
            points@.len() == index,
            volt_pico == 50 * volt_step,
            time_pico == 50 * time_step,
            0 < volt_step <= 10_000_000_000_000,
            0 < time_step <= 10_000_000_000_000,
            forall|i: int|
                0 <= i < index ==> points@[i] == point_at(
                    i,
                    values@[i] as int,
                    offset as int,
                    volt_pico as int,
                    time_pico as int,
                ),
        decreases values.len() - index,
    {
        let rise = values[index] as i64 - offset as i64;
        assert(-655_350_000_000_000_000 <= rise * volt_step <= 655_350_000_000_000_000)
            by (nonlinear_arith)
            requires
                -65_535 <= rise <= 65_535,
                0 < volt_step <= 10_000_000_000_000,
        ;
        assert(0 <= index * time_step <= 0xffff_ffff_ffff_ffff * 10_000_000_000_000)
            by (nonlinear_arith)
            requires
                0 <= index <= 0xffff_ffff_ffff_ffff,
                0 < time_step <= 10_000_000_000_000,
        ;
        assert(rise * volt_pico / 50 == rise * volt_step) by (nonlinear_arith)
            requires
                volt_pico == 50 * volt_step,
        ;
        assert(index * time_pico / 50 == index * time_step) by (nonlinear_arith)
            requires
                time_pico == 50 * time_step,
        ;
        points.push(Point { time: (index as u128) * time_step, voltage: rise * volt_step });
        index = index + 1;
    }
    assert(points@ =~= spec_points(
        values@,
        offset as int,
        voltage_scale.pico(),
        time_scale.pico(),
    ));
    points
}

/// Normalizes a decoded capture: resolves every scale and setting code of
/// the header, in the order the header stores them, converts the statistics
/// and generates both traces. The first code outside its closed set fails
/// the whole normalization.
pub fn normalize(file: &File, profile: &LayoutProfile) -> (outcome: Result<Data, DecodeError>)
    ensures
        match outcome {
            Ok(data) => spec_normalize(file@, *profile) == Ok::<DataView, DecodeError>(data@),
            Err(fault) => spec_normalize(file@, *profile) == Err::<DataView, DecodeError>(fault),
        },
{
    let header = &file.header;
    let channel1_scale = Scale::try_from_primitive(Unit::Volt, header.channel1_scale)?;
    let channel1_coupling = Coupling::try_from_primitive(header.channel1_coupling)?;
    let channel1_probe = Attenuation::try_from_primitive(header.channel1_probe)?;
    let channel2_scale = Scale::try_from_primitive(Unit::Volt, header.channel2_scale)?;
    let channel2_coupling = Coupling::try_from_primitive(header.channel2_coupling)?;
    let channel2_probe = Attenuation::try_from_primitive(header.channel2_probe)?;
    let time_scale = Scale::try_from_primitive(Unit::Second, header.time_scale)?;
    let _ = ScrollSpeed::try_from_primitive(header.scroll_speed)?;
    let trigger_type = TriggerType::try_from_primitive(header.trigger_type)?;
    let edge = TriggerEdge::try_from_primitive(header.trigger_edge)?;
    let channel = TriggerChannel::try_from_primitive(header.trigger_channel)?;
    let trigger_50 = Trigger50::try_from_primitive(header.trigger_50)?;
    let channel2_buffer = match profile.channel2_trace {
        TraceSource::OwnBuffer => &file.channel21,
        TraceSource::Channel1Buffer => &file.channel11,
    };
    Ok(
        Data {
            trigger: Trigger { trigger_type, edge, channel, trigger_50 },
            time_scale,
            channel1: Channel {
                scale: channel1_scale,
                coupling: channel1_coupling,
                attenuation: channel1_probe,
                measurements: process_measurements(&header.channel1_measurements),
                points: generate_points(
                    &file.channel11,
                    &channel1_scale,
                    &time_scale,
                    header.channel1_offset,
                ),
            },
            channel2: Channel {
                scale: channel2_scale,
                coupling: channel2_coupling,
                attenuation: channel2_probe,
                measurements: process_measurements(&header.channel2_measurements),
                points: generate_points(
                    channel2_buffer,
                    &channel2_scale,
                    &time_scale,
                    header.channel2_offset,
                ),
            },
        },
    )
}

/// The first sample of a trace is taken at time zero, and time never runs
/// backwards along the trace.
pub proof fn law_trace_time_runs_forward(
    samples: Seq<u16>,
    offset: u16,
    voltage_scale: Scale,
    time_scale: Scale,
    i: int,
    j: int,
)
    requires
        voltage_scale.wf(),
        time_scale.wf(),
        samples.len() <= usize::MAX,
        0 <= i <= j < samples.len(),
    ensures
        spec_points(samples, offset as int, voltage_scale.pico(), time_scale.pico())[0].time == 0,
        spec_points(samples, offset as int, voltage_scale.pico(), time_scale.pico())[i].time
            <= spec_points(samples, offset as int, voltage_scale.pico(), time_scale.pico())[j].time,
        spec_points(samples, offset as int, voltage_scale.pico(), time_scale.pico())[i].time * 50
            == i * time_scale.pico(),
{
    lemma_pico_range(time_scale);
    let pico = time_scale.pico();
    let step = pico / 50;
    assert(pico == 50 * step);
    assert(i * pico / 50 == i * step && j * pico / 50 == j * step && i * step <= j * step && j
        * step <= 0xffff_ffff_ffff_ffff * 10_000_000_000_000 && 0 <= i * step) by (nonlinear_arith)
        requires
            pico == 50 * step,
            0 < step <= 10_000_000_000_000,
            0 <= i <= j <= 0xffff_ffff_ffff_ffff,
    ;
    assert(i * step * 50 == i * pico) by (nonlinear_arith)
        requires
            pico == 50 * step,
    ;
}

/// The voltage of a point is an affine function of its sample code: the
/// slope is a fiftieth of the voltage scale, and the voltage is zero exactly
/// where the code equals the zero level.
pub proof fn law_trace_voltage_is_affine(
    samples: Seq<u16>,
    offset: u16,
    voltage_scale: Scale,
    time_scale: Scale,
    i: int,
)
    requires
        voltage_scale.wf(),
        time_scale.wf(),
        0 <= i < samples.len(),
    ensures
        spec_points(samples, offset as int, voltage_scale.pico(), time_scale.pico())[i].voltage
            == (samples[i] - offset) * (voltage_scale.pico() / 50),
        spec_points(samples, offset as int, voltage_scale.pico(), time_scale.pico())[i].voltage
            == 0 <==> samples[i] == offset,
{
    lemma_pico_range(voltage_scale);
    let pico = voltage_scale.pico();
    let step = pico / 50;
    let rise = samples[i] - offset;
    assert(pico == 50 * step);
    assert(rise * pico / 50 == rise * step && -655_350_000_000_000_000 <= rise * step
        <= 655_350_000_000_000_000 && (rise * step == 0 <==> rise == 0)) by (nonlinear_arith)
        requires
            pico == 50 * step,
            0 < step <= 10_000_000_000_000,
            -65_535 <= rise <= 65_535,
    ;
}

/// A trace depends on nothing but the samples, the zero level and the
/// pico-values of the two scales.
pub proof fn law_trace_is_a_function_of_its_inputs(
    samples: Seq<u16>,
    offset: u16,
    voltage_a: Scale,
    time_a: Scale,
    voltage_b: Scale,
    time_b: Scale,
)
    requires
        voltage_a.pico() == voltage_b.pico(),
        time_a.pico() == time_b.pico(),
    ensures
        spec_points(samples, offset as int, voltage_a.pico(), time_a.pico()) == spec_points(
            samples,
            offset as int,
            voltage_b.pico(),
            time_b.pico(),
        ),
{
}

/// The first code from slot `k` on, in the region that starts at `base`,
/// that lies outside its closed set.
pub open spec fn region_codes_fault_from(
    bytes: Seq<u8>,
    base: int,
    region: Region,
    width: FieldWidth,
    endian: Endian,
    k: int,
) -> Option<DecodeError>
    decreases spec_slot_count(region) - k,
{
    if k < 0 || k >= spec_slot_count(region) {
        None
    } else {
        first_of(
            code_fault(spec_slot_kind(region, k), slot_value(bytes, base, region, width, endian, k)),
            region_codes_fault_from(bytes, base, region, width, endian, k + 1),
        )
    }
}

/// `profile` with its codes resolved as `resolution` says.
pub open spec fn with_resolution(profile: LayoutProfile, resolution: CodeResolution)
    -> LayoutProfile {
    LayoutProfile {
        field_width: profile.field_width,
        byte_order: profile.byte_order,
        measurement_layout: profile.measurement_layout,
        code_resolution: resolution,
        channel2_trace: profile.channel2_trace,
        offsets: profile.offsets,
    }
}

/// A region that the cursor reads through without a fault lies within the
/// buffer.
pub proof fn lemma_region_fits(
    bytes: Seq<u8>,
    base: int,
    region: Region,
    profile: LayoutProfile,
    endian: Endian,
    k: int,
)
    requires
        0 <= k < spec_slot_count(region),
        region_fault_from(bytes, base, region, profile, endian, k) is None,
    ensures
        base + region_size(region, profile.field_width) <= bytes.len(),
    decreases spec_slot_count(region) - k,
{
    if k + 1 < spec_slot_count(region) {
        lemma_region_fits(bytes, base, region, profile, endian, k + 1);
    }
}

/// Within the buffer, a cursor that checks codes inline stops at the first
/// code outside its closed set and nowhere else.
pub proof fn lemma_region_inline(
    bytes: Seq<u8>,
    base: int,
    region: Region,
    profile: LayoutProfile,
    endian: Endian,
    k: int,
)
    requires
        profile.code_resolution == CodeResolution::Inline,
        0 <= k <= spec_slot_count(region),
        base + region_size(region, profile.field_width) <= bytes.len(),
    ensures
        region_fault_from(bytes, base, region, profile, endian, k) == region_codes_fault_from(
            bytes,
            base,
            region,
            profile.field_width,
            endian,
            k,
        ),
    decreases spec_slot_count(region) - k,
{
    let width = profile.field_width;
    let count = spec_slot_count(region) as int;
    if k < count {
        assert(slot_end(base, region, width, k) == base + cursor_after(region, width, k + 1));
        lemma_cursor_monotonic(region, width, k + 1, count);
        lemma_region_inline(bytes, base, region, profile, endian, k + 1);
    }
}

/// A measurements block holds no codes.
pub proof fn lemma_block_holds_no_codes(
    bytes: Seq<u8>,
    base: int,
    layout: MeasurementLayout,
    width: FieldWidth,
    endian: Endian,
    k: int,
)
    requires
        0 <= k,
    ensures
        region_codes_fault_from(bytes, base, Region::Measurements(layout), width, endian, k)
            is None,
    decreases spec_slot_count(Region::Measurements(layout)) - k,
{
    if k < spec_slot_count(Region::Measurements(layout)) {
        lemma_block_holds_no_codes(bytes, base, layout, width, endian, k + 1);
    }
}

/// The first code fault among the header slots is the first code fault
/// among the fields of the header they decode to.
pub proof fn lemma_header_codes(bytes: Seq<u8>, profile: LayoutProfile, endian: Endian)
    ensures
        region_codes_fault_from(bytes, 0, Region::Header, profile.field_width, endian, 0)
            == codes_fault(spec_header(bytes, profile, endian)),
{
    reveal_with_fuel(region_codes_fault_from, 17);
}

/// Checking the codes inline changes where a bad code is found, not what is
/// found: a capture that decodes with its codes left for later decodes to
/// the same record with the codes checked inline if every code resolves,
/// and else fails inline with the fault that normalization would report.
pub proof fn law_inline_agrees_with_normalization(
    bytes: Seq<u8>,
    profile: LayoutProfile,
    endian: Endian,
)
    requires
        profile.code_resolution == CodeResolution::Deferred,
        spec_decode(bytes, profile, endian) is Ok,
    ensures
        ({
            let file = spec_decode(bytes, profile, endian)->Ok_0;
            let inline = with_resolution(profile, CodeResolution::Inline);
            match codes_fault(file.header) {
                Some(fault) => {
                    &&& spec_decode(bytes, inline, endian) == Err::<FileView, DecodeError>(fault)
                    &&& spec_normalize(file, profile) == Err::<DataView, DecodeError>(fault)
                },
                None => {
                    &&& spec_decode(bytes, inline, endian) == Ok::<FileView, DecodeError>(file)
                    &&& spec_normalize(file, profile) is Ok
                },
            }
        }),
{
    let inline = with_resolution(profile, CodeResolution::Inline);
    let width = profile.field_width;
    let block = Region::Measurements(profile.measurement_layout);
    let first = profile.offsets.channel1_measurements_offset as int;
    let second = profile.offsets.channel2_measurements_offset as int;
    lemma_region_fits(bytes, 0, Region::Header, profile, endian, 0);
    lemma_region_fits(bytes, first, block, profile, endian, 0);
    lemma_region_fits(bytes, second, block, profile, endian, 0);
    lemma_region_inline(bytes, 0, Region::Header, inline, endian, 0);
    lemma_region_inline(bytes, first, block, inline, endian, 0);
    lemma_region_inline(bytes, second, block, inline, endian, 0);
    lemma_block_holds_no_codes(bytes, first, profile.measurement_layout, width, endian, 0);
    lemma_block_holds_no_codes(bytes, second, profile.measurement_layout, width, endian, 0);
    lemma_header_codes(bytes, profile, endian);
    assert(spec_header(bytes, inline, endian) == spec_header(bytes, profile, endian));
    assert(samples_fault(bytes, inline) == samples_fault(bytes, profile));
}

/// A capture that decodes with its codes checked inline always normalizes.
pub proof fn law_inline_decode_normalizes(bytes: Seq<u8>, profile: LayoutProfile, endian: Endian)
    requires
        profile.code_resolution == CodeResolution::Inline,
        spec_decode(bytes, profile, endian) is Ok,
    ensures
        spec_normalize(spec_decode(bytes, profile, endian)->Ok_0, profile) is Ok,
{
    lemma_region_fits(bytes, 0, Region::Header, profile, endian, 0);
    lemma_region_inline(bytes, 0, Region::Header, profile, endian, 0);
    lemma_header_codes(bytes, profile, endian);
}

} // verus!
