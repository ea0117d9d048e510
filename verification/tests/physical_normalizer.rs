use scope_capture::codes::{
    Attenuation, Coupling, Trigger50, TriggerChannel, TriggerEdge, TriggerType,
};
use scope_capture::decode::decode;
use scope_capture::error::{DecodeError, EnumField};
use scope_capture::normalize::{
    compose_frequency, generate_points, normalize, parse_frequency, process_measurements,
    process_voltage_measurement, Point, ProcessedMeasurements, PICOVOLTS_PER_CODE,
    VOLTAGE_MEASUREMENT_DIVISOR,
};
use scope_capture::profile::{CodeResolution, LayoutProfile, MeasurementLayout, TraceSource};
use scope_capture::record::{File, Measurements, RawFrequency};
use scope_capture::scale::{Scale, Unit};

fn put(bytes: &mut [u8], at: usize, value: u16) {
    bytes[at] = (value & 0xff) as u8;
    bytes[at + 1] = (value >> 8) as u8;
}

fn blank_capture() -> Vec<u8> {
    vec![0u8; 10_000]
}

fn volts(index: u16) -> Scale {
    Scale::try_from_primitive(Unit::Volt, index).unwrap()
}

fn seconds(index: u16) -> Scale {
    Scale::try_from_primitive(Unit::Second, index).unwrap()
}

fn as_seconds(point: &Point) -> f64 {
    point.time as f64 / 1e12
}

fn as_volts(point: &Point) -> f64 {
    point.voltage as f64 / 1e12
}

fn own_trace_profile() -> LayoutProfile {
    LayoutProfile { channel2_trace: TraceSource::OwnBuffer, ..LayoutProfile::standard() }
}

/// A decoded capture with ramps in the coarse buffers: channel 1 climbs,
/// channel 2 falls.
fn ramp_file() -> File {
    let mut bytes = blank_capture();
    put(&mut bytes, 4, 2);
    put(&mut bytes, 14, 0);
    put(&mut bytes, 22, 5);
    put(&mut bytes, 84, 512);
    put(&mut bytes, 86, 100);
    for i in 0..1500usize {
        put(&mut bytes, 1000 + 2 * i, i as u16);
        put(&mut bytes, 4000 + 2 * i, (3000 - i) as u16);
    }
    decode(&bytes, &LayoutProfile::standard()).unwrap()
}

#[test]
fn split_frequency_composes_high_and_low_halves() {
    assert_eq!(parse_frequency(0x0001, 0x0002), 0x10002);
    assert_eq!(parse_frequency(0x0001, 0x0002), 65538);
    assert_eq!(compose_frequency(RawFrequency::Split { high: 0x0001, low: 0x0002 }), 65538);
}

#[test]
fn split_frequency_at_the_ends_of_its_range() {
    assert_eq!(parse_frequency(0, 0), 0);
    assert_eq!(parse_frequency(0, 0xffff), 0xffff);
    assert_eq!(parse_frequency(0xffff, 0), 0xffff_0000);
    assert_eq!(parse_frequency(0xffff, 0xffff), u32::MAX);
}

#[test]
fn native_frequency_is_the_field_verbatim() {
    assert_eq!(compose_frequency(RawFrequency::Native { value: 65538 }), 65538);
    assert_eq!(compose_frequency(RawFrequency::Native { value: 0 }), 0);
    assert_eq!(compose_frequency(RawFrequency::Native { value: u32::MAX }), u32::MAX);
}

#[test]
fn amplitude_code_counts_1024ths_of_a_volt() {
    assert_eq!(VOLTAGE_MEASUREMENT_DIVISOR, 1024);
    assert_eq!(PICOVOLTS_PER_CODE * 1024, 1_000_000_000_000);
    assert_eq!(process_voltage_measurement(0), 0);
    assert_eq!(process_voltage_measurement(1), 976_562_500);
    assert_eq!(process_voltage_measurement(512), 500_000_000_000);
    assert_eq!(process_voltage_measurement(1024), 1_000_000_000_000);
    assert_eq!(process_voltage_measurement(u16::MAX), 65_535 * 976_562_500);
}

#[test]
fn amplitude_in_volts_is_the_code_over_1024() {
    for code in [0u16, 1, 3, 512, 1000, 1024, 40_000, u16::MAX] {
        let exact = process_voltage_measurement(code) as f64 / 1e12;
        assert_eq!(exact, code as f64 / 1024.0);
        assert_eq!(exact as f32, code as f32 / 1024f32);
    }
}

#[test]
fn measurements_keep_their_timing_and_convert_their_amplitudes() {
    let block = Measurements {
        vmax: 1024,
        vmin: 0,
        vavg: 512,
        vrms: 256,
        vpp: 2048,
        vp: 1,
        frequency: RawFrequency::Split { high: 1, low: 2 },
        cycle_ns: 1000,
        time_plus_ns: 600,
        time_minus_ns: 400,
        duty_plus_percentage: 60,
        duty_minus_percentage: 40,
    };
    assert_eq!(
        process_measurements(&block),
        ProcessedMeasurements {
            vmax: 1_000_000_000_000,
            vmin: 0,
            vavg: 500_000_000_000,
            vrms: 250_000_000_000,
            vpp: 2_000_000_000_000,
            vp: 976_562_500,
            frequency: 65538,
            cycle_ns: 1000,
            time_plus_ns: 600,
            time_minus_ns: 400,
            duty_plus_percentage: 60,
            duty_minus_percentage: 40,
        }
    );
}

#[test]
fn two_samples_at_one_volt_and_one_second_per_division() {
    let points = generate_points(&vec![512, 512 + 512], &volts(2), &seconds(5), 512);
    assert_eq!(
        points,
        vec![
            Point { time: 0, voltage: 0 },
            Point { time: 20_000_000_000, voltage: 10_240_000_000_000 },
        ]
    );
    assert_eq!(as_seconds(&points[0]), 0.0);
    assert_eq!(as_volts(&points[0]), 0.0);
    assert_eq!(as_seconds(&points[1]), 0.02);
    assert_eq!(as_volts(&points[1]), 10.24);
    assert_eq!(as_seconds(&points[1]) as f32, 0.02f32);
    assert_eq!(as_volts(&points[1]) as f32, 10.24f32);
}

#[test]
fn point_follows_the_fiftieth_of_a_division_formula() {
    let samples: Vec<u16> = vec![0, 1, 99, 100, 101, 65_535];
    let offset = 100u16;
    for (volt_index, time_index) in [(0u16, 0u16), (1, 7), (6, 32), (3, 18)] {
        let voltage_scale = volts(volt_index);
        let time_scale = seconds(time_index);
        let points = generate_points(&samples, &voltage_scale, &time_scale, offset);
        assert_eq!(points.len(), samples.len());
        for (i, point) in points.iter().enumerate() {
            assert_eq!(point.time * 50, i as u128 * time_scale.get_scale() as u128);
            assert_eq!(
                point.voltage as i128 * 50,
                (samples[i] as i128 - offset as i128) * voltage_scale.get_scale() as i128
            );
        }
    }
}

#[test]
fn sample_below_the_zero_level_gives_a_negative_voltage() {
    let points = generate_points(&vec![0, 511, 512], &volts(2), &seconds(5), 512);
    assert_eq!(points[0].voltage, -10_240_000_000_000);
    assert_eq!(points[1].voltage, -20_000_000_000);
    assert_eq!(points[2].voltage, 0);
    assert_eq!(as_volts(&points[0]), -10.24);
}

#[test]
fn extreme_sample_and_offset_stay_exact() {
    let up = generate_points(&vec![u16::MAX], &volts(0), &seconds(0), 0);
    assert_eq!(up[0].voltage, 65_535 * 100_000_000_000);
    let down = generate_points(&vec![0], &volts(0), &seconds(0), u16::MAX);
    assert_eq!(down[0].voltage, -65_535 * 100_000_000_000);
}

#[test]
fn empty_buffer_gives_an_empty_trace() {
    assert_eq!(generate_points(&vec![], &volts(0), &seconds(0), 0), vec![]);
}

#[test]
fn same_inputs_give_the_same_trace() {
    let samples: Vec<u16> = (0..1500).map(|i| (i * 37 % 4096) as u16).collect();
    let first = generate_points(&samples, &volts(4), &seconds(20), 2048);
    let second = generate_points(&samples, &volts(4), &seconds(20), 2048);
    assert_eq!(first, second);
}

#[test]
fn time_starts_at_zero_and_never_decreases() {
    let samples: Vec<u16> = (0..1500).map(|i| (i * 37 % 4096) as u16).collect();
    for time_index in [0u16, 5, 17, 32] {
        let points = generate_points(&samples, &volts(2), &seconds(time_index), 0);
        assert_eq!(points[0].time, 0);
        for pair in points.windows(2) {
            assert!(pair[0].time <= pair[1].time);
            assert_eq!(
                pair[1].time - pair[0].time,
                seconds(time_index).get_scale() as u128 / 50
            );
        }
    }
}

#[test]
fn voltage_is_affine_in_the_sample_with_slope_scale_over_50() {
    let samples: Vec<u16> = vec![10, 11, 12, 500, 501];
    for volt_index in 0..7u16 {
        let scale = volts(volt_index);
        let slope = scale.get_scale() as i64 / 50;
        let points = generate_points(&samples, &scale, &seconds(5), 11);
        assert_eq!(points[1].voltage, 0);
        assert_eq!(points[2].voltage - points[1].voltage, slope);
        assert_eq!(points[1].voltage - points[0].voltage, slope);
        assert_eq!(points[4].voltage - points[3].voltage, slope);
        assert_eq!(points[3].voltage, 489 * slope);
    }
}

#[test]
fn voltage_is_zero_only_at_the_zero_level() {
    let samples: Vec<u16> = (0..200).collect();
    let points = generate_points(&samples, &volts(6), &seconds(32), 77);
    for (i, point) in points.iter().enumerate() {
        assert_eq!(point.voltage == 0, i == 77);
    }
}

#[test]
fn end_to_end_capture_at_one_second_and_one_volt_per_division() {
    let mut bytes = blank_capture();
    put(&mut bytes, 22, 5);
    put(&mut bytes, 4, 2);
    put(&mut bytes, 84, 512);
    put(&mut bytes, 1000, 512);
    put(&mut bytes, 1002, 512 + 512);
    let profile = LayoutProfile::standard();
    let file = decode(&bytes, &profile).unwrap();
    let data = normalize(&file, &profile).unwrap();
    assert_eq!(data.time_scale.get_scale() as f64 / 1e12, 1.0);
    assert_eq!(data.channel1.scale.get_scale() as f64 / 1e12, 1.0);
    assert_eq!(data.channel1.points.len(), 1500);
    assert_eq!(data.channel1.points[0], Point { time: 0, voltage: 0 });
    assert_eq!(
        data.channel1.points[1],
        Point { time: 20_000_000_000, voltage: 10_240_000_000_000 }
    );
    assert_eq!(as_seconds(&data.channel1.points[0]), 0.0);
    assert_eq!(as_volts(&data.channel1.points[0]), 0.0);
    assert_eq!(as_seconds(&data.channel1.points[1]), 0.02);
    assert_eq!(as_volts(&data.channel1.points[1]), 10.24);
}

#[test]
fn normalized_record_resolves_every_setting() {
    let mut bytes = blank_capture();
    put(&mut bytes, 4, 3);
    put(&mut bytes, 8, 1);
    put(&mut bytes, 10, 2);
    put(&mut bytes, 14, 6);
    put(&mut bytes, 18, 0);
    put(&mut bytes, 20, 1);
    put(&mut bytes, 22, 14);
    put(&mut bytes, 24, 1);
    put(&mut bytes, 26, 2);
    put(&mut bytes, 28, 1);
    put(&mut bytes, 30, 1);
    put(&mut bytes, 124, 1);
    let profile = LayoutProfile::standard();
    let data = normalize(&decode(&bytes, &profile).unwrap(), &profile).unwrap();
    assert_eq!(data.trigger.trigger_type, TriggerType::Normal);
    assert_eq!(data.trigger.edge, TriggerEdge::Falling);
    assert_eq!(data.trigger.channel, TriggerChannel::Channel2);
    assert_eq!(data.trigger.trigger_50, Trigger50::Off);
    assert_eq!(data.time_scale, seconds(14));
    assert_eq!(data.time_scale.to_text(), "1ms");
    assert_eq!(data.channel1.scale, volts(3));
    assert_eq!(data.channel1.coupling, Coupling::AC);
    assert_eq!(data.channel1.attenuation, Attenuation::OneHundredX);
    assert_eq!(data.channel2.scale, volts(6));
    assert_eq!(data.channel2.coupling, Coupling::DC);
    assert_eq!(data.channel2.attenuation, Attenuation::TenX);
}

#[test]
fn normalized_measurements_come_from_the_block_of_their_channel() {
    let mut bytes = blank_capture();
    put(&mut bytes, 208 + 2, 1024);
    put(&mut bytes, 208 + 24, 1);
    put(&mut bytes, 208 + 26, 2);
    put(&mut bytes, 208 + 30, 250);
    put(&mut bytes, 256 + 2, 2048);
    put(&mut bytes, 256 + 26, 50);
    put(&mut bytes, 256 + 46, 45);
    let profile = LayoutProfile::standard();
    let data = normalize(&decode(&bytes, &profile).unwrap(), &profile).unwrap();
    assert_eq!(data.channel1.measurements.vmax, 1_000_000_000_000);
    assert_eq!(data.channel1.measurements.frequency, 65538);
    assert_eq!(data.channel1.measurements.cycle_ns, 250);
    assert_eq!(data.channel2.measurements.vmax, 2_000_000_000_000);
    assert_eq!(data.channel2.measurements.frequency, 50);
    assert_eq!(data.channel2.measurements.duty_minus_percentage, 45);
}

#[test]
fn normalized_frequency_of_a_native_block_is_verbatim() {
    let mut bytes = blank_capture();
    bytes[232..236].copy_from_slice(&123_456_789u32.to_le_bytes());
    let profile = LayoutProfile {
        measurement_layout: MeasurementLayout::NativeFrequency,
        ..LayoutProfile::standard()
    };
    let data = normalize(&decode(&bytes, &profile).unwrap(), &profile).unwrap();
    assert_eq!(data.channel1.measurements.frequency, 123_456_789);
}

#[test]
fn attenuation_is_reported_but_not_folded_into_the_voltage() {
    let mut one_x = blank_capture();
    put(&mut one_x, 4, 2);
    put(&mut one_x, 22, 5);
    put(&mut one_x, 1000, 700);
    let mut hundred_x = one_x.clone();
    put(&mut hundred_x, 10, 2);
    let profile = LayoutProfile::standard();
    let plain = normalize(&decode(&one_x, &profile).unwrap(), &profile).unwrap();
    let probed = normalize(&decode(&hundred_x, &profile).unwrap(), &profile).unwrap();
    assert_eq!(plain.channel1.attenuation, Attenuation::OneX);
    assert_eq!(probed.channel1.attenuation, Attenuation::OneHundredX);
    assert_eq!(plain.channel1.points, probed.channel1.points);
    assert_eq!(probed.channel1.points[0].voltage, 700 * 20_000_000_000);
}

/// Flags the choice of buffer for the trace of channel 2: the profile of the
/// common firmware draws it from channel 1's coarse buffer.
#[test]
fn channel2_trace_of_the_standard_profile_is_drawn_from_channel1_samples() {
    let file = ramp_file();
    let data = normalize(&file, &LayoutProfile::standard()).unwrap();
    let expected = generate_points(&file.channel11, &volts(0), &seconds(5), 100);
    assert_eq!(data.channel2.points, expected);
    assert_eq!(data.channel2.points[0].voltage, (0 - 100) * 100_000_000_000);
    assert_ne!(
        data.channel2.points,
        generate_points(&file.channel21, &volts(0), &seconds(5), 100)
    );
}

/// Flags the other choice: a profile may draw channel 2 from its own coarse
/// buffer.
#[test]
fn channel2_trace_can_be_drawn_from_its_own_samples() {
    let file = ramp_file();
    let data = normalize(&file, &own_trace_profile()).unwrap();
    let expected = generate_points(&file.channel21, &volts(0), &seconds(5), 100);
    assert_eq!(data.channel2.points, expected);
    assert_eq!(data.channel2.points[0].voltage, (3000 - 100) * 100_000_000_000);
}

#[test]
fn channel1_trace_does_not_depend_on_the_trace_source_of_channel2() {
    let file = ramp_file();
    let mirrored = normalize(&file, &LayoutProfile::standard()).unwrap();
    let own = normalize(&file, &own_trace_profile()).unwrap();
    assert_eq!(mirrored.channel1, own.channel1);
    assert_eq!(mirrored.channel1.points[10].voltage, (10 - 512) * 20_000_000_000);
}

#[test]
fn fine_buffers_do_not_reach_the_traces() {
    let mut bytes = blank_capture();
    let profile = own_trace_profile();
    let before = normalize(&decode(&bytes, &profile).unwrap(), &profile).unwrap();
    for at in 7000..10_000 {
        bytes[at] = 0x77;
    }
    let after = normalize(&decode(&bytes, &profile).unwrap(), &profile).unwrap();
    assert_eq!(before, after);
}

#[test]
fn normalization_fails_on_a_scale_index_past_its_table() {
    let profile = LayoutProfile::standard();
    for (at, code, table_len) in [(4usize, 7u16, 7usize), (14, 8, 7), (22, 33, 33)] {
        let mut bytes = blank_capture();
        put(&mut bytes, at, code);
        let file = decode(&bytes, &profile).unwrap();
        assert_eq!(
            normalize(&file, &profile),
            Err(DecodeError::ScaleIndexOutOfRange { index: code, table_len })
        );
    }
}

#[test]
fn normalization_fails_on_an_unknown_setting() {
    let profile = LayoutProfile::standard();
    let fields: [(usize, u16, EnumField); 9] = [
        (8, 2, EnumField::Coupling),
        (10, 3, EnumField::Attenuation),
        (18, 200, EnumField::Coupling),
        (20, 3, EnumField::Attenuation),
        (24, 2, EnumField::ScrollSpeed),
        (26, 3, EnumField::TriggerType),
        (28, 2, EnumField::TriggerEdge),
        (30, 2, EnumField::TriggerChannel),
        (124, 0xffff, EnumField::Trigger50),
    ];
    for (at, code, field_name) in fields {
        let mut bytes = blank_capture();
        put(&mut bytes, at, code);
        let file = decode(&bytes, &profile).unwrap();
        assert_eq!(
            normalize(&file, &profile),
            Err(DecodeError::UnknownEnumCode { field_name, raw_code: code })
        );
    }
}

#[test]
fn normalization_reports_the_first_bad_code_in_header_order() {
    let profile = LayoutProfile::standard();
    let mut bytes = blank_capture();
    put(&mut bytes, 124, 9);
    put(&mut bytes, 22, 40);
    put(&mut bytes, 14, 12);
    let file = decode(&bytes, &profile).unwrap();
    assert_eq!(
        normalize(&file, &profile),
        Err(DecodeError::ScaleIndexOutOfRange { index: 12, table_len: 7 })
    );
}

#[test]
fn inline_decode_and_normalization_report_the_same_fault() {
    let deferred = LayoutProfile::standard();
    let inline = LayoutProfile { code_resolution: CodeResolution::Inline, ..deferred };
    let cases: [(usize, u16); 6] = [(4, 7), (10, 3), (22, 33), (24, 2), (30, 5), (124, 2)];
    for (at, code) in cases {
        let mut bytes = blank_capture();
        put(&mut bytes, at, code);
        let file = decode(&bytes, &deferred).unwrap();
        let late = normalize(&file, &deferred).unwrap_err();
        let early = decode(&bytes, &inline).unwrap_err();
        assert_eq!(early, late);
    }
}

#[test]
fn capture_that_decodes_inline_always_normalizes() {
    let inline =
        LayoutProfile { code_resolution: CodeResolution::Inline, ..LayoutProfile::standard() };
    for seed in 0..40u16 {
        let mut bytes = blank_capture();
        put(&mut bytes, 4, seed % 7);
        put(&mut bytes, 8, seed % 2);
        put(&mut bytes, 10, seed % 3);
        put(&mut bytes, 14, (seed / 2) % 7);
        put(&mut bytes, 22, seed % 33);
        put(&mut bytes, 26, seed % 3);
        put(&mut bytes, 84, seed * 1000);
        let file = decode(&bytes, &inline).unwrap();
        assert!(normalize(&file, &inline).is_ok());
    }
}
