use scope_capture::error::DecodeError;
use scope_capture::scale::{table_len, Scale, Unit, DIVISION_POINTS};

fn time_closed_form(index: u32) -> u64 {
    let digit = [5u64, 2, 1][(index % 3) as usize];
    digit * 10u64.pow(13 - index / 3)
}

#[test]
fn time_table_has_33_entries_and_voltage_table_7() {
    assert_eq!(table_len(Unit::Second), 33);
    assert_eq!(table_len(Unit::Volt), 7);
}

#[test]
fn every_time_index_resolves_to_its_closed_form() {
    for index in 0..33u16 {
        let scale = Scale::try_from_primitive(Unit::Second, index).unwrap();
        assert_eq!(scale.get_scale(), time_closed_form(index as u32), "index {}", index);
        assert_eq!(scale.unit(), Unit::Second);
    }
}

#[test]
fn time_table_spans_50_seconds_down_to_1_nanosecond() {
    let first = Scale::try_from_primitive(Unit::Second, 0).unwrap();
    let last = Scale::try_from_primitive(Unit::Second, 32).unwrap();
    assert_eq!(first.get_scale(), 50_000_000_000_000);
    assert_eq!(last.get_scale(), 1_000);
}

#[test]
fn time_table_strictly_decreases() {
    for index in 1..33u16 {
        let before = Scale::try_from_primitive(Unit::Second, index - 1).unwrap();
        let here = Scale::try_from_primitive(Unit::Second, index).unwrap();
        assert!(here.get_scale() < before.get_scale());
    }
}

#[test]
fn time_index_5_is_one_second_per_division() {
    let scale = Scale::try_from_primitive(Unit::Second, 5).unwrap();
    assert_eq!(scale.mantissa_tenths(), 10);
    assert_eq!(scale.exponent(), 0);
    assert_eq!(scale.get_scale(), 1_000_000_000_000);
    assert_eq!(scale.get_scale() as f64 / 1e12, 1.0);
}

#[test]
fn time_entries_carry_the_listed_mantissa_and_exponent() {
    let expected: [(u16, i32); 9] = [
        (500, 0),
        (200, 0),
        (100, 0),
        (50, 0),
        (20, 0),
        (10, 0),
        (5000, -3),
        (2000, -3),
        (1000, -3),
    ];
    for (index, (tenths, exponent)) in expected.iter().enumerate() {
        let scale = Scale::try_from_primitive(Unit::Second, index as u16).unwrap();
        assert_eq!(scale.mantissa_tenths(), *tenths);
        assert_eq!(scale.exponent(), *exponent);
    }
    let last = Scale::try_from_primitive(Unit::Second, 32).unwrap();
    assert_eq!((last.mantissa_tenths(), last.exponent()), (10, -9));
}

#[test]
fn every_voltage_index_resolves_to_its_entry() {
    let expected: [u64; 7] = [
        5_000_000_000_000,
        2_500_000_000_000,
        1_000_000_000_000,
        500_000_000_000,
        200_000_000_000,
        100_000_000_000,
        50_000_000_000,
    ];
    for (index, pico) in expected.iter().enumerate() {
        let scale = Scale::try_from_primitive(Unit::Volt, index as u16).unwrap();
        assert_eq!(scale.get_scale(), *pico);
        assert_eq!(scale.unit(), Unit::Volt);
    }
}

#[test]
fn voltage_index_1_is_two_and_a_half_volts() {
    let scale = Scale::try_from_primitive(Unit::Volt, 1).unwrap();
    assert_eq!(scale.mantissa_tenths(), 25);
    assert_eq!(scale.exponent(), 0);
    assert_eq!(scale.get_scale() as f64 / 1e12, 2.5);
}

#[test]
fn time_index_at_table_length_is_out_of_range() {
    assert_eq!(
        Scale::try_from_primitive(Unit::Second, 33),
        Err(DecodeError::ScaleIndexOutOfRange { index: 33, table_len: 33 })
    );
}

#[test]
fn voltage_index_at_table_length_is_out_of_range() {
    assert_eq!(
        Scale::try_from_primitive(Unit::Volt, 7),
        Err(DecodeError::ScaleIndexOutOfRange { index: 7, table_len: 7 })
    );
}

#[test]
fn largest_code_is_out_of_range_in_both_tables() {
    assert_eq!(
        Scale::try_from_primitive(Unit::Volt, u16::MAX),
        Err(DecodeError::ScaleIndexOutOfRange { index: u16::MAX, table_len: 7 })
    );
    assert_eq!(
        Scale::try_from_primitive(Unit::Second, u16::MAX),
        Err(DecodeError::ScaleIndexOutOfRange { index: u16::MAX, table_len: 33 })
    );
}

#[test]
fn every_index_past_the_table_fails() {
    for index in 33..200u16 {
        assert!(Scale::try_from_primitive(Unit::Second, index).is_err());
    }
    for index in 7..200u16 {
        assert!(Scale::try_from_primitive(Unit::Volt, index).is_err());
    }
}

#[test]
fn every_entry_divides_into_fifty_points() {
    for index in 0..33u16 {
        let scale = Scale::try_from_primitive(Unit::Second, index).unwrap();
        assert_eq!(scale.get_scale() % DIVISION_POINTS, 0);
    }
    for index in 0..7u16 {
        let scale = Scale::try_from_primitive(Unit::Volt, index).unwrap();
        assert_eq!(scale.get_scale() % DIVISION_POINTS, 0);
    }
}

#[test]
fn scale_text_of_whole_mantissas() {
    let text = |unit, index| Scale::try_from_primitive(unit, index).unwrap().to_text();
    assert_eq!(text(Unit::Second, 0), "50s");
    assert_eq!(text(Unit::Second, 5), "1s");
    assert_eq!(text(Unit::Second, 6), "500ms");
    assert_eq!(text(Unit::Second, 16), "200us");
    assert_eq!(text(Unit::Second, 29), "10ns");
    assert_eq!(text(Unit::Second, 32), "1ns");
    assert_eq!(text(Unit::Volt, 0), "5V");
    assert_eq!(text(Unit::Volt, 3), "500mV");
    assert_eq!(text(Unit::Volt, 6), "50mV");
}

#[test]
fn scale_text_of_a_fractional_mantissa() {
    let scale = Scale::try_from_primitive(Unit::Volt, 1).unwrap();
    assert_eq!(scale.to_text(), "2.5V");
}

#[test]
fn equal_indices_give_equal_scales() {
    let a = Scale::try_from_primitive(Unit::Volt, 4).unwrap();
    let b = Scale::try_from_primitive(Unit::Volt, 4).unwrap();
    let c = Scale::try_from_primitive(Unit::Volt, 5).unwrap();
    assert_eq!(a, b);
    assert_ne!(a, c);
}
