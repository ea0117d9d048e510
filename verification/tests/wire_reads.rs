use binread::io::{Cursor, Seek, SeekFrom};
use binread::BinReaderExt;
use scope_capture::error::DecodeError;
use scope_capture::profile::{Endian, FieldWidth};
use scope_capture::wire::{
    compose_word, native_endian, probe_endian, read_field, read_run, read_wide,
};

#[test]
fn word_is_composed_in_the_stored_order() {
    assert_eq!(compose_word(0x34, 0x12, Endian::Little), 0x1234);
    assert_eq!(compose_word(0x34, 0x12, Endian::Big), 0x3412);
    assert_eq!(compose_word(0xff, 0xff, Endian::Little), 0xffff);
    assert_eq!(compose_word(0, 0, Endian::Big), 0);
}

#[test]
fn field_of_one_byte_ignores_the_byte_order() {
    let bytes = [0x11u8, 0x22, 0x33];
    assert_eq!(read_field(&bytes, 1, FieldWidth::Byte, Endian::Little), Ok(0x22));
    assert_eq!(read_field(&bytes, 1, FieldWidth::Byte, Endian::Big), Ok(0x22));
    assert_eq!(read_field(&bytes, 2, FieldWidth::Byte, Endian::Little), Ok(0x33));
}

#[test]
fn field_of_two_bytes_follows_the_byte_order() {
    let bytes = [0x11u8, 0x22, 0x33];
    assert_eq!(read_field(&bytes, 1, FieldWidth::Word, Endian::Little), Ok(0x3322));
    assert_eq!(read_field(&bytes, 1, FieldWidth::Word, Endian::Big), Ok(0x2233));
}

#[test]
fn field_that_ends_past_the_buffer_is_truncated() {
    let bytes = [0x11u8, 0x22, 0x33];
    assert_eq!(
        read_field(&bytes, 2, FieldWidth::Word, Endian::Little),
        Err(DecodeError::TruncatedInput { expected_bytes: 4, available_bytes: 3 })
    );
    assert_eq!(
        read_field(&bytes, 3, FieldWidth::Byte, Endian::Little),
        Err(DecodeError::TruncatedInput { expected_bytes: 4, available_bytes: 3 })
    );
    assert_eq!(
        read_field(&[], 0, FieldWidth::Word, Endian::Little),
        Err(DecodeError::TruncatedInput { expected_bytes: 2, available_bytes: 0 })
    );
    assert_eq!(
        read_field(&bytes, 1_000_000, FieldWidth::Word, Endian::Little),
        Err(DecodeError::TruncatedInput { expected_bytes: 1_000_002, available_bytes: 3 })
    );
}

#[test]
fn wide_field_follows_the_byte_order() {
    let bytes = [0u8, 0x78, 0x56, 0x34, 0x12];
    assert_eq!(read_wide(&bytes, 1, Endian::Little), Ok(0x1234_5678));
    assert_eq!(read_wide(&bytes, 1, Endian::Big), Ok(0x7856_3412));
    assert_eq!(read_wide(&[0xff, 0xff, 0xff, 0xff], 0, Endian::Little), Ok(u32::MAX));
}

#[test]
fn wide_field_that_ends_past_the_buffer_is_truncated() {
    let bytes = [0u8, 0x78, 0x56, 0x34, 0x12];
    assert_eq!(
        read_wide(&bytes, 2, Endian::Little),
        Err(DecodeError::TruncatedInput { expected_bytes: 6, available_bytes: 5 })
    );
}

#[test]
fn run_reads_its_fields_in_order() {
    let bytes = [9u8, 1, 0, 2, 0, 3, 0];
    assert_eq!(read_run(&bytes, 1, 3, FieldWidth::Word, Endian::Little), Ok(vec![1, 2, 3]));
    assert_eq!(
        read_run(&bytes, 1, 3, FieldWidth::Word, Endian::Big),
        Ok(vec![0x0100, 0x0200, 0x0300])
    );
    assert_eq!(
        read_run(&bytes, 0, 7, FieldWidth::Byte, Endian::Little),
        Ok(vec![9, 1, 0, 2, 0, 3, 0])
    );
}

#[test]
fn empty_run_reads_nothing_anywhere_inside_the_buffer() {
    let bytes = [9u8, 1];
    assert_eq!(read_run(&bytes, 2, 0, FieldWidth::Word, Endian::Little), Ok(vec![]));
}

#[test]
fn run_that_ends_past_the_buffer_is_truncated_as_a_whole() {
    let bytes = [9u8, 1, 0, 2, 0, 3];
    assert_eq!(
        read_run(&bytes, 1, 3, FieldWidth::Word, Endian::Little),
        Err(DecodeError::TruncatedInput { expected_bytes: 7, available_bytes: 6 })
    );
}

#[test]
fn probe_of_one_is_little_endian_and_any_other_is_big_endian() {
    assert_eq!(probe_endian(1), Endian::Little);
    assert_eq!(probe_endian(256), Endian::Big);
    assert_eq!(probe_endian(0), Endian::Big);
    assert_eq!(probe_endian(u16::MAX), Endian::Big);
    assert_eq!(compose_word(1, 0, probe_endian(1)), 1);
    assert_eq!(compose_word(1, 0, probe_endian(256)), 256);
}

#[test]
fn native_endian_is_the_probe_of_this_machine() {
    assert_eq!(native_endian(), probe_endian(u16::from_ne_bytes([1, 0])));
}

#[test]
fn native_endian_is_the_order_of_this_machine() {
    let expected = if u16::from_ne_bytes([1, 0]) == 1 { Endian::Little } else { Endian::Big };
    assert_eq!(native_endian(), expected);
    assert_eq!(
        compose_word(0x34, 0x12, native_endian()),
        u16::from_ne_bytes([0x34, 0x12])
    );
}

#[test]
fn little_endian_fields_agree_with_binread() {
    let bytes: Vec<u8> = (0..=255u8).rev().collect();
    let mut cursor = Cursor::new(&bytes);
    for at in [0u64, 1, 7, 100, 254] {
        cursor.seek(SeekFrom::Start(at)).unwrap();
        let word: u16 = cursor.read_le().unwrap();
        assert_eq!(read_field(&bytes, at, FieldWidth::Word, Endian::Little), Ok(word));
        cursor.seek(SeekFrom::Start(at)).unwrap();
        let byte: u8 = cursor.read_le().unwrap();
        assert_eq!(read_field(&bytes, at, FieldWidth::Byte, Endian::Little), Ok(byte as u16));
    }
    for at in [0u64, 3, 252] {
        cursor.seek(SeekFrom::Start(at)).unwrap();
        let wide: u32 = cursor.read_le().unwrap();
        assert_eq!(read_wide(&bytes, at, Endian::Little), Ok(wide));
    }
}

#[test]
fn big_endian_and_native_fields_agree_with_binread() {
    let bytes: Vec<u8> = (0..=255u8).collect();
    let mut cursor = Cursor::new(&bytes);
    for at in [0u64, 9, 200] {
        cursor.seek(SeekFrom::Start(at)).unwrap();
        let word: u16 = cursor.read_be().unwrap();
        assert_eq!(read_field(&bytes, at, FieldWidth::Word, Endian::Big), Ok(word));
        cursor.seek(SeekFrom::Start(at)).unwrap();
        let wide: u32 = cursor.read_be().unwrap();
        assert_eq!(read_wide(&bytes, at, Endian::Big), Ok(wide));
        cursor.seek(SeekFrom::Start(at)).unwrap();
        let native: u16 = cursor.read_ne().unwrap();
        assert_eq!(read_field(&bytes, at, FieldWidth::Word, native_endian()), Ok(native));
    }
}

#[test]
fn read_past_the_end_fails_in_binread_too() {
    let bytes = [1u8, 2, 3];
    let mut cursor = Cursor::new(&bytes[..]);
    cursor.seek(SeekFrom::Start(2)).unwrap();
    assert!(cursor.read_le::<u16>().is_err());
    assert!(read_field(&bytes, 2, FieldWidth::Word, Endian::Little).is_err());
}
