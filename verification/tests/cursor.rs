use mrt_dump::{ByteCursor, DecodeError};

#[test]
fn reads_are_big_endian() {
    let data = [0x12u8, 0x34, 0x56, 0x78, 0x9a, 0xbc, 0xde];
    let mut cursor = ByteCursor::new(&data);
    assert_eq!(cursor.read_u8(), Ok(0x12));
    assert_eq!(cursor.read_u16(), Ok(0x3456));
    assert_eq!(cursor.read_u32(), Ok(0x789a_bcde));
    assert_eq!(cursor.remaining(), 0);
    assert_eq!(cursor.position(), 7);
}

#[test]
fn read_u16_is_not_little_endian() {
    let data = [0x00u8, 0x01];
    let mut cursor = ByteCursor::new(&data);
    assert_eq!(cursor.read_u16(), Ok(1));
}

#[test]
fn read_u32_extremes() {
    let data = [0xffu8, 0xff, 0xff, 0xff, 0, 0, 0, 0, 0x80, 0, 0, 0];
    let mut cursor = ByteCursor::new(&data);
    assert_eq!(cursor.read_u32(), Ok(u32::MAX));
    assert_eq!(cursor.read_u32(), Ok(0));
    assert_eq!(cursor.read_u32(), Ok(0x8000_0000));
}

#[test]
fn failed_read_leaves_the_cursor_in_place() {
    let data = [1u8, 2, 3];
    let mut cursor = ByteCursor::new(&data);
    assert_eq!(cursor.read_u32(), Err(DecodeError::Truncated));
    assert_eq!(cursor.position(), 0);
    assert_eq!(cursor.remaining(), 3);
    assert_eq!(cursor.read_u16(), Ok(0x0102));
    assert_eq!(cursor.read_u16(), Err(DecodeError::Truncated));
    assert_eq!(cursor.position(), 2);
    assert_eq!(cursor.remaining(), 1);
    assert_eq!(cursor.read_u8(), Ok(3));
    assert_eq!(cursor.read_u8(), Err(DecodeError::Truncated));
    assert_eq!(cursor.position(), 3);
    assert_eq!(cursor.remaining(), 0);
}

#[test]
fn reads_on_an_empty_region_fail() {
    let data: [u8; 0] = [];
    let mut cursor = ByteCursor::new(&data);
    assert_eq!(cursor.remaining(), 0);
    assert_eq!(cursor.read_u8(), Err(DecodeError::Truncated));
    assert_eq!(cursor.read_u16(), Err(DecodeError::Truncated));
    assert_eq!(cursor.read_u32(), Err(DecodeError::Truncated));
    assert_eq!(cursor.take(1), Err(DecodeError::Truncated));
    assert_eq!(cursor.take(0), Ok(&data[..]));
    assert_eq!(cursor.position(), 0);
}

#[test]
fn take_hands_out_exactly_n_bytes() {
    let data = [10u8, 20, 30, 40, 50];
    let mut cursor = ByteCursor::new(&data);
    assert_eq!(cursor.take(2), Ok(&data[0..2]));
    assert_eq!(cursor.position(), 2);
    assert_eq!(cursor.take(4), Err(DecodeError::Truncated));
    assert_eq!(cursor.position(), 2);
    assert_eq!(cursor.take(3), Ok(&data[2..5]));
    assert_eq!(cursor.remaining(), 0);
}

#[test]
fn taken_span_borrows_from_the_region() {
    let data = [1u8, 2, 3, 4];
    let mut cursor = ByteCursor::new(&data);
    let _ = cursor.read_u8();
    let span = cursor.take(2).unwrap();
    assert_eq!(span.as_ptr(), data[1..].as_ptr());
    assert_eq!(span.len(), 2);
}

#[test]
fn length_prefixed_span() {
    let data = [0u8, 3, 7, 8, 9, 0xaa];
    let mut cursor = ByteCursor::new(&data);
    assert_eq!(cursor.take_u16_prefixed(), Ok(&data[2..5]));
    assert_eq!(cursor.position(), 5);
    assert_eq!(cursor.remaining(), 1);
}

#[test]
fn length_prefixed_span_of_length_zero() {
    let data = [0u8, 0, 5];
    let mut cursor = ByteCursor::new(&data);
    assert_eq!(cursor.take_u16_prefixed(), Ok(&data[2..2]));
    assert_eq!(cursor.position(), 2);
}

#[test]
fn length_prefixed_span_cut_short_leaves_the_cursor_in_place() {
    let data = [0u8, 4, 7, 8, 9];
    let mut cursor = ByteCursor::new(&data);
    assert_eq!(cursor.take_u16_prefixed(), Err(DecodeError::Truncated));
    assert_eq!(cursor.position(), 0);
    assert_eq!(cursor.remaining(), 5);

    let short = [1u8];
    let mut cursor = ByteCursor::new(&short);
    assert_eq!(cursor.take_u16_prefixed(), Err(DecodeError::Truncated));
    assert_eq!(cursor.position(), 0);
}
