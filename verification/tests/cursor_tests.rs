use photomap::cursor::{read_u16, read_u32, ByteOrder};
use photomap::error::ExifError;

#[test]
fn read_u16_in_both_orders() {
    let data = [0x12u8, 0x34, 0x56];
    assert_eq!(read_u16(&data, 0, ByteOrder::BigEndian), Ok(0x1234));
    assert_eq!(read_u16(&data, 0, ByteOrder::LittleEndian), Ok(0x3412));
    assert_eq!(read_u16(&data, 1, ByteOrder::BigEndian), Ok(0x3456));
}

#[test]
fn read_u16_past_the_end_is_truncated() {
    let data = [0x12u8, 0x34, 0x56];
    assert_eq!(read_u16(&data, 2, ByteOrder::BigEndian), Err(ExifError::TruncatedBuffer));
    assert_eq!(read_u16(&data, usize::MAX, ByteOrder::BigEndian), Err(ExifError::TruncatedBuffer));
    assert_eq!(read_u16(&[], 0, ByteOrder::LittleEndian), Err(ExifError::TruncatedBuffer));
}

#[test]
fn read_u32_in_both_orders() {
    let data = [0x01u8, 0x02, 0x03, 0x04, 0x05];
    assert_eq!(read_u32(&data, 0, ByteOrder::BigEndian), Ok(0x01020304));
    assert_eq!(read_u32(&data, 0, ByteOrder::LittleEndian), Ok(0x04030201));
    assert_eq!(read_u32(&data, 1, ByteOrder::BigEndian), Ok(0x02030405));
    assert_eq!(read_u32(&data, 2, ByteOrder::BigEndian), Err(ExifError::TruncatedBuffer));
}
