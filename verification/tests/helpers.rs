use msgpacker::endian::{i16_from_be_bytes, u16_from_be_bytes, u32_from_be_bytes};
use msgpacker::helpers::{take_byte, take_byte_iter, take_num, take_num_iter};
use msgpacker::Error;

#[test]
fn take_byte_hands_out_the_first_byte_and_moves_on() {
    let data = [7u8, 8, 9];
    let mut buf: &[u8] = &data;
    assert_eq!(take_byte(&mut buf), Ok(7));
    assert_eq!(buf, &[8u8, 9][..]);
    assert_eq!(take_byte(&mut buf), Ok(8));
    assert_eq!(take_byte(&mut buf), Ok(9));
    assert_eq!(buf.len(), 0);
    assert_eq!(take_byte(&mut buf), Err(Error::BufferTooShort));
    assert_eq!(buf.len(), 0);
}

#[test]
fn take_byte_iter_pulls_one_byte() {
    let mut stream = vec![7u8, 8].into_iter();
    assert_eq!(take_byte_iter(&mut stream), Ok(7));
    assert_eq!(take_byte_iter(&mut stream), Ok(8));
    assert_eq!(take_byte_iter(&mut stream), Err(Error::BufferTooShort));
}

#[test]
fn take_num_reads_exactly_the_bytes_of_the_number() {
    let data = [0x12u8, 0x34, 0x56, 0x78, 0x9a];
    let mut buf: &[u8] = &data;
    assert_eq!(take_num(&mut buf, u16_from_be_bytes), Ok(0x1234u16));
    assert_eq!(buf, &[0x56u8, 0x78, 0x9a][..]);
    assert_eq!(take_num(&mut buf, u16_from_be_bytes), Ok(0x5678u16));
    assert_eq!(buf, &[0x9au8][..]);
}

#[test]
fn take_num_leaves_a_short_buffer_as_it_is() {
    let data = [0x12u8, 0x34, 0x56];
    let mut buf: &[u8] = &data;
    assert_eq!(take_num(&mut buf, u32_from_be_bytes), Err(Error::BufferTooShort));
    assert_eq!(buf, &[0x12u8, 0x34, 0x56][..]);
    let mut empty: &[u8] = &[];
    assert_eq!(take_num(&mut empty, i16_from_be_bytes), Err(Error::BufferTooShort));
}

#[test]
fn take_num_hands_the_bytes_to_any_function() {
    let data = [1u8, 2, 3, 4];
    let mut buf: &[u8] = &data;
    let sum = |bytes: [u8; 3]| bytes[0] as u32 + bytes[1] as u32 + bytes[2] as u32;
    assert_eq!(take_num(&mut buf, sum), Ok(6u32));
    assert_eq!(buf, &[4u8][..]);
}

#[test]
fn take_num_iter_pulls_exactly_the_bytes_of_the_number() {
    let mut stream = vec![0xffu8, 0xfe, 0x01, 0x02, 0x03].into_iter();
    assert_eq!(take_num_iter(&mut stream, i16_from_be_bytes), Ok(-2i16));
    assert_eq!(take_num_iter(&mut stream, u16_from_be_bytes), Ok(0x0102u16));
    assert_eq!(stream.next(), Some(3));
}

#[test]
fn take_num_iter_reports_a_stream_that_ends_early() {
    let mut stream = vec![0x01u8, 0x02, 0x03].into_iter();
    assert_eq!(take_num_iter(&mut stream, u32_from_be_bytes), Err(Error::BufferTooShort));
    let mut empty = Vec::<u8>::new().into_iter();
    assert_eq!(take_num_iter(&mut empty, u16_from_be_bytes), Err(Error::BufferTooShort));
}
