use msgpacker::{Error, NonZero, Unpackable, Zeroable};

/// Payload width of an explicit unsigned tag, written as a table.
fn unsigned_tag(tag: u8) -> Option<usize> {
    [(0xccu8, 1usize), (0xcd, 2), (0xce, 4), (0xcf, 8)]
        .iter()
        .find(|(t, _)| *t == tag)
        .map(|(_, w)| *w)
}

/// Payload width of an explicit signed tag, written as a table.
fn signed_tag(tag: u8) -> Option<usize> {
    [(0xd0u8, 1usize), (0xd1, 2), (0xd2, 4), (0xd3, 8)]
        .iter()
        .find(|(t, _)| *t == tag)
        .map(|(_, w)| *w)
}

/// The sixteen bytes that sign- or zero-extend `payload`.
fn extend(payload: &[u8], fill: u8) -> [u8; 16] {
    let mut wide = [fill; 16];
    wide[16 - payload.len()..].copy_from_slice(payload);
    wide
}

fn wide_payload(bytes: &[u8]) -> Result<[u8; 16], Error> {
    match bytes.get(1) {
        None => Err(Error::BufferTooShort),
        Some(16) => match bytes.get(2..18) {
            None => Err(Error::BufferTooShort),
            Some(payload) => Ok(extend(payload, 0)),
        },
        Some(_) => Err(Error::UnexpectedBinLength),
    }
}

fn expected_unsigned(bytes: &[u8], width: usize) -> Result<(usize, u128), Error> {
    let tag = *bytes.first().ok_or(Error::BufferTooShort)?;
    if tag < 0x80 {
        return Ok((1, tag as u128));
    }
    if let Some(w) = unsigned_tag(tag).filter(|w| *w <= width) {
        let payload = bytes.get(1..1 + w).ok_or(Error::BufferTooShort)?;
        return Ok((1 + w, u128::from_be_bytes(extend(payload, 0))));
    }
    if tag == 0xc4 && width == 16 {
        return wide_payload(bytes).map(|p| (18, u128::from_be_bytes(p)));
    }
    Err(Error::UnexpectedFormatTag)
}

fn expected_signed(bytes: &[u8], width: usize) -> Result<(usize, i128), Error> {
    let tag = *bytes.first().ok_or(Error::BufferTooShort)?;
    if tag < 0x80 {
        return Ok((1, tag as i128));
    }
    if tag >= 0xe0 {
        return Ok((1, tag as i128 - 256));
    }
    if let Some(w) = signed_tag(tag).filter(|w| *w <= width) {
        let payload = bytes.get(1..1 + w).ok_or(Error::BufferTooShort)?;
        let fill = if payload[0] & 0x80 != 0 { 0xff } else { 0x00 };
        return Ok((1 + w, i128::from_be_bytes(extend(payload, fill))));
    }
    if tag == 0xc4 && width == 16 {
        return wide_payload(bytes).map(|p| (18, i128::from_be_bytes(p)));
    }
    Err(Error::UnexpectedFormatTag)
}

/// Every leading byte, before a handful of payloads, cut at every length up to twenty.
fn inputs() -> Vec<Vec<u8>> {
    let mut payloads: Vec<[u8; 19]> = vec![[0x00; 19], [0xff; 19], [0x80; 19], [0x7f; 19]];
    let mut counting = [0u8; 19];
    for (i, b) in counting.iter_mut().enumerate() {
        *b = i as u8 + 1;
    }
    payloads.push(counting);
    for first in [15u8, 16, 17] {
        let mut p = [0xa5u8; 19];
        p[0] = first;
        payloads.push(p);
        let mut p = [0x00u8; 19];
        p[0] = first;
        payloads.push(p);
    }
    let mut state: u64 = 0x2545_f491_4f6c_dd1d;
    for _ in 0..6 {
        let mut p = [0u8; 19];
        for b in p.iter_mut() {
            state ^= state << 13;
            state ^= state >> 7;
            state ^= state << 17;
            *b = state as u8;
        }
        payloads.push(p);
        p[0] = 16;
        payloads.push(p);
    }
    let mut all = vec![Vec::new()];
    for tag in 0..=255u8 {
        for p in &payloads {
            for len in 1..=20usize {
                let mut bytes = vec![tag];
                bytes.extend_from_slice(&p[..len - 1]);
                all.push(bytes);
            }
        }
    }
    all
}

fn check_unsigned<T>(width: usize, value: fn(T) -> u128)
where
    T: Unpackable<Error = Error> + Zeroable + PartialEq + core::fmt::Debug,
{
    for bytes in inputs() {
        let expected = expected_unsigned(&bytes, width);
        let from_buffer = T::unpack(&bytes);
        let mut stream = bytes.iter().copied();
        let from_stream = T::unpack_iter(&mut stream);
        assert_eq!(from_buffer, from_stream, "forms differ on {:x?}", bytes);
        assert_eq!(from_buffer.map(|(n, v)| (n, value(v))), expected, "on {:x?}", bytes);
        if let Ok((n, v)) = from_buffer {
            assert_eq!(stream.count(), bytes.len() - n, "stream position on {:x?}", bytes);
            let optional = <Option<NonZero<T>>>::unpack(&bytes);
            assert_eq!(optional, Ok((n, NonZero::new(v))), "optional on {:x?}", bytes);
            assert_eq!(optional.unwrap().1.is_none(), value(v) == 0);
        } else {
            let optional = <Option<NonZero<T>>>::unpack(&bytes);
            assert_eq!(optional.err(), from_buffer.err());
        }
        let mut stream = bytes.iter().copied();
        assert_eq!(
            <Option<NonZero<T>>>::unpack_iter(&mut stream),
            <Option<NonZero<T>>>::unpack(&bytes)
        );
    }
}

fn check_signed<T>(width: usize, value: fn(T) -> i128)
where
    T: Unpackable<Error = Error> + Zeroable + PartialEq + core::fmt::Debug,
{
    for bytes in inputs() {
        let expected = expected_signed(&bytes, width);
        let from_buffer = T::unpack(&bytes);
        let mut stream = bytes.iter().copied();
        let from_stream = T::unpack_iter(&mut stream);
        assert_eq!(from_buffer, from_stream, "forms differ on {:x?}", bytes);
        assert_eq!(from_buffer.map(|(n, v)| (n, value(v))), expected, "on {:x?}", bytes);
        if let Ok((n, v)) = from_buffer {
            assert_eq!(stream.count(), bytes.len() - n, "stream position on {:x?}", bytes);
            let optional = <Option<NonZero<T>>>::unpack(&bytes);
            assert_eq!(optional, Ok((n, NonZero::new(v))), "optional on {:x?}", bytes);
            assert_eq!(optional.unwrap().1.is_none(), value(v) == 0);
        } else {
            let optional = <Option<NonZero<T>>>::unpack(&bytes);
            assert_eq!(optional.err(), from_buffer.err());
        }
        let mut stream = bytes.iter().copied();
        assert_eq!(
            <Option<NonZero<T>>>::unpack_iter(&mut stream),
            <Option<NonZero<T>>>::unpack(&bytes)
        );
    }
}

#[test]
fn u8_decodes_every_input_as_the_format_says_in_both_forms() {
    check_unsigned::<u8>(1, |v| v as u128);
}

#[test]
fn u16_decodes_every_input_as_the_format_says_in_both_forms() {
    check_unsigned::<u16>(2, |v| v as u128);
}

#[test]
fn u32_decodes_every_input_as_the_format_says_in_both_forms() {
    check_unsigned::<u32>(4, |v| v as u128);
}

#[test]
fn u64_decodes_every_input_as_the_format_says_in_both_forms() {
    check_unsigned::<u64>(8, |v| v as u128);
}

#[test]
fn u128_decodes_every_input_as_the_format_says_in_both_forms() {
    check_unsigned::<u128>(16, |v| v);
}

#[test]
fn usize_decodes_every_input_as_u64_does() {
    assert_eq!(usize::BITS, 64);
    check_unsigned::<usize>(8, |v| v as u128);
}

#[test]
fn i8_decodes_every_input_as_the_format_says_in_both_forms() {
    check_signed::<i8>(1, |v| v as i128);
}

#[test]
fn i16_decodes_every_input_as_the_format_says_in_both_forms() {
    check_signed::<i16>(2, |v| v as i128);
}

#[test]
fn i32_decodes_every_input_as_the_format_says_in_both_forms() {
    check_signed::<i32>(4, |v| v as i128);
}

#[test]
fn i64_decodes_every_input_as_the_format_says_in_both_forms() {
    check_signed::<i64>(8, |v| v as i128);
}

#[test]
fn i128_decodes_every_input_as_the_format_says_in_both_forms() {
    check_signed::<i128>(16, |v| v);
}

#[test]
fn isize_decodes_every_input_as_i64_does() {
    assert_eq!(isize::BITS, 64);
    check_signed::<isize>(8, |v| v as i128);
}

#[test]
fn bytes_read_are_the_tag_and_its_payload() {
    for bytes in inputs() {
        if let Ok((n, _)) = u128::unpack(&bytes) {
            let by_tag = match bytes[0] {
                0xcc => 2,
                0xcd => 3,
                0xce => 5,
                0xcf => 9,
                0xc4 => 18,
                _ => 1,
            };
            assert_eq!(n, by_tag);
            assert!(n <= bytes.len());
            assert_eq!(u128::unpack(&bytes[..n]), u128::unpack(&bytes));
            for cut in 0..n {
                assert_eq!(u128::unpack(&bytes[..cut]), Err(Error::BufferTooShort));
            }
        }
        if let Ok((n, _)) = i128::unpack(&bytes) {
            let by_tag = match bytes[0] {
                0xd0 => 2,
                0xd1 => 3,
                0xd2 => 5,
                0xd3 => 9,
                0xc4 => 18,
                _ => 1,
            };
            assert_eq!(n, by_tag);
            assert!(n <= bytes.len());
            assert_eq!(i128::unpack(&bytes[..n]), i128::unpack(&bytes));
            for cut in 0..n {
                assert_eq!(i128::unpack(&bytes[..cut]), Err(Error::BufferTooShort));
            }
        }
    }
}
