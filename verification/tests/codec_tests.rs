use blight::codec::{construct_path, read_ascii_u32, u32_to_ascii};
use blight::text::u32_to_string;

#[test]
fn ascii_conversion() {
    let cases: [(&[u8], u32); 4] = [
        (b"123\n".as_slice(), 123),
        (b"999\n".as_slice(), 999),
        (b"0".as_slice(), 0),
        (b"4294967295".as_slice(), u32::MAX),
    ];
    for (i, (case, expected)) in cases.into_iter().enumerate() {
        let value = read_ascii_u32(case).expect("failed to convert ASCII bytes to u32");
        assert_eq!(value, expected, "case {i} failed");
    }
}

#[test]
fn read_value() {
    assert_eq!(50, read_ascii_u32(b"50").unwrap());
}

#[test]
fn path_construction() {
    assert_eq!(construct_path("testbldir", "generic"), "testbldir/generic");
}

#[test]
fn rejects_empty_and_overlong_reads() {
    assert_eq!(read_ascii_u32(b""), None);
    assert_eq!(read_ascii_u32(b"12345678901"), None);
}

#[test]
fn renders_decimal_digits() {
    assert_eq!(u32_to_ascii(0).as_slice(), b"0");
    assert_eq!(u32_to_ascii(100).as_slice(), b"100");
    assert_eq!(u32_to_ascii(4294967295).as_slice(), b"4294967295");
}

#[test]
fn renders_decimal_string() {
    assert_eq!(u32_to_string(0), "0");
    assert_eq!(u32_to_string(255), "255");
    assert_eq!(u32_to_string(4294967295), "4294967295");
}

#[test]
fn write_read_round_trip() {
    for v in [0u32, 1, 9, 10, 99, 100, 12345, 999999999, u32::MAX] {
        let bytes = u32_to_ascii(v);
        assert_eq!(read_ascii_u32(&bytes), Some(v));
        if v < 1000000000 {
            let mut with_newline = bytes.clone();
            with_newline.push(b'\n');
            assert_eq!(read_ascii_u32(&with_newline), Some(v));
        }
    }
}
