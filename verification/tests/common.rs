use rtos::common::{append_prefix, WriteBytes};

#[derive(Debug, PartialEq)]
struct FormattedString<T>(T);

#[test]
fn confirm_prefix() {
    let data = "Tx data".as_bytes();

    // Append text `Echo: ` before the received data.
    let prefix = "Echo: ";
    let mut writer = WriteBytes(Vec::new());
    let joined = String::from_utf8(append_prefix(prefix, &data).clone()).unwrap();
    let _ = writer.write_str(&joined);

    let res = String::from_utf8(writer.0).unwrap();
    assert_eq!(FormattedString("Echo: Tx data"), FormattedString(&*res));
}

#[test]
fn append_prefix_joins_bytes_in_order() {
    let out = append_prefix("AT", b"B\r\n");
    assert_eq!(out, vec![b'A', b'T', b'B', b'\r', b'\n']);
    assert_eq!(out.len(), 2 + 3);
}

#[test]
fn append_prefix_empty_sides() {
    assert_eq!(append_prefix("", b"xy"), vec![b'x', b'y']);
    assert_eq!(append_prefix("xy", b""), vec![b'x', b'y']);
    assert_eq!(append_prefix("", b""), Vec::<u8>::new());
}

#[test]
fn write_bytes_accumulates_and_exposes_slice() {
    let mut writer = WriteBytes(Vec::new());
    assert!(writer.write_str("ab").is_ok());
    assert!(writer.write_str("").is_ok());
    assert!(writer.write_str("c").is_ok());
    assert_eq!(writer.as_slice(), b"abc");
}
