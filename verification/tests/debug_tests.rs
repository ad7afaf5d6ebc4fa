use grpc::debug::{bytes_debug, header_debug};
use grpc::server::Header;

#[test]
fn printable_bytes_are_shown_as_is() {
    assert_eq!(bytes_debug(b"hello world"), "b\"hello world\"");
    assert_eq!(bytes_debug(b""), "b\"\"");
}

#[test]
fn other_bytes_are_escaped_in_hex() {
    assert_eq!(bytes_debug(&[0x00, 0x41, 0x7f, 0xff, 0x0a]), "b\"\\x00A\\x7f\\xff\\x0a\"");
    assert!(bytes_debug(&[1, 2, 200, 31]).chars().all(|c| (' '..='~').contains(&c)));
}

#[test]
fn header_debug_text() {
    let h = Header::new(b":status", b"2\x0100");
    assert_eq!(header_debug(&h), "Header { name: b\":status\", value: b\"2\\x0100\" }");
}
