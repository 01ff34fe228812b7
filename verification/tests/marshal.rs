use vaal::marshal::from_native;
use vaal::{Error, NativeString};

#[test]
fn native_string_appends_the_terminator() {
    let device = NativeString::new("cpu").unwrap();
    assert_eq!(device.as_bytes_with_nul(), b"cpu\0");
    assert_eq!(device.len(), 3);
}

#[test]
fn native_string_of_empty_text_is_the_terminator_alone() {
    let empty = NativeString::new("").unwrap();
    assert_eq!(empty.as_bytes_with_nul(), &[0u8]);
    assert_eq!(empty.len(), 0);
}

#[test]
fn native_string_keeps_the_bytes_of_text_outside_ascii() {
    let name = NativeString::new("modèle").unwrap();
    assert_eq!(name.len(), "modèle".len());
    let mut expected = "modèle".as_bytes().to_vec();
    expected.push(0);
    assert_eq!(name.as_bytes_with_nul(), &expected[..]);
}

#[test]
fn native_string_refuses_an_embedded_terminator() {
    let refused = NativeString::new("ab\0cd").unwrap_err();
    assert_eq!(
        refused,
        Error::WrapperError("nul byte found in provided data at position: 2".to_string())
    );
}

#[test]
fn native_string_refuses_a_leading_terminator() {
    let refused = NativeString::new("\0").unwrap_err();
    assert_eq!(
        refused,
        Error::WrapperError("nul byte found in provided data at position: 0".to_string())
    );
}

#[test]
fn native_string_names_the_first_of_several_terminators() {
    let refused = NativeString::new("abc\0de\0f\0").unwrap_err();
    assert_eq!(
        refused,
        Error::WrapperError("nul byte found in provided data at position: 3".to_string())
    );
}

#[test]
fn native_string_names_positions_of_several_digits() {
    let mut text = "x".repeat(12);
    text.push('\0');
    assert_eq!(
        NativeString::new(&text).unwrap_err(),
        Error::WrapperError("nul byte found in provided data at position: 12".to_string())
    );
    let mut text = "y".repeat(1090);
    text.push('\0');
    text.push_str("tail");
    assert_eq!(
        NativeString::new(&text).unwrap_err(),
        Error::WrapperError("nul byte found in provided data at position: 1090".to_string())
    );
}

#[test]
fn native_string_counts_the_position_in_bytes() {
    let refused = NativeString::new("é\0").unwrap_err();
    assert_eq!(
        refused,
        Error::WrapperError("nul byte found in provided data at position: 2".to_string())
    );
}

#[test]
fn from_native_reads_text() {
    assert_eq!(from_native(Some(b"output_0".to_vec())), Some("output_0".to_string()));
    assert_eq!(
        from_native(Some("températures".as_bytes().to_vec())),
        Some("températures".to_string())
    );
}

#[test]
fn from_native_reads_an_empty_string() {
    assert_eq!(from_native(Some(Vec::new())), Some(String::new()));
}

#[test]
fn from_native_of_a_null_pointer_is_absent() {
    assert_eq!(from_native(None), None);
}

#[test]
fn from_native_of_bytes_that_are_not_text_is_absent() {
    assert_eq!(from_native(Some(vec![0xff, 0xfe])), None);
    assert_eq!(from_native(Some(vec![b'a', 0xc3])), None);
}
