use node_host::hex_utils::{hex_str, to_vec};

#[test]
fn encodes_lower_case_hex() {
    let bytes: Vec<u8> = vec![0x00, 0xff, 0x10, 0xab];
    assert_eq!(hex_str(bytes.as_slice()), "00ff10ab");
}

#[test]
fn encodes_empty_to_empty() {
    let bytes: Vec<u8> = vec![];
    assert_eq!(hex_str(bytes.as_slice()), "");
}

#[test]
fn decodes_what_it_encoded() {
    let bytes: Vec<u8> = vec![1, 2, 3, 0, 255, 16, 127, 128];
    let hex = hex_str(bytes.as_slice());
    assert_eq!(to_vec(&hex), Some(bytes));
}

#[test]
fn decodes_upper_case_digits_too() {
    assert_eq!(to_vec("00FF10AB"), Some(vec![0x00, 0xff, 0x10, 0xab]));
}

#[test]
fn refuses_odd_length() {
    assert_eq!(to_vec("abc"), None);
}

#[test]
fn refuses_non_hex_characters() {
    assert_eq!(to_vec("zz"), None);
    assert_eq!(to_vec("0g"), None);
}
