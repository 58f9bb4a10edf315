use memprocfs::error::VmmError;
use memprocfs::registry::{reg_path_split, reg_type_needs_data, VmmRegValueType};

fn utf16(s: &str) -> Vec<u8> {
    s.encode_utf16().flat_map(|u| u.to_le_bytes()).collect()
}

#[test]
fn decode_integers() {
    assert!(matches!(VmmRegValueType::decode(4, &vec![0x78, 0x56, 0x34, 0x12]), Ok(VmmRegValueType::REG_DWORD(0x12345678))));
    assert!(matches!(VmmRegValueType::decode(5, &vec![0x12, 0x34, 0x56, 0x78]), Ok(VmmRegValueType::REG_DWORD_BIG_ENDIAN(0x12345678))));
    assert!(matches!(
        VmmRegValueType::decode(11, &vec![1, 0, 0, 0, 2, 0, 0, 0]),
        Ok(VmmRegValueType::REG_QWORD(0x0000000200000001))
    ));
    assert!(matches!(VmmRegValueType::decode(4, &vec![1, 2, 3]), Err(VmmError::RegBadSize)));
    assert!(matches!(VmmRegValueType::decode(11, &vec![1, 2, 3, 4]), Err(VmmError::RegBadSize)));
}

#[test]
fn decode_strings() {
    let mut data = utf16("hello");
    data.extend_from_slice(&[0, 0]);
    data.extend(utf16("junk"));
    match VmmRegValueType::decode(1, &data) {
        Ok(VmmRegValueType::REG_SZ(s)) => assert_eq!(s, "hello"),
        other => panic!("unexpected {:?}", other),
    }
    match VmmRegValueType::decode(2, &utf16("%PATH%")) {
        Ok(VmmRegValueType::REG_EXPAND_SZ(s)) => assert_eq!(s, "%PATH%"),
        other => panic!("unexpected {:?}", other),
    }
    assert!(matches!(VmmRegValueType::decode(1, &vec![0x41, 0, 0x42]), Err(VmmError::RegBadSize)));
}

#[test]
fn decode_multi_strings() {
    let mut data = utf16("one");
    data.extend_from_slice(&[0, 0, 0, 0]);
    data.extend(utf16("two"));
    data.extend_from_slice(&[0, 0]);
    data.extend(utf16("three"));
    match VmmRegValueType::decode(7, &data) {
        Ok(VmmRegValueType::REG_MULTI_SZ(v)) => assert_eq!(v, vec!["one", "two", "three"]),
        other => panic!("unexpected {:?}", other),
    }
}

#[test]
fn decode_binary_none_and_unknown() {
    match VmmRegValueType::decode(3, &vec![9, 8, 7]) {
        Ok(VmmRegValueType::REG_BINARY(v)) => assert_eq!(v, vec![9, 8, 7]),
        other => panic!("unexpected {:?}", other),
    }
    assert!(matches!(VmmRegValueType::decode(0, &vec![1]), Ok(VmmRegValueType::REG_NONE)));
    assert!(matches!(VmmRegValueType::decode(12, &vec![]), Err(VmmError::RegUnknownType)));
    assert!(!reg_type_needs_data(0));
    assert!(reg_type_needs_data(11));
    assert!(!reg_type_needs_data(12));
}

#[test]
fn registry_value_text() {
    assert_eq!(VmmRegValueType::REG_DWORD(0x1234).to_string(), "REG_DWORD(0x1234)");
    assert_eq!(VmmRegValueType::REG_QWORD(0).to_string(), "REG_QWORD(0x0)");
    assert_eq!(VmmRegValueType::REG_DWORD_BIG_ENDIAN(0xdeadbeef).to_string(), "REG_DWORD_BIG_ENDIAN(0xdeadbeef)");
    assert_eq!(VmmRegValueType::REG_SZ(String::from("ab")).to_string(), "REG_SZ(ab)");
    assert_eq!(VmmRegValueType::REG_LINK(String::from("x")).to_string(), "REG_LINK(x)");
    assert_eq!(VmmRegValueType::REG_BINARY(vec![1]).to_string(), "REG_BINARY");
    assert_eq!(VmmRegValueType::REG_NONE.to_string(), "REG_NONE");
}

#[test]
fn registry_path_split() {
    let p = "HKLM\\SOFTWARE\\Key\\\\";
    let (split, end) = reg_path_split(p.as_bytes()).unwrap();
    assert_eq!(&p[..split], "HKLM\\SOFTWARE");
    assert_eq!(&p[split + 1..end], "Key");
    assert_eq!(reg_path_split(b"HKLM"), None);
    assert_eq!(reg_path_split(b"\\Key"), None);
    assert_eq!(reg_path_split(b"HKLM\\\\"), None);
    assert_eq!(reg_path_split(b""), None);
}

#[test]
fn decode_utf16_surrogates() {
    let mut data = vec![0x3d, 0xd8, 0x00, 0xde];
    data.extend_from_slice(&[0x00, 0xd8, 0x41, 0x00]);
    match VmmRegValueType::decode(1, &data) {
        Ok(VmmRegValueType::REG_SZ(s)) => assert_eq!(s, "\u{1F600}\u{FFFD}A"),
        other => panic!("unexpected {:?}", other),
    }
}
