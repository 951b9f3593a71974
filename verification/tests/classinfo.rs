use openvst3::abi::{PClassInfo, K_CATEGORY_SIZE, K_NAME_SIZE};
use openvst3::classinfo::{
    check_class_count, cstr_from_i8_fixed, list_classes, read_class_info_v1,
};
use openvst3::HostError;

fn field<const N: usize>(text: &str) -> [i8; N] {
    let mut buf = [0i8; N];
    for (i, b) in text.bytes().enumerate() {
        buf[i] = b as i8;
    }
    buf
}

fn record(name: &str, category: &str, cid: [u8; 16]) -> PClassInfo {
    let mut raw = [0i8; 16];
    for i in 0..16 {
        raw[i] = cid[i] as i8;
    }
    PClassInfo {
        cid: raw,
        cardinality: 0x7FFFFFFF,
        category: field::<K_CATEGORY_SIZE>(category),
        name: field::<K_NAME_SIZE>(name),
    }
}

#[test]
fn cstr_truncates_at_first_nul() {
    let mut buf = [0i8; 8];
    buf[0] = b'H' as i8;
    buf[1] = b'i' as i8;
    buf[3] = b'!' as i8;
    assert_eq!(cstr_from_i8_fixed(&buf).unwrap(), "Hi");
}

#[test]
fn cstr_reads_full_field_without_nul() {
    let buf = [b'A' as i8; 8];
    assert_eq!(cstr_from_i8_fixed(&buf).unwrap(), "AAAAAAAA");
}

#[test]
fn cstr_rejects_invalid_encoding() {
    let mut buf = [0i8; 8];
    buf[0] = -1;
    assert!(matches!(cstr_from_i8_fixed(&buf), Err(HostError::Utf8)));
}

#[test]
fn cstr_empty_field_is_empty_string() {
    let buf = [0i8; 4];
    assert_eq!(cstr_from_i8_fixed(&buf).unwrap(), "");
}

#[test]
fn read_class_info_decodes_record() {
    let cid = [
        0x01, 0x02, 0x03, 0x04, 0x05, 0x06, 0x07, 0x08, 0x09, 0x0A, 0x0B, 0x0C, 0x0D, 0x0E, 0x0F,
        0x10,
    ];
    let info = record("Gain", "Audio Module Class", cid);
    let (name, category, got) = read_class_info_v1(0, &info).unwrap();
    assert_eq!(name, "Gain");
    assert_eq!(category, "Audio Module Class");
    assert_eq!(got, cid);
}

#[test]
fn read_class_info_surfaces_status() {
    let info = record("Gain", "Audio Module Class", [0u8; 16]);
    assert!(matches!(read_class_info_v1(-4, &info), Err(HostError::TErr(-4))));
}

#[test]
fn read_class_info_rejects_bad_name() {
    let mut info = record("Gain", "Audio Module Class", [0u8; 16]);
    info.name[1] = -1;
    assert!(matches!(read_class_info_v1(0, &info), Err(HostError::Utf8)));
}

#[test]
fn list_classes_skips_malformed_entry() {
    let mut middle = record("Broken", "Audio Module Class", [1u8; 16]);
    middle.name[0] = -1;
    let entries = vec![
        (0, record("First", "Audio Module Class", [0u8; 16])),
        (0, middle),
        (0, record("Third", "Audio Module Class", [2u8; 16])),
    ];
    let listed = list_classes(&entries).unwrap();
    assert_eq!(listed.len(), 2);
    assert_eq!(listed[0].0, 0);
    assert_eq!(listed[0].1, "First");
    assert_eq!(listed[1].0, 2);
    assert_eq!(listed[1].1, "Third");
    assert_eq!(listed[1].3, [2u8; 16]);
}

#[test]
fn list_classes_skips_rejected_entry() {
    let entries = vec![
        (0, record("First", "Audio Module Class", [0u8; 16])),
        (-1, record("Second", "Audio Module Class", [1u8; 16])),
    ];
    let listed = list_classes(&entries).unwrap();
    assert_eq!(listed.len(), 1);
    assert_eq!(listed[0].1, "First");
}

#[test]
fn class_count_interpretation() {
    assert_eq!(check_class_count(3).unwrap(), 3);
    assert_eq!(check_class_count(0).unwrap(), 0);
    assert!(matches!(check_class_count(-2), Err(HostError::TErr(-2))));
}
