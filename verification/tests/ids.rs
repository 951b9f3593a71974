use openvst3::ids::{fmt_cid_hex, parse_hex_16};
use openvst3::HostError;

const SAMPLE: [u8; 16] = [
    0xAA, 0xBB, 0xCC, 0xDD, 0xEE, 0xFF, 0x00, 0x11, 0x22, 0x33, 0x44, 0x55, 0x66, 0x77, 0x88,
    0x99,
];

#[test]
fn parse_hex_dashed_and_plain_agree() {
    let dashed = parse_hex_16("AABBCCDD-EEFF-0011-2233-445566778899").unwrap();
    let plain = parse_hex_16("aabbccddeeff00112233445566778899").unwrap();
    assert_eq!(dashed, plain);
    assert_eq!(dashed, SAMPLE);
}

#[test]
fn parse_hex_braces_and_spaces_stripped() {
    let braced = parse_hex_16("{AABBCCDD-EEFF-0011-2233-445566778899}").unwrap();
    assert_eq!(braced, SAMPLE);
    let spaced = parse_hex_16("AABBCCDD EEFF 0011 2233 445566778899").unwrap();
    assert_eq!(spaced, SAMPLE);
}

#[test]
fn parse_hex_wrong_length_names_count() {
    let r = parse_hex_16("AABB");
    assert!(matches!(r, Err(HostError::IidLength(4))));
    let r = parse_hex_16("AABBCCDD-EEFF-0011-2233-4455667788990");
    assert!(matches!(r, Err(HostError::IidLength(33))));
    let r = parse_hex_16("");
    assert!(matches!(r, Err(HostError::IidLength(0))));
    // Separators do not count towards the length.
    let r = parse_hex_16("----");
    assert!(matches!(r, Err(HostError::IidLength(0))));
}

#[test]
fn parse_hex_bad_digit_rejected() {
    let r = parse_hex_16("GABBCCDDEEFF00112233445566778899");
    match r {
        Err(HostError::InvalidBundle(m)) => assert_eq!(m, "bad hex"),
        _ => panic!("expected a bad-hex error"),
    }
}

#[test]
fn fmt_cid_hex_exact() {
    assert_eq!(fmt_cid_hex(&SAMPLE), "AABBCCDDEEFF00112233445566778899");
    let zero = [0u8; 16];
    assert_eq!(fmt_cid_hex(&zero), "00000000000000000000000000000000");
    let counting = [
        0x01, 0x23, 0x45, 0x67, 0x89, 0xAB, 0xCD, 0xEF, 0x10, 0x32, 0x54, 0x76, 0x98, 0xBA, 0xDC,
        0xFE,
    ];
    assert_eq!(fmt_cid_hex(&counting), "0123456789ABCDEF1032547698BADCFE");
}

#[test]
fn fmt_then_parse_round_trips() {
    let cid = [
        0x00, 0x01, 0x02, 0x03, 0x7F, 0x80, 0xFF, 0x10, 0x20, 0x30, 0x40, 0x50, 0x60, 0x70, 0x80,
        0x90,
    ];
    let text = fmt_cid_hex(&cid);
    assert_eq!(parse_hex_16(&text).unwrap(), cid);
}
