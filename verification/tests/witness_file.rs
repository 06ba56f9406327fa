use zk_credential::error::ZkProofError;
use zk_credential::wtns::{parse_witness, WitnessFileError};

fn container(elements: &[[u8; 32]]) -> Vec<u8> {
    let mut bytes = Vec::new();
    bytes.extend_from_slice(b"wtns");
    bytes.extend_from_slice(&2u32.to_le_bytes());
    bytes.extend_from_slice(&2u32.to_le_bytes());
    bytes.extend_from_slice(&1u32.to_le_bytes());
    bytes.extend_from_slice(&40u64.to_le_bytes());
    bytes.extend_from_slice(&32u32.to_le_bytes());
    bytes.extend_from_slice(&[0xabu8; 32]);
    bytes.extend_from_slice(&(elements.len() as u32).to_le_bytes());
    bytes.extend_from_slice(&2u32.to_le_bytes());
    bytes.extend_from_slice(&(32 * elements.len() as u64).to_le_bytes());
    for element in elements {
        bytes.extend_from_slice(element);
    }
    bytes
}

fn scalar(n: u8) -> [u8; 32] {
    let mut bytes = [0u8; 32];
    bytes[0] = n;
    bytes
}

// The order of the field: 2^256 - 2^224 + 2^192 + 2^96 - 1, least significant byte first.
fn field_order() -> [u8; 32] {
    let mut bytes = [0u8; 32];
    for i in 0..12 {
        bytes[i] = 0xff;
    }
    bytes[24] = 0x01;
    for i in 28..32 {
        bytes[i] = 0xff;
    }
    bytes
}

#[test]
fn reads_the_elements_in_order() {
    let elements = [scalar(1), scalar(2), scalar(200)];
    assert_eq!(parse_witness(&container(&elements)), Ok(elements.to_vec()));
    assert_eq!(parse_witness(&container(&[])), Ok(vec![]));
}

#[test]
fn ignores_what_follows_the_elements() {
    let elements = [scalar(1)];
    let mut bytes = container(&elements);
    bytes.extend_from_slice(&[1, 2, 3]);
    assert_eq!(parse_witness(&bytes), Ok(elements.to_vec()));
}

#[test]
fn accepts_versions_up_to_two() {
    for version in 0u32..=2 {
        let mut bytes = container(&[scalar(1)]);
        bytes[4..8].copy_from_slice(&version.to_le_bytes());
        assert!(parse_witness(&bytes).is_ok());
    }
    let mut bytes = container(&[scalar(1)]);
    bytes[4..8].copy_from_slice(&3u32.to_le_bytes());
    assert_eq!(parse_witness(&bytes), Err(WitnessFileError::UnsupportedVersion { version: 3 }));
    bytes[4..8].copy_from_slice(&0x0100_0000u32.to_le_bytes());
    assert_eq!(
        parse_witness(&bytes),
        Err(WitnessFileError::UnsupportedVersion { version: 0x0100_0000 })
    );
}

#[test]
fn rejects_a_wrong_header() {
    let good = container(&[scalar(1)]);
    let mut bytes = good.clone();
    bytes[0] = b'W';
    assert_eq!(parse_witness(&bytes), Err(WitnessFileError::BadMagic));
    let mut bytes = good.clone();
    bytes[8] = 3;
    assert_eq!(parse_witness(&bytes), Err(WitnessFileError::BadSectionCount { count: 3 }));
    let mut bytes = good.clone();
    bytes[12] = 2;
    assert_eq!(
        parse_witness(&bytes),
        Err(WitnessFileError::BadHeaderSectionType { section_type: 2 })
    );
    let mut bytes = good.clone();
    bytes[16] = 41;
    assert_eq!(parse_witness(&bytes), Err(WitnessFileError::BadHeaderSectionSize { size: 41 }));
    let mut bytes = good.clone();
    bytes[23] = 1;
    assert_eq!(
        parse_witness(&bytes),
        Err(WitnessFileError::BadHeaderSectionSize { size: 40 + (1u64 << 56) })
    );
    let mut bytes = good.clone();
    bytes[24] = 31;
    assert_eq!(parse_witness(&bytes), Err(WitnessFileError::BadFieldSize { field_size: 31 }));
    let mut bytes = good.clone();
    bytes[64] = 1;
    assert_eq!(
        parse_witness(&bytes),
        Err(WitnessFileError::BadElementSectionType { section_type: 1 })
    );
    let mut bytes = good.clone();
    bytes[68] = 64;
    assert_eq!(parse_witness(&bytes), Err(WitnessFileError::BadElementSectionSize { size: 64 }));
    let mut bytes = good.clone();
    bytes[60] = 2;
    assert_eq!(parse_witness(&bytes), Err(WitnessFileError::BadElementSectionSize { size: 32 }));
}

#[test]
fn rejects_bytes_that_end_too_early() {
    let good = container(&[scalar(1), scalar(2)]);
    for len in 0..good.len() {
        assert_eq!(parse_witness(&good[..len]), Err(WitnessFileError::Truncated), "at {}", len);
    }
    assert!(parse_witness(&good).is_ok());
}

#[test]
fn the_magic_is_judged_before_the_length() {
    assert_eq!(parse_witness(b"abcd"), Err(WitnessFileError::BadMagic));
    assert_eq!(parse_witness(b"wtn"), Err(WitnessFileError::Truncated));
    assert_eq!(parse_witness(b"wtns"), Err(WitnessFileError::Truncated));
}

#[test]
fn rejects_elements_outside_the_field() {
    let mut below = field_order();
    below[0] = 0xfe;
    assert!(parse_witness(&container(&[below])).is_ok());
    assert_eq!(
        parse_witness(&container(&[scalar(1), field_order()])),
        Err(WitnessFileError::NonCanonicalElement { index: 1 })
    );
    assert_eq!(
        parse_witness(&container(&[[0xff; 32], field_order()])),
        Err(WitnessFileError::NonCanonicalElement { index: 0 })
    );
}

#[test]
fn an_earlier_bad_element_is_reported_before_a_missing_later_one() {
    let mut bytes = container(&[[0xff; 32], scalar(1)]);
    bytes.truncate(76 + 32 + 5);
    assert_eq!(parse_witness(&bytes), Err(WitnessFileError::NonCanonicalElement { index: 0 }));
    let mut bytes = container(&[scalar(1), [0xff; 32]]);
    bytes.truncate(76 + 32 + 5);
    assert_eq!(parse_witness(&bytes), Err(WitnessFileError::Truncated));
}

#[test]
fn a_bad_witness_file_is_invalid_input() {
    let e = WitnessFileError::BadMagic.into_error();
    assert!(matches!(e, ZkProofError::InvalidInput { .. }));
    assert_eq!(e.message(), "Invalid witness file header");
    assert_eq!(
        WitnessFileError::NonCanonicalElement { index: 4 }.describe(),
        "Invalid field element in witness file"
    );
}
