//! Round-trip and validity behavior of the binary roster blob.

use sysbadge::binfmt::{FormatError, SystemReader};
use sysbadge::system::{MemberStrings, SystemVec};

const BASE: u32 = 0x1000_0000;

fn sample_system() -> SystemVec {
    let mut sys = SystemVec::new("Example Sys".to_string());
    sys.members.push(MemberStrings {
        name: "Alice".to_string(),
        pronouns: "she/her".to_string(),
    });
    sys.members.push(MemberStrings {
        name: "Bob".to_string(),
        pronouns: String::new(),
    });
    sys.members.push(MemberStrings {
        name: "Chris".to_string(),
        pronouns: "they/them".to_string(),
    });
    sys
}

#[test]
fn roundtrip_empty_roster() {
    let sys = SystemVec::new("solo".to_string());
    let bin = sys.get_bin(BASE);
    let reader = SystemReader::from_byte_slice(&bin, BASE).unwrap();
    assert_eq!(reader.name(), b"solo".to_vec());
    assert_eq!(reader.len(), 0);
    assert!(reader.is_empty());
}

#[test]
fn roundtrip_three_members() {
    let sys = sample_system();
    let bin = sys.get_bin(BASE);
    let reader = SystemReader::from_byte_slice(&bin, BASE).unwrap();
    assert_eq!(reader.name(), b"Example Sys".to_vec());
    assert_eq!(reader.len(), 3);
    assert_eq!(reader.member_name(0), b"Alice".to_vec());
    assert_eq!(reader.member_pronouns(0), b"she/her".to_vec());
    assert_eq!(reader.member_name(1), b"Bob".to_vec());
    assert_eq!(reader.member_pronouns(1), b"".to_vec());
    assert_eq!(reader.member_name(2), b"Chris".to_vec());
    assert_eq!(reader.member_pronouns(2), b"they/them".to_vec());
}

#[test]
fn roundtrip_nonzero_base() {
    let sys = sample_system();
    let base = 0x2004_0000;
    let bin = sys.get_bin(base);
    let reader = SystemReader::from_byte_slice(&bin, base).unwrap();
    assert_eq!(reader.name(), b"Example Sys".to_vec());
    assert_eq!(reader.len(), 3);
}

#[test]
fn decode_too_short() {
    let sys = sample_system();
    let bin = sys.get_bin(BASE);
    assert_eq!(
        SystemReader::from_byte_slice(&bin[..10], BASE).unwrap_err(),
        FormatError::TooShort
    );
}

#[test]
fn decode_bad_magic() {
    let sys = sample_system();
    let mut bin = sys.get_bin(BASE);
    bin[0] ^= 0xff;
    assert_eq!(
        SystemReader::from_byte_slice(&bin, BASE).unwrap_err(),
        FormatError::BadMagic
    );
}

#[test]
fn decode_unsupported_version() {
    let sys = sample_system();
    let mut bin = sys.get_bin(BASE);
    bin[4] = 9;
    assert_eq!(
        SystemReader::from_byte_slice(&bin, BASE).unwrap_err(),
        FormatError::UnsupportedVersion
    );
}

#[test]
fn decode_bad_checksum() {
    let sys = sample_system();
    let mut bin = sys.get_bin(BASE);
    // a reserved header byte: covered by the checksum, parsed by nothing
    bin[40] ^= 0x01;
    assert_eq!(
        SystemReader::from_byte_slice(&bin, BASE).unwrap_err(),
        FormatError::BadChecksum
    );
}

#[test]
fn decode_wrong_base_is_rejected() {
    let sys = sample_system();
    let bin = sys.get_bin(BASE);
    // the same bytes read at a far-away address: every pointer misses
    assert_eq!(
        SystemReader::from_byte_slice(&bin, BASE - 0x100_0000).unwrap_err(),
        FormatError::BadStructure
    );
}

#[test]
fn header_bit_flips_fail_validity() {
    let sys = sample_system();
    let bin = sys.get_bin(BASE);
    assert!(SystemReader::from_byte_slice(&bin, BASE).is_ok());
    // flipping any single bit of the header outside the checksum field
    // makes validity fail
    for byte in 0..62 {
        for bit in 0..8 {
            let mut corrupt = bin.clone();
            corrupt[byte] ^= 1 << bit;
            assert!(
                SystemReader::from_byte_slice(&corrupt, BASE).is_err(),
                "flip of header byte {} bit {} went unnoticed",
                byte,
                bit
            );
        }
    }
}

#[test]
fn payload_bit_flips_keep_header_validity() {
    let sys = sample_system();
    let bin = sys.get_bin(BASE);
    let n = bin.len();
    // the string bytes sit at the tail of the blob; flipping them leaves
    // the header check untouched, documenting its header-only scope
    let strings_len = "Alice".len() + "she/her".len() + "Bob".len() + "Chris".len()
        + "they/them".len();
    for byte in (n - strings_len)..n {
        for bit in 0..8 {
            let mut corrupt = bin.clone();
            corrupt[byte] ^= 1 << bit;
            assert!(
                SystemReader::from_byte_slice(&corrupt, BASE).is_ok(),
                "flip of payload byte {} bit {} was blamed on the header",
                byte,
                bit
            );
        }
    }
}

#[test]
fn try_get_bin_checks_the_address_space() {
    let sys = sample_system();
    let bin = sys.try_get_bin(BASE).unwrap();
    assert_eq!(bin, sys.get_bin(BASE));
    // a roster whose blob would run past the end of the address space
    let mut big = SystemVec::new("big".to_string());
    big.members.push(MemberStrings {
        name: "x".repeat(4096),
        pronouns: String::new(),
    });
    assert!(big.try_get_bin(u32::MAX - 512).is_none());
}

#[test]
fn blob_layout_header_fields() {
    let sys = SystemVec::new("ab".to_string());
    let bin = sys.get_bin(BASE);
    // magic, version, name pointer (base + header size), name length
    assert_eq!(&bin[0..4], &0xa2b5u32.to_le_bytes());
    assert_eq!(&bin[4..6], &1u16.to_le_bytes());
    assert_eq!(&bin[8..12], &(BASE + 64).to_le_bytes());
    assert_eq!(&bin[12..16], &2u32.to_le_bytes());
    assert_eq!(&bin[64..66], b"ab");
}
