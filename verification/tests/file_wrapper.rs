//! The wrapper file format around a roster blob.

use core::mem;

use sysbadge::file::{File, FileHeader, FileWriter, Flags, FLAG_JSON_BLOB, FLAG_SHA2_CHECKSUM};
use sysbadge::system::{MemberStrings, SystemVec};

const BASE: u32 = 0x1000_0000;

fn test_system() -> SystemVec {
    let mut system = SystemVec::new("test".to_string());
    system.members.push(MemberStrings {
        name: "test".to_string(),
        pronouns: "test".to_string(),
    });
    system
}

#[test]
fn test_sizes() {
    // test that size does not change
    assert_eq!(mem::size_of::<Flags>(), 4);
    assert_eq!(mem::size_of::<FileHeader>(), 212);
}

#[test]
fn write_and_read_slice() {
    let system = test_system();
    let mut writer = FileWriter::new(&system);
    writer.json = Some(b"{\"name\":\"test\"}".to_vec());
    let vec = writer.to_vec(BASE);
    let file = File::from_byte_slice(&vec).unwrap();
    assert_eq!(file.header.flags, writer.flags);
    assert_eq!(file.header.bin_length, system.get_bin(BASE).len() as u32);
    assert_ne!(file.header.json_length, 0);
    assert_eq!(file.payload, system.get_bin(BASE));
    assert!(file.json.is_some());
    assert!(file.verify());
}

#[test]
fn write_and_read_slice_no_json() {
    let system = test_system();
    let mut writer = FileWriter::new(&system);
    writer.flags.remove(FLAG_JSON_BLOB);
    let vec = writer.to_vec(BASE);
    let file = File::from_byte_slice(&vec).unwrap();
    assert_eq!(file.header.flags, writer.flags);
    assert_eq!(file.header.bin_length, system.get_bin(BASE).len() as u32);
    assert_eq!(file.header.json_length, 0);
    assert_eq!(file.payload, system.get_bin(BASE));
    assert_eq!(file.json, None);
    assert!(file.verify());
}

#[test]
fn verify_fails_on_corrupted_payload() {
    let system = test_system();
    let mut writer = FileWriter::new(&system);
    writer.json = Some(b"{}".to_vec());
    let mut vec = writer.to_vec(BASE);
    // flip one payload bit, behind the header
    vec[220] ^= 0x40;
    let file = File::from_byte_slice(&vec).unwrap();
    assert!(!file.verify());
}

#[test]
fn verify_without_checksum_is_vacuous() {
    let system = test_system();
    let mut writer = FileWriter::new(&system);
    writer.flags.remove(FLAG_JSON_BLOB);
    writer.flags.remove(FLAG_SHA2_CHECKSUM);
    let mut vec = writer.to_vec(BASE);
    vec[220] ^= 0x40;
    let file = File::from_byte_slice(&vec).unwrap();
    assert!(file.verify());
}

#[test]
fn from_byte_slice_rejects_foreign_bytes() {
    // too short
    assert!(File::from_byte_slice(&[0u8; 16]).is_err());
    // wrong magic
    assert!(File::from_byte_slice(&[0u8; 300]).is_err());
    // right magic, truncated payload
    let system = test_system();
    let writer = FileWriter::new(&system);
    let vec = writer.to_vec(BASE);
    assert!(File::from_byte_slice(&vec[..220]).is_err());
}

#[test]
fn bare_blob_loads_as_payload() {
    let system = test_system();
    let bin = system.get_bin(BASE);
    let file = File::from_bytes_or_bin(bin.clone());
    assert_eq!(file.payload, bin);
    assert_eq!(file.json, None);
    assert!(file.rest.is_empty());
    // a real wrapper file still parses as one
    let writer = FileWriter::new(&system);
    let vec = writer.to_vec(BASE);
    let file = File::from_bytes_or_bin(vec);
    assert_eq!(file.payload, bin);
}

#[test]
fn header_roundtrips_through_bytes() {
    let mut h = FileHeader::default();
    h.bin_length = 123;
    h.json_length = 45;
    h.system_name[0] = b'x';
    let bytes = h.as_bytes();
    assert_eq!(bytes.len(), 212);
    let back = FileHeader::from_bytes(&bytes);
    assert_eq!(back.as_bytes(), bytes);
    assert_eq!(back.bin_length, 123);
    assert_eq!(back.json_length, 45);
    assert_eq!(back.system_name[0], b'x');
}

#[test]
fn header_carries_truncated_name() {
    let long = "n".repeat(500);
    let system = SystemVec::new(long);
    let writer = FileWriter::new(&system);
    let vec = writer.to_vec(BASE);
    let file = File::from_byte_slice(&vec).unwrap();
    // 191 name bytes survive, the final byte stays zero
    assert_eq!(&file.header.system_name[..191], "n".repeat(191).as_bytes());
    assert_eq!(file.header.system_name[191], 0);
}

#[test]
fn flags_bit_operations() {
    let mut f = Flags::empty();
    assert!(!f.contains(FLAG_SHA2_CHECKSUM));
    f.insert(FLAG_SHA2_CHECKSUM);
    assert!(f.contains(FLAG_SHA2_CHECKSUM));
    f.insert(FLAG_JSON_BLOB);
    f.remove(FLAG_SHA2_CHECKSUM);
    assert!(!f.contains(FLAG_SHA2_CHECKSUM));
    assert!(f.contains(FLAG_JSON_BLOB));
    assert_eq!(Flags::default().bits, FLAG_SHA2_CHECKSUM | FLAG_JSON_BLOB);
}
