//! Wire codes, sorting, UF2 packing, name taming, and the small helpers.

use std::str::FromStr;

use sysbadge::badge::Select;
use sysbadge::binding::StatusCode;
use sysbadge::binfmt::bytes_to_align;
use sysbadge::downloaders::{transform_name, ParseError, Source};
use sysbadge::system::{MemberStrings, SortOrder, SystemVec};
use sysbadge::usb::{Request, SystemId, SystemIdType, SystemUpdateStatus, VersionType};
use sysbadge::Button;

#[test]
fn button_codes_roundtrip() {
    for code in 0u8..7 {
        let b = Button::from_u8(code).unwrap();
        assert_eq!(b.code(), code);
    }
    assert_eq!(Button::from_u8(7), None);
    assert_eq!(Button::B.code(), 1);
}

#[test]
fn request_codes_roundtrip() {
    for code in 0u8..0x0c {
        let q = Request::from_u8(code).unwrap();
        assert_eq!(q.code(), code);
    }
    assert_eq!(Request::from_u8(0x0c), None);
    assert_eq!(Request::SystemDNLoad.code(), 0x0b);
}

#[test]
fn version_type_codes() {
    assert_eq!(VersionType::SemVer.code(), 0x10);
    assert_eq!(VersionType::from_u8(0x10), Some(VersionType::SemVer));
    assert_eq!(VersionType::from_u8(0x42), None);
}

#[test]
fn update_status_codes_roundtrip() {
    for code in 0u8..8 {
        let s = SystemUpdateStatus::from_u8(code).unwrap();
        assert_eq!(s.code(), code);
    }
    assert_eq!(SystemUpdateStatus::from_u8(8), None);
    assert_eq!(SystemUpdateStatus::WriteError.code(), 7);
}

#[test]
fn select_codes_roundtrip() {
    for code in 0u8..3 {
        let s = Select::from_u8(code).unwrap();
        assert_eq!(s.code(), code);
    }
    assert_eq!(Select::from_u8(3), None);
}

#[test]
fn system_id_pairs_type_and_string() {
    let id = SystemId::new(SystemIdType::PluralKit, "abcde".to_string());
    assert_eq!(id, SystemId::PluralKit("abcde".to_string()));
    assert_eq!(id.id_type(), SystemIdType::PluralKit);
    let id = SystemId::new(SystemIdType::Unspecified, "dropped".to_string());
    assert_eq!(id, SystemId::Unspecified);
    assert_eq!(SystemIdType::PronounsCC.code(), 2);
}

#[test]
fn status_code_values_and_messages() {
    assert_eq!(StatusCode::Success.code(), 0);
    assert_eq!(StatusCode::InvalidArgument.code(), 100);
    assert_eq!(StatusCode::FailedToWrite.code(), 103);
    assert_eq!(StatusCode::from_u32(101), Some(StatusCode::InvalidIndex));
    assert_eq!(StatusCode::from_u32(42), None);
    assert_eq!(StatusCode::Success.message(), "Ok");
    assert_eq!(StatusCode::InvalidIndex.message(), "InvalidIndex");
}

#[test]
fn source_parses_both_spellings() {
    assert_eq!(Source::from_str("pk"), Ok(Source::PluralKit));
    assert_eq!(Source::from_str("PluralKit"), Ok(Source::PluralKit));
    assert_eq!(Source::from_str("nope"), Err(ParseError));
    assert_eq!(Source::PluralKit.short_identifier(), "pk");
}

#[test]
fn sort_members_folds_case() {
    let mut sys = SystemVec::new("sys".to_string());
    for name in ["Zoe", "adam", "Bea"] {
        sys.members.push(MemberStrings {
            name: name.to_string(),
            pronouns: String::new(),
        });
    }
    sys.sort_members();
    let names: Vec<&str> = sys.members.iter().map(|m| m.name.as_str()).collect();
    // case-folded order; a case-sensitive sort would put the capitals first
    assert_eq!(names, vec!["adam", "Bea", "Zoe"]);
}

#[test]
fn sort_members_case_sensitive_policy() {
    let mut sys = SystemVec::new("sys".to_string());
    for name in ["b", "A", "a"] {
        sys.members.push(MemberStrings {
            name: name.to_string(),
            pronouns: String::new(),
        });
    }
    sys.sort_members_by(SortOrder::CaseSensitive);
    let names: Vec<&str> = sys.members.iter().map(|m| m.name.as_str()).collect();
    assert_eq!(names, vec!["A", "a", "b"]);
}

#[test]
fn uf2_packs_blocks_of_512() {
    let image = vec![0xabu8; 300];
    let uf2 = sysbadge::uf2::bin_to_uf2(&image, sysbadge::uf2::RP2040_FAMILY_ID, 0x1000_0000);
    assert_eq!(uf2.len(), 2 * 512);
    // block 0: magic words, flags, address, payload size, block numbers
    assert_eq!(&uf2[0..4], &0x0a324655u32.to_le_bytes());
    assert_eq!(&uf2[4..8], &0x9e5d5157u32.to_le_bytes());
    assert_eq!(&uf2[8..12], &0x2000u32.to_le_bytes());
    assert_eq!(&uf2[12..16], &0x1000_0000u32.to_le_bytes());
    assert_eq!(&uf2[16..20], &256u32.to_le_bytes());
    assert_eq!(&uf2[20..24], &0u32.to_le_bytes());
    assert_eq!(&uf2[24..28], &2u32.to_le_bytes());
    assert_eq!(&uf2[28..32], &0xe48bff56u32.to_le_bytes());
    assert_eq!(&uf2[32..288], &image[..256]);
    assert_eq!(&uf2[508..512], &0x0ab16f30u32.to_le_bytes());
    // block 1: the 44 data bytes that remain, then zero padding
    assert_eq!(&uf2[512 + 12..512 + 16], &0x1000_0100u32.to_le_bytes());
    assert_eq!(&uf2[512 + 32..512 + 32 + 44], &image[256..]);
    assert!(uf2[512 + 32 + 44..512 + 288].iter().all(|b| *b == 0));
}

#[test]
fn uf2_of_roster_starts_with_blob() {
    let sys = SystemVec::new("x".to_string());
    let base = 0x1000_0000;
    let bin = sys.get_bin(base);
    let uf2 = sys.get_uf2(base);
    assert_eq!(&uf2[32..32 + bin.len()], &bin[..]);
}

#[test]
fn transform_name_keeps_plain_ascii() {
    assert_eq!(transform_name("Alice"), "Alice".to_string());
    assert_eq!(transform_name("Mx. Ripley-9"), "Mx. Ripley-9".to_string());
}

#[test]
fn transform_name_cuts_at_tab_and_space_runs() {
    assert_eq!(transform_name("Alice\tthe first"), "Alice".to_string());
    assert_eq!(transform_name("Alice    ooc"), "Alice".to_string());
    // two spaces do not cut
    assert_eq!(transform_name("Ann  Lee"), "Ann  Lee".to_string());
}

#[test]
fn transform_name_strips_non_ascii_and_trims() {
    assert_eq!(transform_name("  Alice \u{1f310} "), "Alice".to_string());
    assert_eq!(transform_name("\u{2728}sparkle\u{2728}"), "sparkle".to_string());
}

#[test]
fn bytes_to_align_pads_to_boundary() {
    assert_eq!(bytes_to_align(4, 64), 0);
    assert_eq!(bytes_to_align(4, 65), 3);
    assert_eq!(bytes_to_align(4, 66), 2);
    assert_eq!(bytes_to_align(4, 67), 1);
    assert_eq!(bytes_to_align(8, 12), 4);
}
