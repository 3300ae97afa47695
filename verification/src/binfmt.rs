//! The binary roster blob: the on-flash encoding of a system.
//!
//! A blob is a fixed 64-byte header followed by variable data. The header
//! carries a magic constant, a format version, a `(address, length)` pointer
//! to the name bytes, a `(address, count)` pointer to a flat array of member
//! records, and a trailing CRC-16 covering the header minus the checksum
//! field itself. Every address field is an absolute memory address: a blob is
//! only meaningful when read at the exact base address it was built for.
//!
//! All numeric fields are little-endian. A member record is 16 bytes: two
//! `(address, length)` pointers, one for the member's name bytes and one for
//! its pronoun bytes.

use vstd::bytes::{spec_u16_from_le_bytes, spec_u16_to_le_bytes, spec_u32_from_le_bytes,
    spec_u32_to_le_bytes, u16_from_le_bytes, u32_from_le_bytes};
use vstd::prelude::*;
use vstd::slice::{slice_subrange, slice_to_vec};

use crate::hashes::{crc16_buypass, crc16_of};

verus! {

/// Magic constant at the start of every roster blob.
pub const MAGIC: u32 = 0xa2b5;

/// The one recognized format version.
pub const VERSION_1: u16 = 1;

/// Size of the fixed header in bytes.
pub const HEADER_LEN: usize = 64;

/// Size of one member record in bytes.
pub const MEMBER_RECORD_LEN: usize = 16;

/// Byte offset of the stored checksum inside the header; the checksum
/// covers everything before it.
pub const CRC_OFFSET: usize = 62;

/// One member of a roster, at the specification level: its name and its
/// pronouns, both as the byte strings stored in the blob.
#[verifier::ext_equal]
pub struct MemberEntry {
    pub name: Seq<u8>,
    pub pronouns: Seq<u8>,
}

/// A whole roster at the specification level: the system name and the
/// ordered members.
#[verifier::ext_equal]
pub struct Roster {
    pub name: Seq<u8>,
    pub members: Seq<MemberEntry>,
}

/// The little-endian `u16` stored at byte offset `i`.
pub open spec fn le16(b: Seq<u8>, i: int) -> u16
    recommends
        0 <= i,
        i + 2 <= b.len(),
{
    spec_u16_from_le_bytes(b.subrange(i, i + 2))
}

/// The little-endian `u32` stored at byte offset `i`.
pub open spec fn le32(b: Seq<u8>, i: int) -> u32
    recommends
        0 <= i,
        i + 4 <= b.len(),
{
    spec_u32_from_le_bytes(b.subrange(i, i + 4))
}

pub open spec fn header_magic(b: Seq<u8>) -> u32 {
    le32(b, 0)
}

pub open spec fn header_version(b: Seq<u8>) -> u16 {
    le16(b, 4)
}

/// Absolute address of the name bytes.
pub open spec fn header_name_addr(b: Seq<u8>) -> u32 {
    le32(b, 8)
}

/// Length of the name in bytes.
pub open spec fn header_name_len(b: Seq<u8>) -> u32 {
    le32(b, 12)
}

/// Absolute address of the member record array.
pub open spec fn header_members_addr(b: Seq<u8>) -> u32 {
    le32(b, 16)
}

/// Number of member records.
pub open spec fn header_member_count(b: Seq<u8>) -> u32 {
    le32(b, 20)
}

/// The checksum stored in the header.
pub open spec fn header_stored_crc(b: Seq<u8>) -> u16 {
    le16(b, CRC_OFFSET as int)
}

/// The O(1) header validity check: magic matches, the version is recognized,
/// and the stored CRC-16 equals the one recomputed over the header bytes
/// before the checksum field. This is header integrity only: it says nothing
/// about the member records or string bytes outside the header.
pub open spec fn header_valid(b: Seq<u8>) -> bool {
    &&& b.len() >= HEADER_LEN
    &&& header_magic(b) == MAGIC
    &&& header_version(b) == VERSION_1
    &&& header_stored_crc(b) == crc16_of(b.subrange(0, CRC_OFFSET as int))
}

/// Byte offset of the name region inside the blob, for a blob based at
/// `base`.
pub open spec fn name_off(b: Seq<u8>, base: u32) -> int {
    header_name_addr(b) - base
}

/// Byte offset of the member record array inside the blob.
pub open spec fn members_off(b: Seq<u8>, base: u32) -> int {
    header_members_addr(b) - base
}

/// The name region lies inside the blob.
pub open spec fn name_region_ok(b: Seq<u8>, base: u32) -> bool {
    &&& header_name_addr(b) >= base
    &&& name_off(b, base) + header_name_len(b) <= b.len()
}

/// The member record array lies inside the blob.
pub open spec fn members_region_ok(b: Seq<u8>, base: u32) -> bool {
    &&& header_members_addr(b) >= base
    &&& members_off(b, base) + MEMBER_RECORD_LEN * header_member_count(b) <= b.len()
}

/// Byte offset of member record `i` inside the blob.
pub open spec fn member_rec_off(b: Seq<u8>, base: u32, i: int) -> int {
    members_off(b, base) + MEMBER_RECORD_LEN * i
}

/// Absolute address of member `i`'s name bytes.
pub open spec fn member_name_addr(b: Seq<u8>, base: u32, i: int) -> u32 {
    le32(b, member_rec_off(b, base, i))
}

/// Length of member `i`'s name in bytes.
pub open spec fn member_name_len(b: Seq<u8>, base: u32, i: int) -> u32 {
    le32(b, member_rec_off(b, base, i) + 4)
}

/// Absolute address of member `i`'s pronoun bytes.
pub open spec fn member_pronouns_addr(b: Seq<u8>, base: u32, i: int) -> u32 {
    le32(b, member_rec_off(b, base, i) + 8)
}

/// Length of member `i`'s pronouns in bytes.
pub open spec fn member_pronouns_len(b: Seq<u8>, base: u32, i: int) -> u32 {
    le32(b, member_rec_off(b, base, i) + 12)
}

/// Both string regions of member record `i` lie inside the blob.
pub open spec fn member_rec_ok(b: Seq<u8>, base: u32, i: int) -> bool {
    &&& member_name_addr(b, base, i) >= base
    &&& member_name_addr(b, base, i) - base + member_name_len(b, base, i) <= b.len()
    &&& member_pronouns_addr(b, base, i) >= base
    &&& member_pronouns_addr(b, base, i) - base + member_pronouns_len(b, base, i) <= b.len()
}

/// Full validity of a blob read at `base`: the header checks out and every
/// pointer, including those in the member records, stays inside the blob.
/// Only a blob that satisfies this is ever dereferenced.
pub open spec fn valid_roster(b: Seq<u8>, base: u32) -> bool {
    &&& header_valid(b)
    &&& b.len() <= u32::MAX
    &&& name_region_ok(b, base)
    &&& members_region_ok(b, base)
    &&& forall|i: int|
        0 <= i < header_member_count(b) ==> member_rec_ok(b, base, i)
}

/// The name bytes of a valid blob.
pub open spec fn roster_name(b: Seq<u8>, base: u32) -> Seq<u8> {
    b.subrange(name_off(b, base), name_off(b, base) + header_name_len(b))
}

/// The name bytes of member `i` of a valid blob.
pub open spec fn roster_member_name(b: Seq<u8>, base: u32, i: int) -> Seq<u8> {
    b.subrange(
        member_name_addr(b, base, i) - base,
        member_name_addr(b, base, i) - base + member_name_len(b, base, i),
    )
}

/// The pronoun bytes of member `i` of a valid blob.
pub open spec fn roster_member_pronouns(b: Seq<u8>, base: u32, i: int) -> Seq<u8> {
    b.subrange(
        member_pronouns_addr(b, base, i) - base,
        member_pronouns_addr(b, base, i) - base + member_pronouns_len(b, base, i),
    )
}

/// The whole roster described by a valid blob.
pub open spec fn roster_spec(b: Seq<u8>, base: u32) -> Roster {
    Roster {
        name: roster_name(b, base),
        members: Seq::new(
            header_member_count(b) as nat,
            |i: int|
                MemberEntry {
                    name: roster_member_name(b, base, i),
                    pronouns: roster_member_pronouns(b, base, i),
                },
        ),
    }
}

/// Header validity depends on the header bytes alone: two blobs of equal
/// length that agree on the header agree on validity, whatever their
/// member records or string bytes hold. This is the "header integrity only"
/// scope of the checksum: corruption outside the header is not detected by
/// the header check.
pub proof fn lemma_header_validity_payload_independent(b1: Seq<u8>, b2: Seq<u8>)
    requires
        b1.len() == b2.len(),
        b1.len() >= HEADER_LEN,
        b1.subrange(0, HEADER_LEN as int) == b2.subrange(0, HEADER_LEN as int),
    ensures
        header_valid(b1) == header_valid(b2),
{
    assert(b1.subrange(0, 4) =~= b1.subrange(0, HEADER_LEN as int).subrange(0, 4));
    assert(b2.subrange(0, 4) =~= b2.subrange(0, HEADER_LEN as int).subrange(0, 4));
    assert(b1.subrange(4, 6) =~= b1.subrange(0, HEADER_LEN as int).subrange(4, 6));
    assert(b2.subrange(4, 6) =~= b2.subrange(0, HEADER_LEN as int).subrange(4, 6));
    assert(b1.subrange(0, CRC_OFFSET as int) =~= b1.subrange(0, HEADER_LEN as int).subrange(
        0,
        CRC_OFFSET as int,
    ));
    assert(b2.subrange(0, CRC_OFFSET as int) =~= b2.subrange(0, HEADER_LEN as int).subrange(
        0,
        CRC_OFFSET as int,
    ));
    assert(b1.subrange(CRC_OFFSET as int, CRC_OFFSET + 2) =~= b1.subrange(
        0,
        HEADER_LEN as int,
    ).subrange(CRC_OFFSET as int, CRC_OFFSET + 2));
    assert(b2.subrange(CRC_OFFSET as int, CRC_OFFSET + 2) =~= b2.subrange(
        0,
        HEADER_LEN as int,
    ).subrange(CRC_OFFSET as int, CRC_OFFSET + 2));
}

/// Why a byte region was rejected as a roster blob.
#[derive(Eq, PartialEq, Structural, Debug, Clone, Copy)]
pub enum FormatError {
    /// The region is shorter than the fixed header.
    TooShort,
    /// The magic constant does not match.
    BadMagic,
    /// The version word is not a recognized value.
    UnsupportedVersion,
    /// The recomputed header checksum differs from the stored one.
    BadChecksum,
    /// The header checks out but some pointer reaches outside the region.
    BadStructure,
}

/// Padding needed after `bytes` bytes to reach a multiple of `align`.
pub open spec fn spec_bytes_to_align(align: int, bytes: int) -> int
    recommends
        align > 0,
{
    (align - (bytes % align)) % align
}

/// Padding needed after `bytes` bytes to reach a multiple of `align`.
pub fn bytes_to_align(align: u32, bytes: u32) -> (r: u32)
    requires
        align > 0,
    ensures
        r == spec_bytes_to_align(align as int, bytes as int),
        r < align,
{
    (align - (bytes % align)) % align
}

/// Total number of string bytes the members of a roster occupy.
pub open spec fn total_str_len(ms: Seq<MemberEntry>) -> int
    decreases ms.len(),
{
    if ms.len() == 0 {
        0
    } else {
        ms[0].name.len() + ms[0].pronouns.len() + total_str_len(ms.drop_first())
    }
}

pub proof fn lemma_total_str_len_nonneg(ms: Seq<MemberEntry>)
    ensures
        total_str_len(ms) >= 0,
    decreases ms.len(),
{
    if ms.len() > 0 {
        lemma_total_str_len_nonneg(ms.drop_first());
    }
}

/// Blob offset where the member record array starts: the name bytes follow
/// the header directly, then padding to the record array's alignment.
pub open spec fn members_start(r: Roster) -> int {
    let ne = HEADER_LEN + r.name.len();
    ne + spec_bytes_to_align(4, ne)
}

/// Blob offset where the per-member string bytes start.
pub open spec fn strings_start(r: Roster) -> int {
    members_start(r) + MEMBER_RECORD_LEN * r.members.len()
}

/// Total size of the encoded blob.
pub open spec fn encoded_size(r: Roster) -> int {
    strings_start(r) + total_str_len(r.members)
}

/// A roster can be encoded for base address `base`: the blob, laid out at
/// that address, stays within the 32-bit address space that the format's
/// absolute pointers can express.
pub open spec fn roster_encodable(r: Roster, base: u32) -> bool {
    base + encoded_size(r) <= u32::MAX
}

/// `n` zero bytes.
pub open spec fn zeros(n: int) -> Seq<u8> {
    Seq::new(n as nat, |i: int| 0u8)
}

/// The first 62 header bytes of the encoding: everything but the checksum.
pub open spec fn header62(r: Roster, base: u32) -> Seq<u8> {
    spec_u32_to_le_bytes(MAGIC) + spec_u16_to_le_bytes(VERSION_1) + spec_u16_to_le_bytes(0u16)
        + spec_u32_to_le_bytes((base + HEADER_LEN) as u32) + spec_u32_to_le_bytes(
        r.name.len() as u32,
    ) + spec_u32_to_le_bytes((base + members_start(r)) as u32) + spec_u32_to_le_bytes(
        r.members.len() as u32,
    ) + zeros(38)
}

/// One encoded member record: fat pointers to the name and pronoun bytes,
/// the name placed at absolute address `saddr` and the pronouns directly
/// after it.
pub open spec fn record16(m: MemberEntry, saddr: int) -> Seq<u8> {
    spec_u32_to_le_bytes(saddr as u32) + spec_u32_to_le_bytes(m.name.len() as u32)
        + spec_u32_to_le_bytes((saddr + m.name.len()) as u32) + spec_u32_to_le_bytes(
        m.pronouns.len() as u32,
    )
}

/// The member record array, for string bytes starting at absolute address
/// `saddr`.
pub open spec fn records_spec(ms: Seq<MemberEntry>, saddr: int) -> Seq<u8>
    decreases ms.len(),
{
    if ms.len() == 0 {
        Seq::empty()
    } else {
        record16(ms[0], saddr) + records_spec(
            ms.drop_first(),
            saddr + ms[0].name.len() + ms[0].pronouns.len(),
        )
    }
}

/// The per-member string bytes: each member's name directly followed by its
/// pronouns, members in order.
pub open spec fn strings_spec(ms: Seq<MemberEntry>) -> Seq<u8>
    decreases ms.len(),
{
    if ms.len() == 0 {
        Seq::empty()
    } else {
        ms[0].name + ms[0].pronouns + strings_spec(ms.drop_first())
    }
}

/// Absolute address of member `i`'s name bytes when the string bytes of
/// members `0..` start at absolute address `s`.
pub open spec fn rec_addr(ms: Seq<MemberEntry>, s: int, i: int) -> int
    decreases i,
{
    if i <= 0 {
        s
    } else {
        rec_addr(ms.drop_first(), s + ms[0].name.len() + ms[0].pronouns.len(), i - 1)
    }
}

/// The whole encoded blob for a roster placed at base address `base`.
pub open spec fn encode_spec(r: Roster, base: u32) -> Seq<u8> {
    let h62 = header62(r, base);
    h62 + spec_u16_to_le_bytes(crc16_of(h62)) + r.name + zeros(
        spec_bytes_to_align(4, HEADER_LEN + r.name.len()),
    ) + records_spec(r.members, base + strings_start(r)) + strings_spec(r.members)
}

pub proof fn lemma_records_spec_len(ms: Seq<MemberEntry>, saddr: int)
    ensures
        records_spec(ms, saddr).len() == MEMBER_RECORD_LEN * ms.len(),
    decreases ms.len(),
{
    vstd::bytes::lemma_auto_spec_u32_to_from_le_bytes();
    if ms.len() > 0 {
        lemma_records_spec_len(ms.drop_first(), saddr + ms[0].name.len() + ms[0].pronouns.len());
    }
}

pub proof fn lemma_strings_spec_len(ms: Seq<MemberEntry>)
    ensures
        strings_spec(ms).len() == total_str_len(ms),
    decreases ms.len(),
{
    if ms.len() > 0 {
        lemma_strings_spec_len(ms.drop_first());
    }
}

/// Shifting the string start address shifts every member's string address
/// by the same amount.
proof fn lemma_rec_addr_shift(ms: Seq<MemberEntry>, s: int, i: int)
    ensures
        rec_addr(ms, s, i) == s + rec_addr(ms, 0, i),
    decreases i,
{
    if i > 0 {
        let step = ms[0].name.len() + ms[0].pronouns.len();
        lemma_rec_addr_shift(ms.drop_first(), s + step, i - 1);
        lemma_rec_addr_shift(ms.drop_first(), step as int, i - 1);
    }
}

/// Every member's string region lies between the string start and the end
/// of the string area.
proof fn lemma_rec_addr_bounds(ms: Seq<MemberEntry>, s: int, i: int)
    requires
        0 <= i < ms.len(),
    ensures
        s <= rec_addr(ms, s, i),
        rec_addr(ms, s, i) + ms[i].name.len() + ms[i].pronouns.len() <= s + total_str_len(ms),
    decreases i,
{
    if i == 0 {
        lemma_total_str_len_nonneg(ms.drop_first());
    } else {
        let step = ms[0].name.len() + ms[0].pronouns.len();
        lemma_rec_addr_bounds(ms.drop_first(), s + step, i - 1);
        assert(ms.drop_first()[i - 1] == ms[i]);
    }
}

/// Record `i` of the record array is the record of member `i`, pointing at
/// that member's string address.
proof fn lemma_records_index(ms: Seq<MemberEntry>, saddr: int, i: int)
    requires
        0 <= i < ms.len(),
    ensures
        records_spec(ms, saddr).subrange(
            MEMBER_RECORD_LEN * i,
            MEMBER_RECORD_LEN * i + MEMBER_RECORD_LEN,
        ) =~= record16(ms[i], rec_addr(ms, saddr, i)),
    decreases i,
{
    vstd::bytes::lemma_auto_spec_u32_to_from_le_bytes();
    lemma_records_spec_len(ms, saddr);
    let step = ms[0].name.len() + ms[0].pronouns.len();
    let head = record16(ms[0], saddr);
    let tail = records_spec(ms.drop_first(), saddr + step);
    lemma_records_spec_len(ms.drop_first(), saddr + step);
    assert(head.len() == MEMBER_RECORD_LEN);
    if i == 0 {
        assert((head + tail).subrange(0, MEMBER_RECORD_LEN as int) =~= head);
    } else {
        lemma_records_index(ms.drop_first(), saddr + step, i - 1);
        assert(ms.drop_first()[i - 1] == ms[i]);
        assert((head + tail).subrange(
            MEMBER_RECORD_LEN * i,
            MEMBER_RECORD_LEN * i + MEMBER_RECORD_LEN,
        ) =~= tail.subrange(
            MEMBER_RECORD_LEN * (i - 1),
            MEMBER_RECORD_LEN * (i - 1) + MEMBER_RECORD_LEN,
        ));
    }
}

/// The string area holds member `i`'s name at its string offset, directly
/// followed by its pronouns.
proof fn lemma_strings_index(ms: Seq<MemberEntry>, i: int)
    requires
        0 <= i < ms.len(),
    ensures
        strings_spec(ms).subrange(rec_addr(ms, 0, i), rec_addr(ms, 0, i) + ms[i].name.len())
            =~= ms[i].name,
        strings_spec(ms).subrange(
            rec_addr(ms, 0, i) + ms[i].name.len(),
            rec_addr(ms, 0, i) + ms[i].name.len() + ms[i].pronouns.len(),
        ) =~= ms[i].pronouns,
    decreases i,
{
    lemma_strings_spec_len(ms);
    lemma_rec_addr_bounds(ms, 0, i);
    let step = ms[0].name.len() + ms[0].pronouns.len();
    let tail = strings_spec(ms.drop_first());
    lemma_strings_spec_len(ms.drop_first());
    lemma_total_str_len_nonneg(ms.drop_first());
    if i > 0 {
        lemma_strings_index(ms.drop_first(), i - 1);
        lemma_rec_addr_shift(ms.drop_first(), step as int, i - 1);
        lemma_rec_addr_bounds(ms.drop_first(), 0, i - 1);
        assert(ms.drop_first()[i - 1] == ms[i]);
    }
}

/// The encoding of a roster is a valid blob at its base address, and decodes
/// back to exactly the roster it was built from: the name, the member count,
/// and every member's name and pronouns.
pub proof fn lemma_encode_roundtrip(r: Roster, base: u32)
    requires
        roster_encodable(r, base),
    ensures
        encode_spec(r, base).len() == encoded_size(r),
        valid_roster(encode_spec(r, base), base),
        roster_spec(encode_spec(r, base), base) == r,
{
    vstd::bytes::lemma_auto_spec_u16_to_from_le_bytes();
    vstd::bytes::lemma_auto_spec_u32_to_from_le_bytes();
    lemma_total_str_len_nonneg(r.members);
    let ms0 = members_start(r);
    let ss0 = strings_start(r);
    let recs = records_spec(r.members, base + ss0);
    let strs = strings_spec(r.members);
    lemma_records_spec_len(r.members, base + ss0);
    lemma_strings_spec_len(r.members);
    let b = encode_spec(r, base);
    let h62 = header62(r, base);
    let nlen = r.name.len() as int;
    let padlen = spec_bytes_to_align(4, HEADER_LEN + nlen);
    assert(h62.len() == 62);
    assert(b.len() == encoded_size(r));

    assert(b.subrange(0, 62) =~= h62);
    assert(b.subrange(0, 4) =~= spec_u32_to_le_bytes(MAGIC));
    assert(b.subrange(4, 6) =~= spec_u16_to_le_bytes(VERSION_1));
    assert(b.subrange(8, 12) =~= spec_u32_to_le_bytes((base + HEADER_LEN) as u32));
    assert(b.subrange(12, 16) =~= spec_u32_to_le_bytes(r.name.len() as u32));
    assert(b.subrange(16, 20) =~= spec_u32_to_le_bytes((base + ms0) as u32));
    assert(b.subrange(20, 24) =~= spec_u32_to_le_bytes(r.members.len() as u32));
    assert(b.subrange(62, 64) =~= spec_u16_to_le_bytes(crc16_of(h62)));
    assert(header_magic(b) == MAGIC);
    assert(header_version(b) == VERSION_1);
    assert(header_stored_crc(b) == crc16_of(b.subrange(0, CRC_OFFSET as int)));
    assert(header_name_addr(b) == base + HEADER_LEN);
    assert(header_name_len(b) == r.name.len());
    assert(header_members_addr(b) == base + ms0);
    assert(header_member_count(b) == r.members.len());

    assert(b.subrange(HEADER_LEN as int, HEADER_LEN + nlen) =~= r.name);
    assert(roster_name(b, base) == r.name);

    assert forall|i: int| 0 <= i < r.members.len() implies member_rec_ok(b, base, i)
        && roster_member_name(b, base, i) =~= r.members[i].name
        && roster_member_pronouns(b, base, i) =~= r.members[i].pronouns by {
        lemma_records_index(r.members, base + ss0, i);
        lemma_rec_addr_bounds(r.members, base + ss0, i);
        lemma_rec_addr_shift(r.members, base + ss0, i);
        lemma_rec_addr_bounds(r.members, 0, i);
        lemma_strings_index(r.members, i);
        let ai = rec_addr(r.members, base + ss0, i);
        let mn = r.members[i].name.len() as int;
        let mp = r.members[i].pronouns.len() as int;
        assert(b.subrange(ms0 + MEMBER_RECORD_LEN * i, ms0 + MEMBER_RECORD_LEN * i
            + MEMBER_RECORD_LEN) =~= recs.subrange(
            MEMBER_RECORD_LEN * i,
            MEMBER_RECORD_LEN * i + MEMBER_RECORD_LEN,
        ));
        let rec = record16(r.members[i], ai);
        assert(rec.subrange(0, 4) =~= spec_u32_to_le_bytes(ai as u32));
        assert(rec.subrange(4, 8) =~= spec_u32_to_le_bytes(r.members[i].name.len() as u32));
        assert(rec.subrange(8, 12) =~= spec_u32_to_le_bytes((ai + mn) as u32));
        assert(rec.subrange(12, 16) =~= spec_u32_to_le_bytes(r.members[i].pronouns.len() as u32));
        assert(member_rec_off(b, base, i) == ms0 + MEMBER_RECORD_LEN * i);
        assert(b.subrange(ms0 + MEMBER_RECORD_LEN * i, ms0 + MEMBER_RECORD_LEN * i + 4)
            =~= rec.subrange(0, 4));
        assert(b.subrange(ms0 + MEMBER_RECORD_LEN * i + 4, ms0 + MEMBER_RECORD_LEN * i + 8)
            =~= rec.subrange(4, 8));
        assert(b.subrange(ms0 + MEMBER_RECORD_LEN * i + 8, ms0 + MEMBER_RECORD_LEN * i + 12)
            =~= rec.subrange(8, 12));
        assert(b.subrange(ms0 + MEMBER_RECORD_LEN * i + 12, ms0 + MEMBER_RECORD_LEN * i + 16)
            =~= rec.subrange(12, 16));
        assert(member_name_addr(b, base, i) == ai as u32);
        assert(member_name_len(b, base, i) == mn);
        assert(member_pronouns_addr(b, base, i) == (ai + mn) as u32);
        assert(member_pronouns_len(b, base, i) == mp);
        assert(ai == base + ss0 + rec_addr(r.members, 0, i));
        assert(b.subrange(ai - base, ai - base + mn) =~= strs.subrange(
            rec_addr(r.members, 0, i),
            rec_addr(r.members, 0, i) + mn,
        ));
        assert(b.subrange(ai - base + mn, ai - base + mn + mp) =~= strs.subrange(
            rec_addr(r.members, 0, i) + mn,
            rec_addr(r.members, 0, i) + mn + mp,
        ));
    }
    assert(roster_spec(b, base).members =~~= r.members);
    assert(roster_spec(b, base) =~~= r);
}

/// The error a rejected region decodes to: the first check that fails, in
/// the order the checks run (length, magic, version, checksum, structure).
pub open spec fn expected_decode_error(b: Seq<u8>, base: u32) -> FormatError {
    if b.len() < HEADER_LEN {
        FormatError::TooShort
    } else if header_magic(b) != MAGIC {
        FormatError::BadMagic
    } else if header_version(b) != VERSION_1 {
        FormatError::UnsupportedVersion
    } else if header_stored_crc(b) != crc16_of(b.subrange(0, CRC_OFFSET as int)) {
        FormatError::BadChecksum
    } else {
        FormatError::BadStructure
    }
}

/// A validated zero-parse view of a byte region holding a roster blob.
///
/// Construction validates eagerly: the header check plus a pass over every
/// member record, so that all accessors are infallible afterwards. The
/// header-derived absolute addresses are turned into checked offsets into
/// the region once, up front, and never trusted again.
#[derive(Debug)]
pub struct SystemReader {
    bytes: Vec<u8>,
    base: u32,
    name_off: usize,
    name_len: usize,
    members_off: usize,
    count: usize,
}

impl SystemReader {
    #[verifier::type_invariant]
    spec fn wf(self) -> bool {
        &&& valid_roster(self.bytes@, self.base)
        &&& self.name_off == name_off(self.bytes@, self.base)
        &&& self.name_len == header_name_len(self.bytes@)
        &&& self.members_off == members_off(self.bytes@, self.base)
        &&& self.count == header_member_count(self.bytes@)
    }

    /// The roster this reader exposes.
    pub closed spec fn roster(self) -> Roster {
        roster_spec(self.bytes@, self.base)
    }

    /// Validates `slice` as a roster blob based at address `base` and, on
    /// success, returns a reader over it. Succeeds exactly on valid blobs,
    /// and names the first failing check otherwise.
    #[verifier::loop_isolation(false)]
    pub fn from_byte_slice(slice: &[u8], base: u32) -> (r: Result<SystemReader, FormatError>)
        ensures
            r is Ok <==> valid_roster(slice@, base),
            r matches Ok(rd) ==> rd.roster() == roster_spec(slice@, base),
            r matches Err(e) ==> e == expected_decode_error(slice@, base),
    {
        let n = slice.len();
        if n < HEADER_LEN {
            return Err(FormatError::TooShort);
        }
        let magic = u32_from_le_bytes(slice_subrange(slice, 0, 4));
        if magic != MAGIC {
            return Err(FormatError::BadMagic);
        }
        let version = u16_from_le_bytes(slice_subrange(slice, 4, 6));
        if version != VERSION_1 {
            return Err(FormatError::UnsupportedVersion);
        }
        let crc = crc16_buypass(slice_subrange(slice, 0, CRC_OFFSET));
        let stored = u16_from_le_bytes(slice_subrange(slice, CRC_OFFSET, CRC_OFFSET + 2));
        if crc != stored {
            return Err(FormatError::BadChecksum);
        }
        if n as u64 > u32::MAX as u64 {
            return Err(FormatError::BadStructure);
        }
        let name_addr = u32_from_le_bytes(slice_subrange(slice, 8, 12));
        let name_len = u32_from_le_bytes(slice_subrange(slice, 12, 16));
        let members_addr = u32_from_le_bytes(slice_subrange(slice, 16, 20));
        let count = u32_from_le_bytes(slice_subrange(slice, 20, 24));
        if name_addr < base || (name_addr - base) as u64 + name_len as u64 > n as u64 {
            return Err(FormatError::BadStructure);
        }
        if members_addr < base
            || (members_addr - base) as u64 + (MEMBER_RECORD_LEN as u64) * (count as u64)
                > n as u64 {
            return Err(FormatError::BadStructure);
        }
        let m_off = (members_addr - base) as usize;
        let count_us = count as usize;
        let mut i: usize = 0;
        while i < count_us
            invariant
                slice@.len() == n,
                n <= u32::MAX,
                i <= count_us,
                count_us == header_member_count(slice@),
                m_off == members_off(slice@, base),
                members_region_ok(slice@, base),
                forall|j: int| 0 <= j < i ==> member_rec_ok(slice@, base, j),
            decreases count_us - i,
        {
            assert(m_off + MEMBER_RECORD_LEN * i + MEMBER_RECORD_LEN <= n);
            let ro = m_off + MEMBER_RECORD_LEN * i;
            let na = u32_from_le_bytes(slice_subrange(slice, ro, ro + 4));
            let nl = u32_from_le_bytes(slice_subrange(slice, ro + 4, ro + 8));
            let pa = u32_from_le_bytes(slice_subrange(slice, ro + 8, ro + 12));
            let pl = u32_from_le_bytes(slice_subrange(slice, ro + 12, ro + 16));
            if na < base || (na - base) as u64 + nl as u64 > n as u64 || pa < base
                || (pa - base) as u64 + pl as u64 > n as u64 {
                assert(!member_rec_ok(slice@, base, i as int));
                return Err(FormatError::BadStructure);
            }
            assert(member_rec_ok(slice@, base, i as int));
            i = i + 1;
        }
        Ok(SystemReader {
            bytes: slice_to_vec(slice),
            base,
            name_off: (name_addr - base) as usize,
            name_len: name_len as usize,
            members_off: m_off,
            count: count_us,
        })
    }

    /// The system name, copied out of the region.
    pub fn name(&self) -> (r: Vec<u8>)
        ensures
            r@ == self.roster().name,
    {
        proof {
            use_type_invariant(&*self);
        }
        slice_to_vec(slice_subrange(self.bytes.as_slice(), self.name_off,
            self.name_off + self.name_len))
    }

    /// How many members the roster holds.
    pub fn len(&self) -> (r: usize)
        ensures
            r == self.roster().members.len(),
    {
        proof {
            use_type_invariant(&*self);
        }
        self.count
    }

    pub fn is_empty(&self) -> (r: bool)
        ensures
            r == (self.roster().members.len() == 0),
    {
        self.len() == 0
    }

    /// The name bytes of member `index`.
    pub fn member_name(&self, index: usize) -> (r: Vec<u8>)
        requires
            index < self.roster().members.len(),
        ensures
            r@ == self.roster().members[index as int].name,
    {
        proof {
            use_type_invariant(&*self);
            assert(member_rec_ok(self.bytes@, self.base, index as int));
            assert(self.members_off + MEMBER_RECORD_LEN * index + MEMBER_RECORD_LEN
                <= self.bytes@.len());
        }
        let ro = self.members_off + MEMBER_RECORD_LEN * index;
        let a = u32_from_le_bytes(slice_subrange(self.bytes.as_slice(), ro, ro + 4));
        let l = u32_from_le_bytes(slice_subrange(self.bytes.as_slice(), ro + 4, ro + 8));
        let off = (a - self.base) as usize;
        slice_to_vec(slice_subrange(self.bytes.as_slice(), off, off + l as usize))
    }

    /// The pronoun bytes of member `index`.
    pub fn member_pronouns(&self, index: usize) -> (r: Vec<u8>)
        requires
            index < self.roster().members.len(),
        ensures
            r@ == self.roster().members[index as int].pronouns,
    {
        proof {
            use_type_invariant(&*self);
            assert(member_rec_ok(self.bytes@, self.base, index as int));
            assert(self.members_off + MEMBER_RECORD_LEN * index + MEMBER_RECORD_LEN
                <= self.bytes@.len());
        }
        let ro = self.members_off + MEMBER_RECORD_LEN * index;
        let a = u32_from_le_bytes(slice_subrange(self.bytes.as_slice(), ro + 8, ro + 12));
        let l = u32_from_le_bytes(slice_subrange(self.bytes.as_slice(), ro + 12, ro + 16));
        let off = (a - self.base) as usize;
        slice_to_vec(slice_subrange(self.bytes.as_slice(), off, off + l as usize))
    }
}

impl crate::system::System for SystemReader {
    open spec fn sys(&self) -> Roster {
        self.roster()
    }

    open spec fn spec_system_id(&self) -> crate::usb::SystemId {
        crate::usb::SystemId::Unspecified
    }

    open spec fn spec_is_valid(&self) -> bool {
        true
    }

    fn name(&self) -> (r: Vec<u8>) {
        SystemReader::name(self)
    }

    fn member_count(&self) -> (n: usize) {
        self.len()
    }

    fn member_name(&self, index: usize) -> (r: Vec<u8>) {
        SystemReader::member_name(self, index)
    }

    fn member_pronouns(&self, index: usize) -> (r: Vec<u8>) {
        SystemReader::member_pronouns(self, index)
    }

    fn is_valid(&self) -> (b: bool) {
        true
    }

    fn system_id(&self) -> (r: crate::usb::SystemId) {
        crate::usb::SystemId::Unspecified
    }
}

} // verus!
