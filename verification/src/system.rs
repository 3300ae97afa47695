//! The roster capability and the owned roster builder.
//!
//! `System` is the capability set every roster carrier offers: the name, the
//! member count and each member's strings. It is implemented by the owned
//! builder below and by the flash-region reader, and front ends may
//! implement it for carriers of their own.

use vstd::bytes::{u16_to_le_bytes, u32_to_le_bytes};
use vstd::prelude::*;
use vstd::string::StrSliceExecFns;
use vstd::utf8::encode_utf8;

use vstd::multiset::Multiset;

use crate::binfmt::{bytes_to_align, encode_spec, encoded_size, header62, lemma_encode_roundtrip,
    lemma_total_str_len_nonneg, members_start, record16, records_spec, roster_encodable,
    roster_spec, spec_bytes_to_align, strings_spec, strings_start, total_str_len, valid_roster,
    zeros, HEADER_LEN, MemberEntry, Roster, MAGIC, VERSION_1};
use crate::hashes::crc16_buypass;
use crate::text::{lex_leq, lex_leq_bytes, lemma_lex_leq_refl, lemma_lex_leq_total,
    lemma_lex_leq_trans, lowercase, lower_of};
use crate::uf2::{uf2_file, uf2_nblocks, RP2040_FAMILY_ID};
use crate::usb::SystemId;

verus! {

/// Anything that carries a roster: a name, and an ordered list of members
/// with names and pronouns. Strings are handed out as their UTF-8 bytes, as
/// they are stored on flash and sent over USB.
pub trait System {
    /// The roster carried, at the specification level.
    spec fn sys(&self) -> Roster;

    /// The provider id the roster came from, if one is known.
    spec fn spec_system_id(&self) -> SystemId;

    /// Whether the carrier holds usable roster data.
    spec fn spec_is_valid(&self) -> bool;

    /// The system name's bytes.
    fn name(&self) -> (r: Vec<u8>)
        ensures
            r@ == self.sys().name,
    ;

    /// How many members the roster holds.
    fn member_count(&self) -> (n: usize)
        ensures
            n == self.sys().members.len(),
    ;

    /// The name bytes of member `index`.
    fn member_name(&self, index: usize) -> (r: Vec<u8>)
        requires
            index < self.sys().members.len(),
        ensures
            r@ == self.sys().members[index as int].name,
    ;

    /// The pronoun bytes of member `index`.
    fn member_pronouns(&self, index: usize) -> (r: Vec<u8>)
        requires
            index < self.sys().members.len(),
        ensures
            r@ == self.sys().members[index as int].pronouns,
    ;

    /// Whether the carrier holds usable roster data.
    fn is_valid(&self) -> (b: bool)
        ensures
            b == self.spec_is_valid(),
    ;

    /// The provider id the roster came from.
    fn system_id(&self) -> (r: SystemId)
        ensures
            r == self.spec_system_id(),
    ;
}

/// One member of the owned builder: a name and pronouns, both owned strings.
#[derive(Debug, Clone)]
pub struct MemberStrings {
    pub name: String,
    pub pronouns: String,
}

/// Which directory a roster was fetched from, with the id it has there.
#[derive(Debug, Clone)]
pub enum SourceId {
    PluralKit(String),
    Pronouns(String),
}

/// The owned, heap-backed roster builder: used when assembling or editing a
/// roster before it is serialized into the binary blob.
#[derive(Debug, Clone)]
pub struct SystemVec {
    /// Name of the system.
    pub name: String,
    /// Where the roster came from, if known.
    pub source_id: Option<SourceId>,
    /// The members, in display order.
    pub members: Vec<MemberStrings>,
}

/// The roster a `MemberStrings` contributes: its strings as UTF-8 bytes.
pub open spec fn member_entry_of(m: MemberStrings) -> MemberEntry {
    MemberEntry { name: encode_utf8(m.name@), pronouns: encode_utf8(m.pronouns@) }
}

impl SystemVec {
    /// The roster held, at the specification level.
    pub open spec fn sys_spec(&self) -> Roster {
        Roster {
            name: encode_utf8(self.name@),
            members: Seq::new(self.members@.len(), |i: int| member_entry_of(self.members@[i])),
        }
    }

    /// A fresh roster with the given name and no members.
    pub fn new(name: String) -> (r: SystemVec)
        ensures
            r.name@ == name@,
            r.source_id is None,
            r.members@.len() == 0,
    {
        SystemVec { name, source_id: None, members: Vec::new() }
    }

    /// Serializes the roster as a binary blob built for base address
    /// `offset`: the header, the name bytes, padding to the record array's
    /// alignment, the member records, and the members' string bytes. The
    /// result is a valid blob at `offset` and decodes back to exactly this
    /// roster.
    #[verifier::loop_isolation(false)]
    pub fn get_bin(&self, offset: u32) -> (r: Vec<u8>)
        requires
            roster_encodable(self.sys_spec(), offset),
        ensures
            r@ == encode_spec(self.sys_spec(), offset),
            r@.len() == encoded_size(self.sys_spec()),
            valid_roster(r@, offset),
            roster_spec(r@, offset) == self.sys_spec(),
    {
        let ghost rsp = self.sys_spec();
        proof {
            lemma_total_str_len_nonneg(rsp.members);
            lemma_encode_roundtrip(rsp, offset);
        }
        let mut name_bytes = self.name.as_str().as_bytes_vec();
        let nlen = name_bytes.len();
        assert(nlen == rsp.name.len());
        let count = self.members.len();
        let ne: u32 = HEADER_LEN as u32 + nlen as u32;
        let pad = bytes_to_align(4, ne);
        let mstart: u32 = ne + pad;
        assert(mstart == members_start(rsp));
        let sstart64: u64 = mstart as u64 + 16u64 * (count as u64);
        assert(sstart64 == strings_start(rsp));
        let sstart: u32 = sstart64 as u32;

        let mut out: Vec<u8> = Vec::new();
        let mut t32 = u32_to_le_bytes(MAGIC);
        out.append(&mut t32);
        let mut t16 = u16_to_le_bytes(VERSION_1);
        out.append(&mut t16);
        let mut t16 = u16_to_le_bytes(0);
        out.append(&mut t16);
        let mut t32 = u32_to_le_bytes(offset + HEADER_LEN as u32);
        out.append(&mut t32);
        let mut t32 = u32_to_le_bytes(nlen as u32);
        out.append(&mut t32);
        let mut t32 = u32_to_le_bytes(offset + mstart);
        out.append(&mut t32);
        let mut t32 = u32_to_le_bytes(count as u32);
        out.append(&mut t32);
        let mut z = zero_vec(38);
        out.append(&mut z);
        assert(out@ =~= header62(rsp, offset));
        let crc = crc16_buypass(out.as_slice());
        let mut t16 = u16_to_le_bytes(crc);
        out.append(&mut t16);
        out.append(&mut name_bytes);
        let mut z = zero_vec(pad as usize);
        out.append(&mut z);

        let ghost pre_recs = out@;
        let ghost s0 = (offset + sstart) as int;
        let mut cursor: u32 = offset + sstart;
        let mut i: usize = 0;
        proof {
            assert(rsp.members.skip(0) =~= rsp.members);
        }
        while i < count
            invariant
                i <= count,
                cursor + total_str_len(rsp.members.skip(i as int)) == offset + encoded_size(rsp),
                pre_recs + records_spec(rsp.members, s0) == out@ + records_spec(
                    rsp.members.skip(i as int),
                    cursor as int,
                ),
            decreases count - i,
        {
            proof {
                assert(rsp.members.skip(i as int).drop_first() =~= rsp.members.skip(i as int + 1));
                lemma_total_str_len_nonneg(rsp.members.skip(i as int + 1));
            }
            let m = &self.members[i];
            let mn = m.name.as_str().len();
            let mp = m.pronouns.as_str().len();
            assert(rsp.members.skip(i as int)[0] == rsp.members[i as int]);
            assert(mn == rsp.members[i as int].name.len());
            assert(mp == rsp.members[i as int].pronouns.len());
            let mut t32 = u32_to_le_bytes(cursor);
            out.append(&mut t32);
            let mut t32 = u32_to_le_bytes(mn as u32);
            out.append(&mut t32);
            let mut t32 = u32_to_le_bytes(cursor + mn as u32);
            out.append(&mut t32);
            let mut t32 = u32_to_le_bytes(mp as u32);
            out.append(&mut t32);
            assert(pre_recs + records_spec(rsp.members, s0) =~= out@ + records_spec(
                rsp.members.skip(i as int + 1),
                cursor + mn + mp,
            ));
            cursor = cursor + mn as u32 + mp as u32;
            i = i + 1;
        }
        proof {
            assert(rsp.members.skip(count as int) =~= Seq::<MemberEntry>::empty());
            assert(out@ =~= pre_recs + records_spec(rsp.members, s0));
        }

        let ghost pre_strs = out@;
        let mut i: usize = 0;
        proof {
            assert(rsp.members.skip(0) =~= rsp.members);
        }
        while i < count
            invariant
                i <= count,
                pre_strs + strings_spec(rsp.members) == out@ + strings_spec(
                    rsp.members.skip(i as int),
                ),
            decreases count - i,
        {
            proof {
                assert(rsp.members.skip(i as int).drop_first() =~= rsp.members.skip(i as int + 1));
                assert(rsp.members.skip(i as int)[0] == rsp.members[i as int]);
            }
            let m = &self.members[i];
            let mut nb = m.name.as_str().as_bytes_vec();
            out.append(&mut nb);
            let mut pb = m.pronouns.as_str().as_bytes_vec();
            out.append(&mut pb);
            assert(pre_strs + strings_spec(rsp.members) =~= out@ + strings_spec(
                rsp.members.skip(i as int + 1),
            ));
            i = i + 1;
        }
        proof {
            assert(rsp.members.skip(count as int) =~= Seq::<MemberEntry>::empty());
            assert(out@ =~= encode_spec(rsp, offset));
        }
        out
    }
}

/// Which ordering `sort_members_by` puts the members in. Observed
/// revisions of the badge differ on whether the sort folds case, so the
/// policy is explicit; `sort_members` itself folds case.
#[derive(Eq, PartialEq, Structural, Debug, Clone, Copy)]
pub enum SortOrder {
    CaseSensitive,
    CaseInsensitive,
}

/// The byte string a member is ordered by under a policy: its name's
/// UTF-8 bytes, case-folded or not.
pub open spec fn sort_key(policy: SortOrder, m: MemberStrings) -> Seq<u8> {
    match policy {
        SortOrder::CaseSensitive => encode_utf8(m.name@),
        SortOrder::CaseInsensitive => encode_utf8(lower_of(m.name@)),
    }
}

/// Whether `a` sorts no later than `b` under a policy.
pub open spec fn member_leq(policy: SortOrder, a: MemberStrings, b: MemberStrings) -> bool {
    lex_leq(sort_key(policy, a), sort_key(policy, b))
}

/// The member order under a policy, as a relation for `sorted_by`.
pub open spec fn member_leq_fn(policy: SortOrder) -> spec_fn(MemberStrings, MemberStrings) -> bool {
    |a: MemberStrings, b: MemberStrings| member_leq(policy, a, b)
}

/// The key a member is compared by under a policy.
fn member_key(policy: SortOrder, m: &MemberStrings) -> (r: Vec<u8>)
    ensures
        r@ == sort_key(policy, *m),
{
    match policy {
        SortOrder::CaseSensitive => m.name.as_str().as_bytes_vec(),
        SortOrder::CaseInsensitive => {
            let lower = lowercase(m.name.as_str());
            lower.as_str().as_bytes_vec()
        },
    }
}

/// Whether `a` sorts no later than `b` under a policy.
fn member_leq_exec(policy: SortOrder, a: &MemberStrings, b: &MemberStrings) -> (r: bool)
    ensures
        r == member_leq(policy, *a, *b),
{
    let ka = member_key(policy, a);
    let kb = member_key(policy, b);
    lex_leq_bytes(ka.as_slice(), kb.as_slice())
}

impl SystemVec {
    /// Orders the members by name, folding case, for stable display.
    pub fn sort_members(&mut self)
        ensures
            final(self).name == old(self).name,
            final(self).source_id == old(self).source_id,
            final(self).members@.to_multiset() == old(self).members@.to_multiset(),
            vstd::relations::sorted_by(
                final(self).members@,
                member_leq_fn(SortOrder::CaseInsensitive),
            ),
    {
        self.sort_members_by(SortOrder::CaseInsensitive)
    }

    /// Orders the members by name under the given policy: afterwards the
    /// members are the same collection, arranged so that each sorts no
    /// later than the next.
    #[verifier::loop_isolation(false)]
    pub fn sort_members_by(&mut self, policy: SortOrder)
        ensures
            final(self).name == old(self).name,
            final(self).source_id == old(self).source_id,
            final(self).members@.to_multiset() == old(self).members@.to_multiset(),
            vstd::relations::sorted_by(final(self).members@, member_leq_fn(policy)),
    {
        broadcast use vstd::seq_lib::group_to_multiset_ensures;

        let ghost orig = self.members@;
        let mut sorted: Vec<MemberStrings> = Vec::new();
        while self.members.len() > 0
            invariant
                self.name == old(self).name,
                self.source_id == old(self).source_id,
                sorted@.to_multiset().add(self.members@.to_multiset()) == orig.to_multiset(),
                vstd::relations::sorted_by(sorted@, member_leq_fn(policy)),
                forall|k: int, j: int|
                    0 <= k < sorted@.len() && 0 <= j < self.members@.len() ==> member_leq(
                        policy,
                        #[trigger] sorted@[k],
                        #[trigger] self.members@[j],
                    ),
            decreases self.members.len(),
        {
            let n = self.members.len();
            let mut mi: usize = 0;
            let mut i: usize = 1;
            proof {
                lemma_lex_leq_refl(sort_key(policy, self.members@[0]));
            }
            while i < n
                invariant
                    1 <= i <= n,
                    mi < i,
                    n == self.members@.len(),
                    forall|j: int|
                        0 <= j < i ==> member_leq(
                            policy,
                            self.members@[mi as int],
                            #[trigger] self.members@[j],
                        ),
                decreases n - i,
            {
                if member_leq_exec(policy, &self.members[i], &self.members[mi]) {
                    proof {
                        assert forall|j: int| 0 <= j < i + 1 implies member_leq(
                            policy,
                            self.members@[i as int],
                            #[trigger] self.members@[j],
                        ) by {
                            if j == i {
                                lemma_lex_leq_refl(sort_key(policy, self.members@[i as int]));
                            } else {
                                lemma_lex_leq_trans(
                                    sort_key(policy, self.members@[i as int]),
                                    sort_key(policy, self.members@[mi as int]),
                                    sort_key(policy, self.members@[j]),
                                );
                            }
                        }
                    }
                    mi = i;
                } else {
                    proof {
                        lemma_lex_leq_total(
                            sort_key(policy, self.members@[i as int]),
                            sort_key(policy, self.members@[mi as int]),
                        );
                    }
                }
                i = i + 1;
            }
            let ghost pre = self.members@;
            let m = self.members.remove(mi);
            proof {
                assert forall|j: int| 0 <= j < self.members@.len() implies member_leq(
                    policy,
                    m,
                    #[trigger] self.members@[j],
                ) by {
                    if j < mi {
                        assert(self.members@[j] == pre[j]);
                    } else {
                        assert(self.members@[j] == pre[j + 1]);
                    }
                }
                assert forall|k: int, j: int|
                    0 <= k < sorted@.len() && 0 <= j < self.members@.len() implies member_leq(
                    policy,
                    #[trigger] sorted@[k],
                    #[trigger] self.members@[j],
                ) by {
                    if j < mi {
                        assert(self.members@[j] == pre[j]);
                    } else {
                        assert(self.members@[j] == pre[j + 1]);
                    }
                }
            }
            sorted.push(m);
        }
        proof {
            assert(self.members@.to_multiset() =~= Multiset::<MemberStrings>::empty());
            assert(sorted@.to_multiset() =~= orig.to_multiset());
        }
        self.members = sorted;
    }

    /// Serializes the roster for base address `offset` after checking that
    /// it fits the 32-bit address space the format's pointers can express;
    /// a roster too large for that address comes back as nothing instead
    /// of a demand on the caller.
    #[verifier::loop_isolation(false)]
    pub fn try_get_bin(&self, offset: u32) -> (r: Option<Vec<u8>>)
        ensures
            r is Some <==> roster_encodable(self.sys_spec(), offset),
            r matches Some(b) ==> {
                &&& b@ == encode_spec(self.sys_spec(), offset)
                &&& b@.len() == encoded_size(self.sys_spec())
                &&& valid_roster(b@, offset)
                &&& roster_spec(b@, offset) == self.sys_spec()
            },
    {
        let ghost rsp = self.sys_spec();
        proof {
            lemma_total_str_len_nonneg(rsp.members);
            assert(rsp.members.skip(0) =~= rsp.members);
        }
        let nlen = self.name.as_str().as_bytes().len();
        let count = self.members.len();
        if nlen as u64 > u32::MAX as u64 || count as u64 > (u32::MAX as u64) / 16 {
            return None;
        }
        let ne64: u64 = HEADER_LEN as u64 + nlen as u64;
        let pad64: u64 = (4 - (ne64 % 4)) % 4;
        proof {
            assert(nlen == rsp.name.len());
            assert(pad64 == spec_bytes_to_align(4, HEADER_LEN + rsp.name.len()));
        }
        let mut acc: u64 = ne64 + pad64 + 16 * (count as u64);
        let mut i: usize = 0;
        while i < count
            invariant
                i <= count,
                acc + total_str_len(rsp.members.skip(i as int)) == encoded_size(rsp),
                acc <= 3 * (u32::MAX as u64),
            decreases count - i,
        {
            proof {
                assert(rsp.members.skip(i as int).drop_first() =~= rsp.members.skip(i as int + 1));
                assert(rsp.members.skip(i as int)[0] == rsp.members[i as int]);
                lemma_total_str_len_nonneg(rsp.members.skip(i as int + 1));
            }
            let m = &self.members[i];
            let mn = m.name.as_str().as_bytes().len();
            let mp = m.pronouns.as_str().as_bytes().len();
            assert(mn == rsp.members[i as int].name.len());
            assert(mp == rsp.members[i as int].pronouns.len());
            if mn as u64 > u32::MAX as u64 || mp as u64 > u32::MAX as u64 {
                return None;
            }
            acc = acc + mn as u64 + mp as u64;
            if acc > u32::MAX as u64 {
                return None;
            }
            i = i + 1;
        }
        if offset as u64 + acc > u32::MAX as u64 {
            return None;
        }
        proof {
            assert(rsp.members.skip(count as int) =~= Seq::<MemberEntry>::empty());
        }
        Some(self.get_bin(offset))
    }

    /// The roster as a UF2 image: the binary blob built for `offset` and
    /// packed into blocks targeted at `offset`, so that flashing the image
    /// places the blob exactly where its pointers expect it.
    pub fn get_uf2(&self, offset: u32) -> (r: Vec<u8>)
        requires
            roster_encodable(self.sys_spec(), offset),
            offset + uf2_nblocks(encoded_size(self.sys_spec())) * 256 <= u32::MAX,
        ensures
            r@ == uf2_file(
                encode_spec(self.sys_spec(), offset),
                RP2040_FAMILY_ID,
                offset,
                uf2_nblocks(encoded_size(self.sys_spec())),
            ),
    {
        let buf = self.get_bin(offset);
        crate::uf2::bin_to_uf2(buf.as_slice(), RP2040_FAMILY_ID, offset)
    }

    /// Packs an already-encoded blob into a UF2 image for the RP2040.
    pub fn bin_to_uf2(bin: &[u8], offset: u32) -> (r: Vec<u8>)
        requires
            offset + uf2_nblocks(bin@.len() as int) * 256 <= u32::MAX,
        ensures
            r@ == uf2_file(bin@, RP2040_FAMILY_ID, offset, uf2_nblocks(bin@.len() as int)),
    {
        crate::uf2::bin_to_uf2(bin, RP2040_FAMILY_ID, offset)
    }
}

impl System for SystemVec {
    open spec fn sys(&self) -> Roster {
        self.sys_spec()
    }

    open spec fn spec_system_id(&self) -> SystemId {
        match self.source_id {
            Option::None => SystemId::Unspecified,
            Option::Some(SourceId::PluralKit(ref s)) => SystemId::PluralKit(*s),
            Option::Some(SourceId::Pronouns(ref s)) => SystemId::PronounsCC(*s),
        }
    }

    open spec fn spec_is_valid(&self) -> bool {
        true
    }

    fn name(&self) -> (r: Vec<u8>) {
        self.name.as_str().as_bytes_vec()
    }

    fn member_count(&self) -> (n: usize) {
        self.members.len()
    }

    fn member_name(&self, index: usize) -> (r: Vec<u8>) {
        self.members[index].name.as_str().as_bytes_vec()
    }

    fn member_pronouns(&self, index: usize) -> (r: Vec<u8>) {
        self.members[index].pronouns.as_str().as_bytes_vec()
    }

    fn is_valid(&self) -> (b: bool) {
        true
    }

    fn system_id(&self) -> (r: SystemId) {
        match &self.source_id {
            Option::None => SystemId::Unspecified,
            Option::Some(SourceId::PluralKit(s)) => SystemId::PluralKit(s.clone()),
            Option::Some(SourceId::Pronouns(s)) => SystemId::PronounsCC(s.clone()),
        }
    }
}

/// A vector of `n` zero bytes.
pub fn zero_vec(n: usize) -> (r: Vec<u8>)
    ensures
        r@ == zeros(n as int),
{
    let mut r: Vec<u8> = Vec::new();
    let mut i: usize = 0;
    while i < n
        invariant
            i <= n,
            r@.len() == i,
            forall|j: int| 0 <= j < i ==> r@[j] == 0u8,
        decreases n - i,
    {
        r.push(0);
        i = i + 1;
    }
    proof {
        assert(r@ =~= zeros(n as int));
    }
    r
}

} // verus!
