//! The host-side file wrapper around a roster blob: a fixed header with
//! the system name for easy access, the blob itself, an optional JSON
//! blob, and an optional whole-payload SHA-256 checksum. The wrapper is
//! used for file interchange; the device itself stores only the bare blob.

use vstd::bytes::{spec_u32_to_le_bytes, u32_from_le_bytes, u32_to_le_bytes};
use vstd::prelude::*;
use vstd::slice::{slice_index_get, slice_subrange, slice_to_vec};

use crate::binfmt::{encode_spec, encoded_size, le32, roster_encodable, zeros};
use crate::hashes::{sha256, sha256_of};
use crate::system::{zero_vec, SystemVec};

verus! {

/// Flag bit: the payload is followed by a SHA-256 checksum of the binary
/// and JSON blobs.
pub const FLAG_SHA2_CHECKSUM: u32 = 0x01;

/// Flag bit: a JSON blob follows the binary blob.
pub const FLAG_JSON_BLOB: u32 = 0x08;

/// The file header's flag word.
#[derive(Eq, PartialEq, Structural, Debug, Clone, Copy)]
pub struct Flags {
    pub bits: u32,
}

impl Flags {
    /// Whether every bit of `bits` is set.
    pub open spec fn spec_contains(self, bits: u32) -> bool {
        self.bits & bits == bits
    }

    pub fn empty() -> (r: Flags)
        ensures
            r.bits == 0,
    {
        Flags { bits: 0 }
    }

    /// Whether every bit of `bits` is set.
    pub fn contains(&self, bits: u32) -> (r: bool)
        ensures
            r == self.spec_contains(bits),
    {
        self.bits & bits == bits
    }

    /// Sets the bits of `bits`.
    pub fn insert(&mut self, bits: u32)
        ensures
            final(self).bits == old(self).bits | bits,
    {
        self.bits = self.bits | bits;
    }

    /// Clears the bits of `bits`.
    pub fn remove(&mut self, bits: u32)
        ensures
            final(self).bits == old(self).bits & !bits,
    {
        self.bits = self.bits & !bits;
    }
}

impl Default for Flags {
    /// By default a file carries both the checksum and the JSON blob.
    fn default() -> (r: Flags)
        ensures
            r.bits == FLAG_SHA2_CHECKSUM | FLAG_JSON_BLOB,
    {
        Flags { bits: FLAG_SHA2_CHECKSUM | FLAG_JSON_BLOB }
    }
}

/// The four magic bytes at the start of every wrapper file.
pub open spec fn file_magic_spec() -> Seq<u8> {
    seq![0x53u8, 0x59u8, 0x42u8, 0x44u8]
}

/// Size in bytes of the wrapper file's fixed header.
pub const FILE_HEADER_LEN: usize = 212;

/// Room the header reserves for the system name, including the forced
/// trailing zero byte.
pub const SYSTEM_NAME_LEN: usize = 192;

/// The wrapper file's fixed header.
#[derive(Debug, Clone, Copy)]
pub struct FileHeader {
    pub magic: [u8; 4],
    pub version: u32,
    pub flags: Flags,
    /// Length in octets of the binary blob.
    pub bin_length: u32,
    /// Length in octets of the JSON blob; meaningful only when the JSON
    /// flag is set.
    pub json_length: u32,
    /// The system name, zero-padded, for access without parsing the blob.
    pub system_name: [u8; 192],
}

/// The 212-byte serialized form of a header.
pub open spec fn header_bytes(h: FileHeader) -> Seq<u8> {
    h.magic@ + spec_u32_to_le_bytes(h.version) + spec_u32_to_le_bytes(h.flags.bits)
        + spec_u32_to_le_bytes(h.bin_length) + spec_u32_to_le_bytes(h.json_length)
        + h.system_name@
}

/// The header's name field for a given name: truncated to leave a zero
/// byte, zero-padded to the field's size.
pub open spec fn name_field(name: Seq<u8>) -> Seq<u8> {
    let l = if name.len() <= SYSTEM_NAME_LEN - 1 {
        name.len() as int
    } else {
        SYSTEM_NAME_LEN - 1
    };
    name.take(l) + zeros(SYSTEM_NAME_LEN - l)
}

/// Relies on `TryFrom<&[u8]>` for byte arrays: copies a slice of exactly
/// the array's length into an array.
#[verifier::external_body]
fn slice_to_array<const N: usize>(s: &[u8]) -> (r: [u8; N])
    requires
        s@.len() == N,
    ensures
        r@ == s@,
{
    let mut out = [0u8; N];
    out.copy_from_slice(s);
    out
}

impl FileHeader {
    /// A header with the magic and current version and everything else
    /// zero.
    pub fn empty() -> (r: FileHeader)
        ensures
            r.magic@ == file_magic_spec(),
            r.version == 1,
            r.flags.bits == 0,
            r.bin_length == 0,
            r.json_length == 0,
            r.system_name@ == zeros(SYSTEM_NAME_LEN as int),
    {
        let r = FileHeader {
            magic: [0x53, 0x59, 0x42, 0x44],
            version: 1,
            flags: Flags::empty(),
            bin_length: 0,
            json_length: 0,
            system_name: [0u8; 192],
        };
        proof {
            assert(r.magic@ =~= file_magic_spec());
            assert(r.system_name@ =~= zeros(SYSTEM_NAME_LEN as int));
        }
        r
    }

    /// The header's serialized form.
    pub fn as_bytes(&self) -> (r: Vec<u8>)
        ensures
            r@ == header_bytes(*self),
            r@.len() == FILE_HEADER_LEN,
    {
        let mut out: Vec<u8> = Vec::new();
        let mut m = slice_to_vec(self.magic.as_slice());
        out.append(&mut m);
        let mut t = u32_to_le_bytes(self.version);
        out.append(&mut t);
        let mut t = u32_to_le_bytes(self.flags.bits);
        out.append(&mut t);
        let mut t = u32_to_le_bytes(self.bin_length);
        out.append(&mut t);
        let mut t = u32_to_le_bytes(self.json_length);
        out.append(&mut t);
        let mut n = slice_to_vec(self.system_name.as_slice());
        out.append(&mut n);
        proof {
            assert(out@ =~= header_bytes(*self));
        }
        out
    }

    /// Reads a header back from its serialized form; inverse of
    /// `as_bytes`.
    pub fn from_bytes(buf: &[u8]) -> (r: FileHeader)
        requires
            buf@.len() == FILE_HEADER_LEN,
        ensures
            header_bytes(r) == buf@,
            r.magic@ == buf@.subrange(0, 4),
            r.version == le32(buf@, 4),
            r.flags.bits == le32(buf@, 8),
            r.bin_length == le32(buf@, 12),
            r.json_length == le32(buf@, 16),
            r.system_name@ == buf@.subrange(20, FILE_HEADER_LEN as int),
    {
        let magic: [u8; 4] = slice_to_array(slice_subrange(buf, 0, 4));
        let version = u32_from_le_bytes(slice_subrange(buf, 4, 8));
        let flags = Flags { bits: u32_from_le_bytes(slice_subrange(buf, 8, 12)) };
        let bin_length = u32_from_le_bytes(slice_subrange(buf, 12, 16));
        let json_length = u32_from_le_bytes(slice_subrange(buf, 16, 20));
        let system_name: [u8; 192] = slice_to_array(slice_subrange(buf, 20, FILE_HEADER_LEN));
        let r = FileHeader { magic, version, flags, bin_length, json_length, system_name };
        proof {
            vstd::bytes::lemma_auto_spec_u32_to_from_le_bytes();
            assert(buf@.subrange(4, 8) =~= header_bytes(r).subrange(4, 8));
            assert(header_bytes(r) =~= buf@);
        }
        r
    }
}

impl Default for FileHeader {
    /// An empty header carrying the default flags.
    fn default() -> (r: FileHeader)
        ensures
            r.magic@ == file_magic_spec(),
            r.version == 1,
            r.flags.bits == FLAG_SHA2_CHECKSUM | FLAG_JSON_BLOB,
            r.bin_length == 0,
            r.json_length == 0,
            r.system_name@ == zeros(SYSTEM_NAME_LEN as int),
    {
        let mut h = FileHeader::empty();
        h.flags = Flags::default();
        h
    }
}

/// Serializes a roster into a wrapper file: the header, the binary blob,
/// the JSON blob handed in by the caller (when the flag asks for one),
/// and the whole-payload checksum (when its flag asks for it).
pub struct FileWriter<'a> {
    /// The roster to serialize.
    pub system: &'a SystemVec,
    /// Which optional parts the file carries.
    pub flags: Flags,
    /// The JSON blob to embed; the caller produces it, since the library
    /// does not serialize to JSON itself.
    pub json: Option<Vec<u8>>,
}

/// The JSON bytes a writer embeds: the caller's blob when the flag is
/// set, nothing otherwise.
pub open spec fn writer_json(flags: Flags, json: Option<Vec<u8>>) -> Seq<u8> {
    if flags.spec_contains(FLAG_JSON_BLOB) {
        match json {
            Some(j) => j@,
            None => Seq::empty(),
        }
    } else {
        Seq::empty()
    }
}

impl<'a> FileWriter<'a> {
    /// A writer for `system` with the default flags and no JSON blob yet.
    pub fn new(system: &'a SystemVec) -> (r: FileWriter<'a>)
        ensures
            r.system == system,
            r.flags.bits == FLAG_SHA2_CHECKSUM | FLAG_JSON_BLOB,
            r.json is None,
    {
        FileWriter { system, flags: Flags::default(), json: None }
    }

    /// The whole file, for a blob built for base address `base`: header,
    /// blob, JSON blob, checksum.
    pub fn to_vec(&self, base: u32) -> (r: Vec<u8>)
        requires
            roster_encodable(self.system.sys_spec(), base),
            encoded_size(self.system.sys_spec()) <= u32::MAX,
            writer_json(self.flags, self.json).len() <= u32::MAX,
        ensures
            ({
                let bin = encode_spec(self.system.sys_spec(), base);
                let json = writer_json(self.flags, self.json);
                let body = header_bytes_of(self, bin.len() as u32, json.len() as u32) + bin
                    + json;
                if self.flags.spec_contains(FLAG_SHA2_CHECKSUM) {
                    r@ == body + sha256_of(bin + json)
                } else {
                    r@ == body
                }
            }),
    {
        let bin = self.system.get_bin(base);
        let name_bytes = crate::system::System::name(self.system);
        let nlen = if name_bytes.len() <= SYSTEM_NAME_LEN - 1 {
            name_bytes.len()
        } else {
            SYSTEM_NAME_LEN - 1
        };
        let mut namef: Vec<u8> = slice_to_vec(slice_subrange(name_bytes.as_slice(), 0, nlen));
        let mut pad = zero_vec(SYSTEM_NAME_LEN - nlen);
        namef.append(&mut pad);
        let json: Vec<u8> = if self.flags.contains(FLAG_JSON_BLOB) {
            match &self.json {
                Some(j) => slice_to_vec(j.as_slice()),
                Option::None => Vec::new(),
            }
        } else {
            Vec::new()
        };
        let header = FileHeader {
            magic: [0x53, 0x59, 0x42, 0x44],
            version: 1,
            flags: self.flags,
            bin_length: bin.len() as u32,
            json_length: json.len() as u32,
            system_name: slice_to_array(namef.as_slice()),
        };
        proof {
            assert(header.magic@ =~= file_magic_spec());
            assert(header.system_name@ =~= name_field(self.system.sys_spec().name));
        }
        let ghost gbin = bin@;
        let ghost gjson = json@;
        let mut out = header.as_bytes();
        let with_checksum = self.flags.contains(FLAG_SHA2_CHECKSUM);
        // the checksum covers only the binary and JSON blobs, not the header
        let mut hash_input = slice_to_vec(bin.as_slice());
        let mut json_c = slice_to_vec(json.as_slice());
        hash_input.append(&mut json_c);
        proof {
            assert(hash_input@ =~= gbin + gjson);
        }
        let mut bin_m = bin;
        out.append(&mut bin_m);
        let mut json_m = json;
        out.append(&mut json_m);
        if with_checksum {
            let mut digest = sha256(hash_input.as_slice());
            out.append(&mut digest);
        }
        out
    }
}

/// The header a writer emits, given the two blob lengths.
pub open spec fn header_bytes_of(w: &FileWriter, bin_len: u32, json_len: u32) -> Seq<u8> {
    file_magic_spec() + spec_u32_to_le_bytes(1u32) + spec_u32_to_le_bytes(w.flags.bits)
        + spec_u32_to_le_bytes(bin_len) + spec_u32_to_le_bytes(json_len) + name_field(
        w.system.sys_spec().name,
    )
}

/// A wrapper file taken apart: the header and the three byte regions
/// after it.
#[derive(Debug, Clone)]
pub struct File {
    pub header: FileHeader,
    pub payload: Vec<u8>,
    pub json: Option<Vec<u8>>,
    pub rest: Vec<u8>,
}

/// Whether a byte string is a well-formed wrapper file: long enough for
/// the header, the right magic, the one recognized version, and blob
/// lengths that stay inside the bytes.
pub open spec fn valid_file_bytes(b: Seq<u8>) -> bool {
    &&& b.len() >= FILE_HEADER_LEN
    &&& b.subrange(0, 4) == file_magic_spec()
    &&& le32(b, 4) == 1
    &&& FILE_HEADER_LEN + le32(b, 12) + file_json_len(b) <= b.len()
}

/// The JSON blob's length: used only when the JSON flag is set.
pub open spec fn file_json_len(b: Seq<u8>) -> int {
    if (le32(b, 8) & FLAG_JSON_BLOB) == FLAG_JSON_BLOB {
        le32(b, 16) as int
    } else {
        0
    }
}

impl File {
    /// Takes a wrapper file apart, validating the header and that both
    /// blobs lie inside the bytes; truncated or foreign bytes are
    /// rejected, never read past.
    pub fn from_byte_slice(slice: &[u8]) -> (r: Result<File, ()>)
        ensures
            r is Ok <==> valid_file_bytes(slice@),
            r matches Ok(f) ==> {
                &&& header_bytes(f.header) == slice@.subrange(0, FILE_HEADER_LEN as int)
                &&& f.payload@ == slice@.subrange(
                    FILE_HEADER_LEN as int,
                    FILE_HEADER_LEN + f.header.bin_length,
                )
                &&& f.header.bin_length == le32(slice@, 12)
                &&& f.header.flags.bits == le32(slice@, 8)
                &&& (if f.header.flags.spec_contains(FLAG_JSON_BLOB) {
                    f.json matches Some(j) && j@ == slice@.subrange(
                        FILE_HEADER_LEN + f.header.bin_length,
                        FILE_HEADER_LEN + f.header.bin_length + f.header.json_length,
                    )
                } else {
                    f.json is None
                })
                &&& f.rest@ == slice@.subrange(
                    FILE_HEADER_LEN + f.header.bin_length + file_json_len(slice@),
                    slice@.len() as int,
                )
            },
    {
        if slice.len() < FILE_HEADER_LEN {
            return Err(());
        }
        let header = FileHeader::from_bytes(slice_subrange(slice, 0, FILE_HEADER_LEN));
        proof {
            assert(slice@.subrange(0, FILE_HEADER_LEN as int).subrange(4, 8) =~= slice@.subrange(
                4,
                8,
            ));
            assert(slice@.subrange(0, FILE_HEADER_LEN as int).subrange(8, 12) =~= slice@.subrange(
                8,
                12,
            ));
            assert(slice@.subrange(0, FILE_HEADER_LEN as int).subrange(12, 16) =~= slice@.subrange(
                12,
                16,
            ));
            assert(slice@.subrange(0, FILE_HEADER_LEN as int).subrange(16, 20) =~= slice@.subrange(
                16,
                20,
            ));
        }
        if !(*slice_index_get(slice, 0) == 0x53 && *slice_index_get(slice, 1) == 0x59
            && *slice_index_get(slice, 2) == 0x42 && *slice_index_get(slice, 3) == 0x44) {
            proof {
                assert(slice@.subrange(0, 4) != file_magic_spec());
            }
            return Err(());
        }
        proof {
            assert(slice@.subrange(0, 4) =~= file_magic_spec());
        }
        if header.version != 1 {
            return Err(());
        }
        let has_json = header.flags.contains(FLAG_JSON_BLOB);
        let jlen: u64 = if has_json {
            header.json_length as u64
        } else {
            0
        };
        if FILE_HEADER_LEN as u64 + header.bin_length as u64 + jlen > slice.len() as u64 {
            return Err(());
        }
        let bin_end = FILE_HEADER_LEN + header.bin_length as usize;
        let payload = slice_to_vec(slice_subrange(slice, FILE_HEADER_LEN, bin_end));
        let json = if has_json {
            Some(slice_to_vec(slice_subrange(slice, bin_end, bin_end
                + header.json_length as usize)))
        } else {
            None
        };
        let rest_start = if has_json {
            bin_end + header.json_length as usize
        } else {
            bin_end
        };
        let rest = slice_to_vec(slice_subrange(slice, rest_start, slice.len()));
        Ok(File { header, payload, json, rest })
    }

    /// Takes bytes apart as a wrapper file where they are one, and
    /// otherwise treats them as a bare roster blob wrapped in an empty
    /// header, so that both file shapes load the same way.
    pub fn from_bytes_or_bin(bytes: Vec<u8>) -> (r: File)
        ensures
            valid_file_bytes(bytes@) ==> {
                &&& header_bytes(r.header) == bytes@.subrange(0, FILE_HEADER_LEN as int)
                &&& r.payload@ == bytes@.subrange(
                    FILE_HEADER_LEN as int,
                    FILE_HEADER_LEN + r.header.bin_length,
                )
            },
            !valid_file_bytes(bytes@) ==> {
                &&& r.header.magic@ == file_magic_spec()
                &&& r.header.flags.bits == 0
                &&& r.payload@ == bytes@
                &&& r.json is None
                &&& r.rest@.len() == 0
            },
    {
        match File::from_byte_slice(bytes.as_slice()) {
            Ok(f) => f,
            Err(_) => File {
                header: FileHeader::empty(),
                payload: bytes,
                json: None,
                rest: Vec::new(),
            },
        }
    }

    /// Checks the whole-payload checksum: vacuously true for a file that
    /// never carried one, and otherwise true exactly when the first 32
    /// bytes after the blobs equal the digest of the binary and JSON
    /// blobs together.
    pub fn verify(&self) -> (r: bool)
        ensures
            !self.header.flags.spec_contains(FLAG_SHA2_CHECKSUM) ==> r,
            self.header.flags.spec_contains(FLAG_SHA2_CHECKSUM) ==> r == {
                &&& self.rest@.len() >= 32
                &&& self.rest@.subrange(0, 32) == sha256_of(
                    self.payload@ + (match self.json {
                        Some(ref j) => j@,
                        None => Seq::empty(),
                    }),
                )
            },
    {
        if !self.header.flags.contains(FLAG_SHA2_CHECKSUM) {
            return true;
        }
        let mut hash_input = slice_to_vec(self.payload.as_slice());
        match &self.json {
            Some(j) => {
                let mut jc = slice_to_vec(j.as_slice());
                hash_input.append(&mut jc);
            },
            Option::None => {},
        }
        proof {
            assert(hash_input@ =~= self.payload@ + (match self.json {
                Some(ref j) => j@,
                None => Seq::<u8>::empty(),
            }));
        }
        let digest = sha256(hash_input.as_slice());
        if self.rest.len() < 32 {
            return false;
        }
        bytes_eq(slice_subrange(self.rest.as_slice(), 0, 32), digest.as_slice())
    }
}

/// Whether two byte strings are equal, byte for byte.
pub fn bytes_eq(a: &[u8], b: &[u8]) -> (r: bool)
    ensures
        r == (a@ == b@),
{
    if a.len() != b.len() {
        proof {
            assert(a@.len() != b@.len());
        }
        return false;
    }
    let n = a.len();
    let mut i: usize = 0;
    while i < n
        invariant
            i <= n,
            a@.len() == n,
            b@.len() == n,
            forall|j: int| 0 <= j < i ==> a@[j] == b@[j],
        decreases n - i,
    {
        if *slice_index_get(a, i) != *slice_index_get(b, i) {
            return false;
        }
        i = i + 1;
    }
    proof {
        assert(a@ =~= b@);
    }
    true
}

} // verus!
