//! The UF2 flashing container: a binary image cut into 256-byte chunks,
//! each carried in a 512-byte block with magic words, the block's target
//! address and the block count, as the RP2040 bootloader expects it.

use vstd::bytes::{spec_u32_to_le_bytes, u32_to_le_bytes};
use vstd::prelude::*;
use vstd::slice::{slice_index_get, slice_subrange, slice_to_vec};

use crate::binfmt::zeros;

verus! {

/// First magic word of every UF2 block.
pub const UF2_MAGIC_START0: u32 = 0x0a324655;

/// Second magic word of every UF2 block.
pub const UF2_MAGIC_START1: u32 = 0x9e5d5157;

/// Final magic word of every UF2 block.
pub const UF2_MAGIC_END: u32 = 0x0ab16f30;

/// The UF2 family id of the RP2040.
pub const RP2040_FAMILY_ID: u32 = 0xe48bff56;

/// Bytes of image data carried per block.
pub const UF2_DATA_LEN: usize = 256;

/// Total size of one block on the wire.
pub const UF2_BLOCK_LEN: usize = 512;

/// How many blocks an image of `len` bytes needs.
pub open spec fn uf2_nblocks(len: int) -> int {
    (len + 255) / 256
}

/// Block `blockno`'s 256 data bytes: the image's chunk, zero-padded at
/// the tail of the last block.
pub open spec fn uf2_chunk(bytes: Seq<u8>, blockno: int) -> Seq<u8> {
    let start = 256 * blockno;
    if start + 256 <= bytes.len() {
        bytes.subrange(start, start + 256)
    } else {
        bytes.subrange(start, bytes.len() as int) + zeros(start + 256 - bytes.len())
    }
}

/// One 512-byte block: the three magic words, a flag word that marks the
/// family id as present, the chunk's flash address, the payload size, the
/// block's number and the block count, the family id, the data, and zero
/// padding up to the final magic.
pub open spec fn uf2_block(
    bytes: Seq<u8>,
    family_id: u32,
    app_start_addr: u32,
    blockno: int,
    nblocks: int,
) -> Seq<u8> {
    spec_u32_to_le_bytes(UF2_MAGIC_START0) + spec_u32_to_le_bytes(UF2_MAGIC_START1)
        + spec_u32_to_le_bytes(
        if family_id != 0 {
            0x2000u32
        } else {
            0u32
        },
    ) + spec_u32_to_le_bytes((app_start_addr + 256 * blockno) as u32) + spec_u32_to_le_bytes(
        256u32,
    ) + spec_u32_to_le_bytes(blockno as u32) + spec_u32_to_le_bytes(nblocks as u32)
        + spec_u32_to_le_bytes(family_id) + uf2_chunk(bytes, blockno) + zeros(220)
        + spec_u32_to_le_bytes(UF2_MAGIC_END)
}

/// The first `upto` blocks of an image's UF2 form, concatenated.
pub open spec fn uf2_file(
    bytes: Seq<u8>,
    family_id: u32,
    app_start_addr: u32,
    upto: int,
) -> Seq<u8>
    decreases upto,
{
    if upto <= 0 {
        Seq::empty()
    } else {
        uf2_file(bytes, family_id, app_start_addr, upto - 1) + uf2_block(
            bytes,
            family_id,
            app_start_addr,
            upto - 1,
            uf2_nblocks(bytes.len() as int),
        )
    }
}

/// Packs a binary image into UF2 blocks targeted at `app_start_addr`.
#[verifier::loop_isolation(false)]
pub fn bin_to_uf2(bytes: &[u8], family_id: u32, app_start_addr: u32) -> (r: Vec<u8>)
    requires
        app_start_addr + uf2_nblocks(bytes@.len() as int) * 256 <= u32::MAX,
        uf2_nblocks(bytes@.len() as int) <= u32::MAX,
    ensures
        r@ == uf2_file(bytes@, family_id, app_start_addr, uf2_nblocks(bytes@.len() as int)),
        r@.len() == UF2_BLOCK_LEN * uf2_nblocks(bytes@.len() as int),
{
    let n = bytes.len();
    let nblocks: u64 = (n as u64 + 255) / 256;
    assert(nblocks == uf2_nblocks(bytes@.len() as int));
    let flags: u32 = if family_id != 0 {
        0x2000
    } else {
        0
    };
    let mut out: Vec<u8> = Vec::new();
    let mut blockno: u64 = 0;
    while blockno < nblocks
        invariant
            blockno <= nblocks,
            out@ == uf2_file(bytes@, family_id, app_start_addr, blockno as int),
            out@.len() == UF2_BLOCK_LEN * blockno,
        decreases nblocks - blockno,
    {
        let ghost pre = out@;
        let mut t = u32_to_le_bytes(UF2_MAGIC_START0);
        out.append(&mut t);
        let mut t = u32_to_le_bytes(UF2_MAGIC_START1);
        out.append(&mut t);
        let mut t = u32_to_le_bytes(flags);
        out.append(&mut t);
        let ptr: u64 = 256 * blockno;
        let mut t = u32_to_le_bytes(app_start_addr + (ptr as u32));
        out.append(&mut t);
        let mut t = u32_to_le_bytes(256);
        out.append(&mut t);
        let mut t = u32_to_le_bytes(blockno as u32);
        out.append(&mut t);
        let mut t = u32_to_le_bytes(nblocks as u32);
        out.append(&mut t);
        let mut t = u32_to_le_bytes(family_id);
        out.append(&mut t);
        let start = ptr as usize;
        if start + UF2_DATA_LEN <= n {
            let mut chunk = slice_to_vec(slice_subrange(bytes, start, start + UF2_DATA_LEN));
            out.append(&mut chunk);
        } else {
            let mut chunk = slice_to_vec(slice_subrange(bytes, start, n));
            let mut pad = crate::system::zero_vec(start + UF2_DATA_LEN - n);
            chunk.append(&mut pad);
            proof {
                assert(chunk@ =~= uf2_chunk(bytes@, blockno as int));
            }
            out.append(&mut chunk);
        }
        let mut pad = crate::system::zero_vec(220);
        out.append(&mut pad);
        let mut t = u32_to_le_bytes(UF2_MAGIC_END);
        out.append(&mut t);
        blockno = blockno + 1;
        proof {
            assert(out@ =~= pre + uf2_block(
                bytes@,
                family_id,
                app_start_addr,
                blockno - 1,
                nblocks as int,
            ));
        }
    }
    out
}

} // verus!
