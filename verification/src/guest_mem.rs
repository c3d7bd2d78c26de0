//! Little-endian access to guest physical memory held as a byte slice.

use vstd::prelude::*;

verus! {

/// `mem` with the bytes at `addr .. addr + bytes.len()` replaced by `bytes`.
pub open spec fn update_bytes(mem: Seq<u8>, addr: int, bytes: Seq<u8>) -> Seq<u8> {
    Seq::new(
        mem.len(),
        |i: int|
            if addr <= i < addr + bytes.len() {
                bytes[i - addr]
            } else {
                mem[i]
            },
    )
}

/// The little-endian `u64` stored at `addr`.
pub open spec fn u64_at(mem: Seq<u8>, addr: int) -> u64 {
    vstd::bytes::spec_u64_from_le_bytes(mem.subrange(addr, addr + 8))
}

/// The little-endian `u32` stored at `addr`.
pub open spec fn u32_at(mem: Seq<u8>, addr: int) -> u32 {
    vstd::bytes::spec_u32_from_le_bytes(mem.subrange(addr, addr + 4))
}

/// The little-endian `u16` stored at `addr`.
pub open spec fn u16_at(mem: Seq<u8>, addr: int) -> u16 {
    vstd::bytes::spec_u16_from_le_bytes(mem.subrange(addr, addr + 2))
}

/// Reads the little-endian `u16` at byte offset `off`.
pub fn read_u16(bytes: &[u8], off: usize) -> (r: u16)
    requires
        off + 2 <= bytes@.len(),
    ensures
        r == u16_at(bytes@, off as int),
{
    let len = bytes.len();
    assert(off + 2 <= len);
    let s = &bytes[off..off + 2];
    vstd::bytes::u16_from_le_bytes(s)
}

/// Reads the little-endian `u32` at byte offset `off`.
pub fn read_u32(bytes: &[u8], off: usize) -> (r: u32)
    requires
        off + 4 <= bytes@.len(),
    ensures
        r == u32_at(bytes@, off as int),
{
    let len = bytes.len();
    assert(off + 4 <= len);
    let s = &bytes[off..off + 4];
    vstd::bytes::u32_from_le_bytes(s)
}

/// Reads the little-endian `u64` at byte offset `off`.
pub fn read_u64(bytes: &[u8], off: usize) -> (r: u64)
    requires
        off + 8 <= bytes@.len(),
    ensures
        r == u64_at(bytes@, off as int),
{
    let len = bytes.len();
    assert(off + 8 <= len);
    let s = &bytes[off..off + 8];
    vstd::bytes::u64_from_le_bytes(s)
}

/// Copies `bytes` into `mem` at byte offset `off`.
pub fn write_bytes(mem: &mut [u8], off: usize, bytes: &[u8])
    requires
        off + bytes@.len() <= old(mem)@.len(),
    ensures
        final(mem)@ == update_bytes(old(mem)@, off as int, bytes@),
{
    let len = mem.len();
    let n = bytes.len();
    let ghost pre = mem@;
    let mut k: usize = 0;
    while k < n
        invariant
            0 <= k <= n,
            n == bytes@.len(),
            off + n <= len,
            len == pre.len(),
            mem@.len() == pre.len(),
            forall|i: int|
                0 <= i < mem@.len() ==> #[trigger] mem@[i] == (if off <= i < off + k {
                    bytes@[i - off]
                } else {
                    pre[i]
                }),
        decreases n - k,
    {
        mem[off + k] = bytes[k];
        k = k + 1;
    }
    assert(mem@ =~= update_bytes(pre, off as int, bytes@));
}

/// Stores `val` as 8 little-endian bytes at guest physical address `guest_phys`.
pub fn write_u64(mem: &mut [u8], guest_phys: u64, val: u64)
    requires
        guest_phys + 8 <= old(mem)@.len(),
    ensures
        final(mem)@ == update_bytes(old(mem)@, guest_phys as int, vstd::bytes::spec_u64_to_le_bytes(val)),
{
    proof {
        vstd::bytes::lemma_auto_spec_u64_to_from_le_bytes();
    }
    let len = mem.len();
    assert(guest_phys + 8 <= len);
    let bytes = vstd::bytes::u64_to_le_bytes(val);
    write_bytes(mem, guest_phys as usize, bytes.as_slice());
}

} // verus!

verus! {

/// A `u64` written at `addr` reads back from `addr`, and every byte outside
/// `addr .. addr + 8` keeps its value.
pub proof fn lemma_write_then_read_u64(mem: Seq<u8>, addr: int, val: u64)
    requires
        0 <= addr,
        addr + 8 <= mem.len(),
    ensures
        ({
            let post = update_bytes(mem, addr, vstd::bytes::spec_u64_to_le_bytes(val));
            &&& post.len() == mem.len()
            &&& u64_at(post, addr) == val
            &&& forall|i: int| 0 <= i < mem.len() && !(addr <= i < addr + 8) ==> post[i] == mem[i]
        }),
{
    vstd::bytes::lemma_auto_spec_u64_to_from_le_bytes();
    let post = update_bytes(mem, addr, vstd::bytes::spec_u64_to_le_bytes(val));
    assert(post.subrange(addr, addr + 8) =~= vstd::bytes::spec_u64_to_le_bytes(val));
}

} // verus!
