//! x86-64 four-level address translation over guest memory, and the
//! identity map that the boot image sets up.

use vstd::prelude::*;
use crate::guest_mem::u64_at;
use crate::loader::{boot_image, pd_entry, CODE_ADDR, MEM_SIZE, PD_ADDR, PDPT_ADDR, PML4_ADDR};

verus! {

/// Physical-address bits of a table entry that points at a 4 KiB-aligned frame.
pub open spec fn entry_frame(e: u64) -> u64 {
    e & 0x000F_FFFF_FFFF_F000
}

/// The present bit (bit 0).
pub open spec fn entry_present(e: u64) -> bool {
    e & 1 == 1
}

/// The page-size bit (bit 7): the entry maps a large page.
pub open spec fn entry_huge(e: u64) -> bool {
    e & 0x80 == 0x80
}

/// The 9-bit table index of `va` at the level whose pages start at bit `shift`.
pub open spec fn table_index(va: u64, shift: u64) -> u64 {
    (va >> shift) & 0x1ff
}

/// The guest physical address that `va` maps to through the four-level page
/// table rooted at `root`, or `None` where a walk meets a non-present entry.
pub open spec fn translate(mem: Seq<u8>, root: u64, va: u64) -> Option<u64> {
    let pml4e = u64_at(mem, root + 8 * table_index(va, 39));
    if !entry_present(pml4e) {
        None
    } else {
        let pdpte = u64_at(mem, entry_frame(pml4e) + 8 * table_index(va, 30));
        if !entry_present(pdpte) {
            None
        } else if entry_huge(pdpte) {
            Some((pdpte & 0x000F_FFFF_C000_0000) | (va & 0x3FFF_FFFF))
        } else {
            let pde = u64_at(mem, entry_frame(pdpte) + 8 * table_index(va, 21));
            if !entry_present(pde) {
                None
            } else if entry_huge(pde) {
                Some((pde & 0x000F_FFFF_FFE0_0000) | (va & 0x1F_FFFF))
            } else {
                let pte = u64_at(mem, entry_frame(pde) + 8 * table_index(va, 12));
                if !entry_present(pte) {
                    None
                } else {
                    Some(entry_frame(pte) | (va & 0xFFF))
                }
            }
        }
    }
}

proof fn lemma_low_address_bits(va: u64)
    requires
        va < 0x100_0000,
    ensures
        table_index(va, 39) == 0,
        table_index(va, 30) == 0,
        table_index(va, 21) == va >> 21,
        va >> 21 < 8,
        ((((va >> 21) << 21) | 0x83) & 0x000F_FFFF_FFE0_0000) | (va & 0x1F_FFFF) == va,
        entry_present(((va >> 21) << 21) | 0x83),
        entry_huge(((va >> 21) << 21) | 0x83),
{
    assert((va >> 39) & 0x1ff == 0) by (bit_vector)
        requires
            va < 0x100_0000,
    ;
    assert((va >> 30) & 0x1ff == 0) by (bit_vector)
        requires
            va < 0x100_0000,
    ;
    assert((va >> 21) & 0x1ff == va >> 21) by (bit_vector)
        requires
            va < 0x100_0000,
    ;
    assert(va >> 21 < 8) by (bit_vector)
        requires
            va < 0x100_0000,
    ;
    assert(((((va >> 21) << 21) | 0x83) & 0x000F_FFFF_FFE0_0000) | (va & 0x1F_FFFF) == va)
        by (bit_vector)
        requires
            va < 0x100_0000,
    ;
    assert((((va >> 21) << 21) | 0x83) & 1 == 1) by (bit_vector);
    assert((((va >> 21) << 21) | 0x83) & 0x80 == 0x80) by (bit_vector);
}

/// The boot image identity-maps the first 16 MiB: through the page table
/// rooted at `PML4_ADDR`, every guest virtual address below `MEM_SIZE`
/// translates to the same guest physical address.
pub proof fn lemma_boot_image_identity_map(mem: Seq<u8>, code: Seq<u8>, va: u64)
    requires
        CODE_ADDR + code.len() <= mem.len(),
        va < MEM_SIZE,
    ensures
        translate(boot_image(mem, code), PML4_ADDR, va) == Some(va),
{
    let img = boot_image(mem, code);
    crate::loader::lemma_boot_image_entries(mem, code);
    lemma_low_address_bits(va);
    let idx = va >> 21;
    assert(u64_at(img, PD_ADDR + 8 * idx) == pd_entry(idx));
    assert(entry_present(PDPT_ADDR | 3) && !entry_huge(PDPT_ADDR | 3) && entry_frame(PDPT_ADDR | 3) == PDPT_ADDR) by (bit_vector);
    assert(entry_present(PD_ADDR | 3) && !entry_huge(PD_ADDR | 3) && entry_frame(PD_ADDR | 3) == PD_ADDR) by (bit_vector);
}

} // verus!
