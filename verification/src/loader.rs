//! The guest image: 64-bit long mode, entered directly.
//!
//! The monitor loads long-mode special registers into the vCPU with
//! `KVM_SET_SREGS` (see `long_mode::set_long_mode`), so the guest starts in
//! the 64-bit world without climbing from real mode through protected mode.
//!
//! Guest physical memory layout:
//!   0x1000    PML4 (root of the four-level page table)
//!   0x2000    PDPT
//!   0x3000    PD (8 × 2 MiB huge pages, identity-mapping 16 MiB)
//!   0x5000    GDT (null + 64-bit code segment + data segment + TSS)
//!   0x6000    TSS
//!   0x100000  guest code

use vstd::prelude::*;
use crate::guest_mem::write_u64;
use vstd::string::StringSliceAdditionalSpecFns;

verus! {

pub const COM1_PORT: u16 = 0x3f8;

pub const PML4_ADDR: u64 = 0x1000;
pub const PDPT_ADDR: u64 = 0x2000;
pub const PD_ADDR: u64 = 0x3000;
pub const GDT_ADDR: u64 = 0x5000;
pub const TSS_ADDR: u64 = 0x6000;
pub const CODE_ADDR: u64 = 0x100000;

/// Amount of identity-mapped memory (8 huge pages of 2 MiB).
pub const MEM_SIZE: usize = 16 * 1024 * 1024;

pub const GUEST_MESSAGE: &'static str = "hello from nanovm (64-bit)\n";

/// Number of page-directory entries, each mapping one 2 MiB page.
pub const PD_ENTRIES: u64 = 8;

/// Number of 8-byte GDT descriptors written.
pub const GDT_ENTRIES: u64 = 5;

/// 64-bit code segment: L=1, present, execute/read.
pub const CODE_SEGMENT_DESCRIPTOR: u64 = 0x00AF9A000000FFFF;

/// Data segment: present, read/write.
pub const DATA_SEGMENT_DESCRIPTOR: u64 = 0x00CF93000000FFFF;

/// Page-table entry flags: present | writable.
pub const PTE_PRESENT_WRITABLE: u64 = 0x3;

/// Page-directory entry flags for a huge page: present | writable | page size.
pub const PDE_HUGE_FLAGS: u64 = 0x83;

/// Instruction bytes `mov dx, 0x3f8` (operand-size prefix in 64-bit mode).
pub open spec fn mov_dx_com1() -> Seq<u8> {
    seq![0x66u8, 0xBAu8, 0xF8u8, 0x03u8]
}

/// `mov al, c; out dx, al` for each byte `c` of `msg`.
pub open spec fn out_bytes_code(msg: Seq<u8>) -> Seq<u8> {
    Seq::new(
        3 * msg.len(),
        |i: int|
            if i % 3 == 0 {
                0xB0u8
            } else if i % 3 == 1 {
                msg[i / 3]
            } else {
                0xEEu8
            },
    )
}

/// The guest program that writes `msg` to COM1 and halts.
pub open spec fn guest_code_spec(msg: Seq<u8>) -> Seq<u8> {
    mov_dx_com1() + out_bytes_code(msg) + seq![0xF4u8]
}

/// Value of page-directory entry `i`: the `i`-th 2 MiB page, present, writable, huge.
pub open spec fn pd_entry(i: u64) -> u64 {
    (i << 21) | PDE_HUGE_FLAGS
}

/// Value of GDT descriptor `i`.
pub open spec fn gdt_entry(i: int) -> u64 {
    if i == 1 {
        CODE_SEGMENT_DESCRIPTOR
    } else if i == 2 {
        DATA_SEGMENT_DESCRIPTOR
    } else if i == 3 {
        TSS_ADDR | 0x89
    } else {
        0
    }
}

/// Byte `k` of the little-endian encoding of `v`.
pub open spec fn le_byte(v: u64, k: int) -> u8 {
    vstd::bytes::spec_u64_to_le_bytes(v)[k]
}

/// The guest memory that `load` leaves behind when handed `mem`: page
/// tables, GDT and `code` at their addresses, every other byte unchanged.
pub open spec fn boot_image(mem: Seq<u8>, code: Seq<u8>) -> Seq<u8> {
    Seq::new(
        mem.len(),
        |i: int|
            if PML4_ADDR <= i < PML4_ADDR + 8 {
                le_byte(PDPT_ADDR | PTE_PRESENT_WRITABLE, i - PML4_ADDR)
            } else if PDPT_ADDR <= i < PDPT_ADDR + 8 {
                le_byte(PD_ADDR | PTE_PRESENT_WRITABLE, i - PDPT_ADDR)
            } else if PD_ADDR <= i < PD_ADDR + 8 * PD_ENTRIES {
                le_byte(pd_entry(((i - PD_ADDR) / 8) as u64), (i - PD_ADDR) % 8)
            } else if GDT_ADDR <= i < GDT_ADDR + 8 * GDT_ENTRIES {
                le_byte(gdt_entry((i - GDT_ADDR) / 8), (i - GDT_ADDR) % 8)
            } else if CODE_ADDR <= i < CODE_ADDR + code.len() {
                code[i - CODE_ADDR]
            } else {
                mem[i]
            },
    )
}

/// The bytes of the message the guest prints.
pub open spec fn guest_message_bytes() -> Seq<u8> {
    GUEST_MESSAGE.spec_bytes()
}

/// Builds the guest program that prints `msg` on COM1 and halts.
pub fn guest_code(msg: &str) -> (code: Vec<u8>)
    requires
        3 * msg.spec_bytes().len() + 5 <= usize::MAX,
    ensures
        code@ == guest_code_spec(msg.spec_bytes()),
{
    let bytes = msg.as_bytes();
    let mut code: Vec<u8> = Vec::new();
    code.push(0x66);
    code.push(0xBA);
    code.push(0xF8);
    code.push(0x03);
    let mut k: usize = 0;
    while k < bytes.len()
        invariant
            0 <= k <= bytes@.len(),
            bytes@ == msg.spec_bytes(),
            code@ == mov_dx_com1() + out_bytes_code(bytes@.subrange(0, k as int)),
        decreases bytes@.len() - k,
    {
        let c = bytes[k];
        code.push(0xB0);
        code.push(c);
        code.push(0xEE);
        proof {
            let p = bytes@.subrange(0, k as int);
            let q = bytes@.subrange(0, k + 1);
            assert(out_bytes_code(q) =~= out_bytes_code(p) + seq![0xB0u8, c, 0xEEu8]);
            assert(code@ =~= mov_dx_com1() + out_bytes_code(q));
        }
        k = k + 1;
    }
    code.push(0xF4);
    assert(bytes@.subrange(0, bytes@.len() as int) =~= bytes@);
    assert(code@ =~= guest_code_spec(msg.spec_bytes()));
    code
}

} // verus!

verus! {

/// The message is 27 ASCII bytes long.
pub proof fn lemma_guest_message_len()
    ensures
        guest_message_bytes().len() == 27,
{
    reveal_strlit("hello from nanovm (64-bit)\n");
    assert(vstd::string::is_ascii(GUEST_MESSAGE));
    vstd::string::is_ascii_spec_bytes(GUEST_MESSAGE);
}

} // verus!

verus! {

/// `boot_image` while it is being written: the first `pd_n` directory
/// entries, the first `gdt_n` descriptors and the first `code_n` code bytes.
spec fn partial_image(mem: Seq<u8>, pd_n: int, gdt_n: int, code: Seq<u8>, code_n: int) -> Seq<u8> {
    Seq::new(
        mem.len(),
        |i: int|
            if PML4_ADDR <= i < PML4_ADDR + 8 {
                le_byte(PDPT_ADDR | PTE_PRESENT_WRITABLE, i - PML4_ADDR)
            } else if PDPT_ADDR <= i < PDPT_ADDR + 8 {
                le_byte(PD_ADDR | PTE_PRESENT_WRITABLE, i - PDPT_ADDR)
            } else if PD_ADDR <= i < PD_ADDR + 8 * pd_n {
                le_byte(pd_entry(((i - PD_ADDR) / 8) as u64), (i - PD_ADDR) % 8)
            } else if GDT_ADDR <= i < GDT_ADDR + 8 * gdt_n {
                le_byte(gdt_entry((i - GDT_ADDR) / 8), (i - GDT_ADDR) % 8)
            } else if CODE_ADDR <= i < CODE_ADDR + code_n {
                code[i - CODE_ADDR]
            } else {
                mem[i]
            },
    )
}

/// Writes the page tables, the GDT and the guest program `code` into guest
/// memory `mem` (indexed by guest physical address) and returns the entry RIP.
pub fn load_program(mem: &mut [u8], code: &[u8]) -> (entry: u64)
    requires
        CODE_ADDR + code@.len() <= old(mem)@.len(),
    ensures
        entry == CODE_ADDR,
        final(mem)@ == boot_image(old(mem)@, code@),
{
    proof {
        vstd::bytes::lemma_auto_spec_u64_to_from_le_bytes();
    }
    let ghost pre = mem@;
    let len = mem.len();
    // Page tables: identity map (guest virtual == guest physical).
    // PML4[0] -> PDPT
    write_u64(mem, PML4_ADDR, PDPT_ADDR | PTE_PRESENT_WRITABLE);
    // PDPT[0] -> PD
    write_u64(mem, PDPT_ADDR, PD_ADDR | PTE_PRESENT_WRITABLE);
    assert(mem@ =~= partial_image(pre, 0, 0, seq![], 0));
    // PD[i] -> the i-th 2 MiB page
    let mut i: u64 = 0;
    while i < PD_ENTRIES
        invariant
            0 <= i <= PD_ENTRIES,
            len == pre.len(),
            CODE_ADDR <= len,
            mem@ == partial_image(pre, i as int, 0, seq![], 0),
        decreases PD_ENTRIES - i,
    {
        proof {
            vstd::bytes::lemma_auto_spec_u64_to_from_le_bytes();
        }
        write_u64(mem, PD_ADDR + i * 8, (i << 21) | PDE_HUGE_FLAGS);
        assert forall|j: int| 0 <= j < mem@.len() implies mem@[j] == partial_image(pre, i + 1, 0, seq![], 0)[j] by {
            if PD_ADDR + 8 * i <= j < PD_ADDR + 8 * i + 8 {
                assert((j - PD_ADDR) / 8 == i);
                assert((j - PD_ADDR) % 8 == j - (PD_ADDR + 8 * i));
            }
        }
        assert(mem@ =~= partial_image(pre, i + 1, 0, seq![], 0));
        i = i + 1;
    }
    // GDT: null / code (L=1) / data / TSS
    write_u64(mem, GDT_ADDR + 0x00, 0);
    write_u64(mem, GDT_ADDR + 0x08, CODE_SEGMENT_DESCRIPTOR);
    write_u64(mem, GDT_ADDR + 0x10, DATA_SEGMENT_DESCRIPTOR);
    write_u64(mem, GDT_ADDR + 0x18, TSS_ADDR | 0x89);
    write_u64(mem, GDT_ADDR + 0x20, 0);
    assert(mem@ =~= partial_image(pre, 8, 5, seq![], 0));
    // The guest program.
    let start = CODE_ADDR as usize;
    let mut k: usize = 0;
    while k < code.len()
        invariant
            0 <= k <= code@.len(),
            start == CODE_ADDR,
            len == pre.len(),
            CODE_ADDR + code@.len() <= len,
            mem@ == partial_image(pre, 8, 5, code@, k as int),
        decreases code@.len() - k,
    {
        mem[start + k] = code[k];
        assert(mem@ =~= partial_image(pre, 8, 5, code@, k + 1));
        k = k + 1;
    }
    assert(mem@ =~= boot_image(pre, code@));
    CODE_ADDR
}

/// Loads the guest that prints `GUEST_MESSAGE` on COM1 and halts: page
/// tables, GDT and code. Returns the entry RIP. The image ends at
/// `CODE_ADDR + 86` (see `lemma_guest_message_len`).
pub fn load(mem: &mut [u8]) -> (entry: u64)
    requires
        CODE_ADDR + guest_code_spec(guest_message_bytes()).len() <= old(mem)@.len(),
    ensures
        entry == CODE_ADDR,
        final(mem)@ == boot_image(old(mem)@, guest_code_spec(guest_message_bytes())),
{
    proof {
        lemma_guest_message_len();
    }
    // mov dx, 0x3f8; (mov al, c; out dx, al)*; hlt
    let code = guest_code(GUEST_MESSAGE);
    load_program(mem, code.as_slice())
}

} // verus!

verus! {

/// `v` encoded at `addr` in `mem` reads back as `v`.
proof fn lemma_read_back(mem: Seq<u8>, addr: int, v: u64)
    requires
        0 <= addr,
        addr + 8 <= mem.len(),
        forall|k: int| 0 <= k < 8 ==> #[trigger] mem[addr + k] == le_byte(v, k),
    ensures
        crate::guest_mem::u64_at(mem, addr) == v,
{
    vstd::bytes::lemma_auto_spec_u64_to_from_le_bytes();
    let s = mem.subrange(addr, addr + 8);
    assert forall|k: int| 0 <= k < 8 implies s[k] == vstd::bytes::spec_u64_to_le_bytes(v)[k] by {
        assert(s[k] == mem[addr + k]);
    }
    assert(s =~= vstd::bytes::spec_u64_to_le_bytes(v));
}

/// Every entry that `load` stores reads back as the value it stored, and the
/// guest code stands at `CODE_ADDR`.
pub proof fn lemma_boot_image_entries(mem: Seq<u8>, code: Seq<u8>)
    requires
        CODE_ADDR + code.len() <= mem.len(),
    ensures
        ({
            let img = boot_image(mem, code);
            &&& img.len() == mem.len()
            &&& crate::guest_mem::u64_at(img, PML4_ADDR as int) == PDPT_ADDR | PTE_PRESENT_WRITABLE
            &&& crate::guest_mem::u64_at(img, PDPT_ADDR as int) == PD_ADDR | PTE_PRESENT_WRITABLE
            &&& forall|i: u64| #![trigger pd_entry(i)]
                i < PD_ENTRIES ==> crate::guest_mem::u64_at(img, PD_ADDR + 8 * i) == pd_entry(i)
            &&& forall|i: int| #![trigger gdt_entry(i)]
                0 <= i < GDT_ENTRIES ==> crate::guest_mem::u64_at(img, GDT_ADDR + 8 * i) == gdt_entry(i)
            &&& img.subrange(CODE_ADDR as int, CODE_ADDR + code.len()) == code
        }),
{
    let img = boot_image(mem, code);
    lemma_read_back(img, PML4_ADDR as int, PDPT_ADDR | PTE_PRESENT_WRITABLE);
    lemma_read_back(img, PDPT_ADDR as int, PD_ADDR | PTE_PRESENT_WRITABLE);
    assert forall|i: u64| #![trigger pd_entry(i)]
        i < PD_ENTRIES implies crate::guest_mem::u64_at(img, PD_ADDR + 8 * i) == pd_entry(i) by {
        assert forall|k: int| 0 <= k < 8 implies #[trigger] img[PD_ADDR + 8 * i + k] == le_byte(pd_entry(i), k) by {
            assert((PD_ADDR + 8 * i + k - PD_ADDR) / 8 == i);
            assert((PD_ADDR + 8 * i + k - PD_ADDR) % 8 == k);
        }
        lemma_read_back(img, PD_ADDR + 8 * i, pd_entry(i));
    }
    assert forall|i: int| #![trigger gdt_entry(i)]
        0 <= i < GDT_ENTRIES implies crate::guest_mem::u64_at(img, GDT_ADDR + 8 * i) == gdt_entry(i) by {
        assert forall|k: int| 0 <= k < 8 implies #[trigger] img[GDT_ADDR + 8 * i + k] == le_byte(gdt_entry(i), k) by {
            assert((GDT_ADDR + 8 * i + k - GDT_ADDR) / 8 == i);
            assert((GDT_ADDR + 8 * i + k - GDT_ADDR) % 8 == k);
        }
        lemma_read_back(img, GDT_ADDR + 8 * i, gdt_entry(i));
    }
    assert(img.subrange(CODE_ADDR as int, CODE_ADDR + code.len()) =~= code);
}

} // verus!

verus! {

/// Present bit of a segment descriptor.
pub open spec fn seg_present(d: u64) -> bool {
    (d >> 47) & 1 == 1
}

/// Descriptor type bit S: a code or data segment (not a system segment).
pub open spec fn seg_code_or_data(d: u64) -> bool {
    (d >> 44) & 1 == 1
}

/// Executable bit of a code/data segment descriptor.
pub open spec fn seg_executable(d: u64) -> bool {
    (d >> 43) & 1 == 1
}

/// Readable (code) or writable (data) bit.
pub open spec fn seg_read_write(d: u64) -> bool {
    (d >> 41) & 1 == 1
}

/// Descriptor privilege level.
pub open spec fn seg_dpl(d: u64) -> u64 {
    (d >> 45) & 3
}

/// L bit: a 64-bit code segment.
pub open spec fn seg_long(d: u64) -> bool {
    (d >> 53) & 1 == 1
}

/// D/B bit; must be clear in a 64-bit code segment.
pub open spec fn seg_default_big(d: u64) -> bool {
    (d >> 54) & 1 == 1
}

/// The GDT of the boot image holds, at selector 0x08, a present ring-0
/// readable 64-bit code segment (L=1, D=0) and, at selector 0x10, a present
/// ring-0 writable data segment.
pub proof fn lemma_boot_gdt_segments(mem: Seq<u8>, code: Seq<u8>)
    requires
        CODE_ADDR + code.len() <= mem.len(),
    ensures
        ({
            let img = boot_image(mem, code);
            let cs = crate::guest_mem::u64_at(img, GDT_ADDR + 0x08);
            let ds = crate::guest_mem::u64_at(img, GDT_ADDR + 0x10);
            &&& seg_present(cs) && seg_code_or_data(cs) && seg_executable(cs)
            &&& seg_read_write(cs) && seg_dpl(cs) == 0
            &&& seg_long(cs) && !seg_default_big(cs)
            &&& seg_present(ds) && seg_code_or_data(ds) && !seg_executable(ds)
            &&& seg_read_write(ds) && seg_dpl(ds) == 0
        }),
{
    lemma_boot_image_entries(mem, code);
    assert(gdt_entry(1) == CODE_SEGMENT_DESCRIPTOR);
    assert(gdt_entry(2) == DATA_SEGMENT_DESCRIPTOR);
    let c = CODE_SEGMENT_DESCRIPTOR;
    let d = DATA_SEGMENT_DESCRIPTOR;
    assert((c >> 47) & 1 == 1 && (c >> 44) & 1 == 1 && (c >> 43) & 1 == 1 && (c >> 41) & 1 == 1
        && (c >> 45) & 3 == 0 && (c >> 53) & 1 == 1 && (c >> 54) & 1 == 0) by (bit_vector)
        requires
            c == 0x00AF9A000000FFFFu64,
    ;
    assert((d >> 47) & 1 == 1 && (d >> 44) & 1 == 1 && (d >> 43) & 1 == 0 && (d >> 41) & 1 == 1
        && (d >> 45) & 3 == 0) by (bit_vector)
        requires
            d == 0x00CF93000000FFFFu64,
    ;
}

} // verus!

verus! {

/// The boot image, with the addresses and values of the x86-64 boot layout
/// written out: PML4[0] at 0x1000 points to the PDPT at 0x2000 and PDPT[0]
/// to the PD at 0x3000 (present | writable); PD[i] at 0x3000 + 8i maps the
/// 2 MiB page at i × 2 MiB (present | writable | huge); the GDT at 0x5000
/// holds null, the 64-bit code descriptor, the data descriptor, the TSS
/// entry and null; `code` stands at 0x100000; all other bytes are kept.
pub proof fn lemma_boot_image_values(mem: Seq<u8>, code: Seq<u8>)
    requires
        0x100000 + code.len() <= mem.len(),
    ensures
        ({
            let img = boot_image(mem, code);
            &&& img.len() == mem.len()
            &&& crate::guest_mem::u64_at(img, 0x1000) == 0x2003u64
            &&& crate::guest_mem::u64_at(img, 0x2000) == 0x3003u64
            &&& forall|i: int| #![trigger crate::guest_mem::u64_at(img, 0x3000 + 8 * i)]
                0 <= i < 8 ==> crate::guest_mem::u64_at(img, 0x3000 + 8 * i) == i * 0x20_0000 + 0x83
            &&& crate::guest_mem::u64_at(img, 0x5000) == 0u64
            &&& crate::guest_mem::u64_at(img, 0x5008) == 0x00AF_9A00_0000_FFFFu64
            &&& crate::guest_mem::u64_at(img, 0x5010) == 0x00CF_9300_0000_FFFFu64
            &&& crate::guest_mem::u64_at(img, 0x5018) == 0x6089u64
            &&& crate::guest_mem::u64_at(img, 0x5020) == 0u64
            &&& img.subrange(0x100000, 0x100000 + code.len() as int) == code
            &&& forall|j: int|
                0 <= j < mem.len() && !(0x1000 <= j < 0x1008 || 0x2000 <= j < 0x2008 || 0x3000 <= j < 0x3040
                    || 0x5000 <= j < 0x5028 || 0x100000 <= j < 0x100000 + code.len()) ==> #[trigger] img[j]
                    == mem[j]
        }),
{
    lemma_boot_image_entries(mem, code);
    let img = boot_image(mem, code);
    assert(PDPT_ADDR | PTE_PRESENT_WRITABLE == 0x2003u64) by (bit_vector);
    assert(PD_ADDR | PTE_PRESENT_WRITABLE == 0x3003u64) by (bit_vector);
    assert(TSS_ADDR | 0x89 == 0x6089u64) by (bit_vector);
    assert forall|i: int| #![trigger crate::guest_mem::u64_at(img, 0x3000 + 8 * i)]
        0 <= i < 8 implies crate::guest_mem::u64_at(img, 0x3000 + 8 * i) == i * 0x20_0000 + 0x83 by {
        let k = i as u64;
        assert(pd_entry(k) == crate::guest_mem::u64_at(img, PD_ADDR + 8 * k));
        assert((k << 21) | 0x83 == k * 0x20_0000 + 0x83) by (bit_vector)
            requires
                k < 8,
        ;
    }
    assert(gdt_entry(0) == 0 && gdt_entry(4) == 0);
    assert(crate::guest_mem::u64_at(img, GDT_ADDR + 8 * 0) == gdt_entry(0));
    assert(crate::guest_mem::u64_at(img, GDT_ADDR + 8 * 1) == gdt_entry(1));
    assert(crate::guest_mem::u64_at(img, GDT_ADDR + 8 * 2) == gdt_entry(2));
    assert(crate::guest_mem::u64_at(img, GDT_ADDR + 8 * 3) == gdt_entry(3));
    assert(crate::guest_mem::u64_at(img, GDT_ADDR + 8 * 4) == gdt_entry(4));
}

} // verus!
