//! The vCPU state that enters the boot image directly in 64-bit long mode:
//! the special registers (`struct kvm_sregs`) that `KVM_SET_SREGS` loads.
//! The monitor reads the vCPU's current special registers, patches them with
//! `set_long_mode` and writes them back; the general registers come from
//! `Regs::at_entry`.

use vstd::prelude::*;
use crate::guest_mem::{read_u64, u16_at, u32_at, u64_at, update_bytes, write_bytes, write_u64};
use crate::kvm::SREGS_SIZE;
use crate::loader::{GDT_ADDR, GDT_ENTRIES, PML4_ADDR, TSS_ADDR};

verus! {

// Offsets in `struct kvm_sregs`.
pub const CS_OFF: usize = 0;
pub const DS_OFF: usize = 24;
pub const ES_OFF: usize = 48;
pub const FS_OFF: usize = 72;
pub const GS_OFF: usize = 96;
pub const SS_OFF: usize = 120;
pub const TR_OFF: usize = 144;
pub const GDT_OFF: usize = 192;
pub const CR0_OFF: usize = 224;
pub const CR3_OFF: usize = 240;
pub const CR4_OFF: usize = 248;
pub const EFER_OFF: usize = 264;

/// Size in bytes of `struct kvm_segment`.
pub const SEGMENT_SIZE: usize = 24;

/// CR0.PE: protected mode.
pub const CR0_PE: u64 = 0x1;
/// CR0.PG: paging.
pub const CR0_PG: u64 = 0x8000_0000;
/// CR4.PAE: physical-address extension, required by long mode.
pub const CR4_PAE: u64 = 0x20;
/// EFER.LME: long mode enable.
pub const EFER_LME: u64 = 0x100;
/// EFER.LMA: long mode active.
pub const EFER_LMA: u64 = 0x400;

/// GDT selectors of the boot image's descriptors.
pub const CODE_SELECTOR: u16 = 0x08;
pub const DATA_SELECTOR: u16 = 0x10;
pub const TSS_SELECTOR: u16 = 0x18;

/// `struct kvm_segment`: the cached part of a segment register.
#[derive(Debug)]
pub struct Segment {
    pub base: u64,
    pub limit: u32,
    pub selector: u16,
    pub type_: u8,
    pub present: u8,
    pub dpl: u8,
    pub db: u8,
    pub s: u8,
    pub l: u8,
    pub g: u8,
    pub avl: u8,
    pub unusable: u8,
}

/// CS: the 64-bit code segment of GDT selector 0x08 (type: execute/read,
/// accessed).
pub open spec fn code_segment_value() -> Segment {
    Segment {
        base: 0,
        limit: 0xFFFFF,
        selector: CODE_SELECTOR,
        type_: 0xB,
        present: 1,
        dpl: 0,
        db: 0,
        s: 1,
        l: 1,
        g: 1,
        avl: 0,
        unusable: 0,
    }
}

/// DS, ES, FS, GS, SS: the flat data segment of GDT selector 0x10 (type:
/// read/write, accessed).
pub open spec fn data_segment_value() -> Segment {
    Segment {
        base: 0,
        limit: 0xFFFFF,
        selector: DATA_SELECTOR,
        type_: 0x3,
        present: 1,
        dpl: 0,
        db: 1,
        s: 1,
        l: 0,
        g: 1,
        avl: 0,
        unusable: 0,
    }
}

/// TR: the busy 64-bit TSS at `TSS_ADDR`, GDT selector 0x18.
pub open spec fn tss_segment_value() -> Segment {
    Segment {
        base: TSS_ADDR,
        limit: 0x67,
        selector: TSS_SELECTOR,
        type_: 0xB,
        present: 1,
        dpl: 0,
        db: 0,
        s: 0,
        l: 0,
        g: 0,
        avl: 0,
        unusable: 0,
    }
}

impl Segment {
    /// The 24-byte layout of `struct kvm_segment`.
    pub open spec fn layout(&self) -> Seq<u8> {
        vstd::bytes::spec_u64_to_le_bytes(self.base) + vstd::bytes::spec_u32_to_le_bytes(self.limit)
            + vstd::bytes::spec_u16_to_le_bytes(self.selector) + seq![
            self.type_,
            self.present,
            self.dpl,
            self.db,
            self.s,
            self.l,
            self.g,
            self.avl,
            self.unusable,
            0u8,
        ]
    }

    /// Encodes the segment as the kernel reads it.
    pub fn to_bytes(&self) -> (b: Vec<u8>)
        ensures
            b@ == self.layout(),
            b@.len() == SEGMENT_SIZE,
            u64_at(b@, 0) == self.base,
            u32_at(b@, 8) == self.limit,
            u16_at(b@, 12) == self.selector,
            b@[14] == self.type_,
            b@[15] == self.present,
            b@[16] == self.dpl,
            b@[17] == self.db,
            b@[18] == self.s,
            b@[19] == self.l,
            b@[20] == self.g,
            b@[21] == self.avl,
            b@[22] == self.unusable,
            b@[23] == 0u8,
            b@.len() == 24,
    {
        proof {
            vstd::bytes::lemma_auto_spec_u16_to_from_le_bytes();
            vstd::bytes::lemma_auto_spec_u32_to_from_le_bytes();
            vstd::bytes::lemma_auto_spec_u64_to_from_le_bytes();
        }
        let mut b = vstd::bytes::u64_to_le_bytes(self.base);
        let mut limit = vstd::bytes::u32_to_le_bytes(self.limit);
        b.append(&mut limit);
        let mut selector = vstd::bytes::u16_to_le_bytes(self.selector);
        b.append(&mut selector);
        b.push(self.type_);
        b.push(self.present);
        b.push(self.dpl);
        b.push(self.db);
        b.push(self.s);
        b.push(self.l);
        b.push(self.g);
        b.push(self.avl);
        b.push(self.unusable);
        b.push(0);
        assert(b@ =~= self.layout());
        proof {
            lemma_segment_layout_fields(*self);
        }
        b
    }

    /// The code segment register of the boot image.
    pub fn code() -> (s: Segment)
        ensures
            s == code_segment_value(),
    {
        Segment {
            base: 0,
            limit: 0xFFFFF,
            selector: CODE_SELECTOR,
            type_: 0xB,
            present: 1,
            dpl: 0,
            db: 0,
            s: 1,
            l: 1,
            g: 1,
            avl: 0,
            unusable: 0,
        }
    }

    /// The data segment registers of the boot image.
    pub fn data() -> (s: Segment)
        ensures
            s == data_segment_value(),
    {
        Segment {
            base: 0,
            limit: 0xFFFFF,
            selector: DATA_SELECTOR,
            type_: 0x3,
            present: 1,
            dpl: 0,
            db: 1,
            s: 1,
            l: 0,
            g: 1,
            avl: 0,
            unusable: 0,
        }
    }

    /// The task register of the boot image.
    pub fn tss() -> (s: Segment)
        ensures
            s == tss_segment_value(),
    {
        Segment {
            base: TSS_ADDR,
            limit: 0x67,
            selector: TSS_SELECTOR,
            type_: 0xB,
            present: 1,
            dpl: 0,
            db: 0,
            s: 0,
            l: 0,
            g: 0,
            avl: 0,
            unusable: 0,
        }
    }
}

/// The encoding of a segment puts each field at its `struct kvm_segment`
/// offset: base at 0, limit at 8, selector at 12, then one byte each for
/// type, present, dpl, db, s, l, g, avl and unusable (14..22), and a zero
/// padding byte at 23.
pub proof fn lemma_segment_layout_fields(seg: Segment)
    ensures
        u64_at(seg.layout(), 0) == seg.base,
        u32_at(seg.layout(), 8) == seg.limit,
        u16_at(seg.layout(), 12) == seg.selector,
        seg.layout()[14] == seg.type_,
        seg.layout()[15] == seg.present,
        seg.layout()[16] == seg.dpl,
        seg.layout()[17] == seg.db,
        seg.layout()[18] == seg.s,
        seg.layout()[19] == seg.l,
        seg.layout()[20] == seg.g,
        seg.layout()[21] == seg.avl,
        seg.layout()[22] == seg.unusable,
        seg.layout()[23] == 0u8,
        seg.layout().len() == 24,
{
    vstd::bytes::lemma_auto_spec_u16_to_from_le_bytes();
    vstd::bytes::lemma_auto_spec_u32_to_from_le_bytes();
    vstd::bytes::lemma_auto_spec_u64_to_from_le_bytes();
    let l = seg.layout();
    assert(l.subrange(0, 8) =~= vstd::bytes::spec_u64_to_le_bytes(seg.base));
    assert(l.subrange(8, 12) =~= vstd::bytes::spec_u32_to_le_bytes(seg.limit));
    assert(l.subrange(12, 14) =~= vstd::bytes::spec_u16_to_le_bytes(seg.selector));
}

/// Limit of the boot image's GDT: its last byte.
pub open spec fn gdt_limit() -> u16 {
    (8 * GDT_ENTRIES - 1) as u16
}

/// The special registers `s` (a `struct kvm_sregs`) switched to the boot
/// image's long mode: the segment registers, TR and GDTR loaded from the
/// boot GDT, CR0.PE and CR0.PG set, CR3 at the boot PML4, CR4.PAE set, and
/// EFER.LME and EFER.LMA set. Every other byte is kept.
pub open spec fn long_mode_sregs(s: Seq<u8>) -> Seq<u8> {
    let cr0 = u64_at(s, CR0_OFF as int) | CR0_PE | CR0_PG;
    let cr4 = u64_at(s, CR4_OFF as int) | CR4_PAE;
    let efer = u64_at(s, EFER_OFF as int) | EFER_LME | EFER_LMA;
    let data = data_segment_value().layout();
    let s1 = update_bytes(s, CS_OFF as int, code_segment_value().layout());
    let s2 = update_bytes(s1, DS_OFF as int, data);
    let s3 = update_bytes(s2, ES_OFF as int, data);
    let s4 = update_bytes(s3, FS_OFF as int, data);
    let s5 = update_bytes(s4, GS_OFF as int, data);
    let s6 = update_bytes(s5, SS_OFF as int, data);
    let s7 = update_bytes(s6, TR_OFF as int, tss_segment_value().layout());
    let s8 = update_bytes(s7, GDT_OFF as int, vstd::bytes::spec_u64_to_le_bytes(GDT_ADDR));
    let s9 = update_bytes(s8, GDT_OFF + 8, vstd::bytes::spec_u16_to_le_bytes(gdt_limit()));
    let s10 = update_bytes(s9, CR0_OFF as int, vstd::bytes::spec_u64_to_le_bytes(cr0));
    let s11 = update_bytes(s10, CR3_OFF as int, vstd::bytes::spec_u64_to_le_bytes(PML4_ADDR));
    let s12 = update_bytes(s11, CR4_OFF as int, vstd::bytes::spec_u64_to_le_bytes(cr4));
    update_bytes(s12, EFER_OFF as int, vstd::bytes::spec_u64_to_le_bytes(efer))
}

/// Switches the special registers `sregs` (a `struct kvm_sregs`, as
/// `KVM_GET_SREGS` returns it) to 64-bit long mode on the boot image.
pub fn set_long_mode(sregs: &mut [u8])
    requires
        SREGS_SIZE <= old(sregs)@.len(),
    ensures
        final(sregs)@ == long_mode_sregs(old(sregs)@),
        ({
            let img = final(sregs)@;
            &&& u64_at(img, 0) == 0u64
            &&& u32_at(img, 8) == 0xFFFFFu32
            &&& u16_at(img, 12) == 0x08u16
            &&& img[14] == 0x0Bu8
            &&& img[15] == 1u8
            &&& img[16] == 0u8
            &&& img[17] == 0u8
            &&& img[18] == 1u8
            &&& img[19] == 1u8
            &&& img[20] == 1u8
            &&& img[21] == 0u8
            &&& img[22] == 0u8
            &&& u64_at(img, 24) == 0u64
            &&& u32_at(img, 32) == 0xFFFFFu32
            &&& u16_at(img, 36) == 0x10u16
            &&& img[38] == 0x03u8
            &&& img[39] == 1u8
            &&& img[40] == 0u8
            &&& img[41] == 1u8
            &&& img[42] == 1u8
            &&& img[43] == 0u8
            &&& img[44] == 1u8
            &&& img[45] == 0u8
            &&& img[46] == 0u8
            &&& u64_at(img, 48) == 0u64
            &&& u32_at(img, 56) == 0xFFFFFu32
            &&& u16_at(img, 60) == 0x10u16
            &&& img[62] == 0x03u8
            &&& img[63] == 1u8
            &&& img[64] == 0u8
            &&& img[65] == 1u8
            &&& img[66] == 1u8
            &&& img[67] == 0u8
            &&& img[68] == 1u8
            &&& img[69] == 0u8
            &&& img[70] == 0u8
            &&& u64_at(img, 72) == 0u64
            &&& u32_at(img, 80) == 0xFFFFFu32
            &&& u16_at(img, 84) == 0x10u16
            &&& img[86] == 0x03u8
            &&& img[87] == 1u8
            &&& img[88] == 0u8
            &&& img[89] == 1u8
            &&& img[90] == 1u8
            &&& img[91] == 0u8
            &&& img[92] == 1u8
            &&& img[93] == 0u8
            &&& img[94] == 0u8
            &&& u64_at(img, 96) == 0u64
            &&& u32_at(img, 104) == 0xFFFFFu32
            &&& u16_at(img, 108) == 0x10u16
            &&& img[110] == 0x03u8
            &&& img[111] == 1u8
            &&& img[112] == 0u8
            &&& img[113] == 1u8
            &&& img[114] == 1u8
            &&& img[115] == 0u8
            &&& img[116] == 1u8
            &&& img[117] == 0u8
            &&& img[118] == 0u8
            &&& u64_at(img, 120) == 0u64
            &&& u32_at(img, 128) == 0xFFFFFu32
            &&& u16_at(img, 132) == 0x10u16
            &&& img[134] == 0x03u8
            &&& img[135] == 1u8
            &&& img[136] == 0u8
            &&& img[137] == 1u8
            &&& img[138] == 1u8
            &&& img[139] == 0u8
            &&& img[140] == 1u8
            &&& img[141] == 0u8
            &&& img[142] == 0u8
            &&& u64_at(img, 144) == 0x6000u64
            &&& u32_at(img, 152) == 0x67u32
            &&& u16_at(img, 156) == 0x18u16
            &&& img[158] == 0x0Bu8
            &&& img[159] == 1u8
            &&& img[160] == 0u8
            &&& img[161] == 0u8
            &&& img[162] == 0u8
            &&& img[163] == 0u8
            &&& img[164] == 0u8
            &&& img[165] == 0u8
            &&& img[166] == 0u8
            &&& u64_at(img, 192) == 0x5000u64
            &&& u16_at(img, 200) == 39u16
            &&& u64_at(img, 224) == u64_at(old(sregs)@, 224) | 0x8000_0001u64
            &&& u64_at(img, 240) == 0x1000u64
            &&& u64_at(img, 248) == u64_at(old(sregs)@, 248) | 0x20u64
            &&& u64_at(img, 264) == u64_at(old(sregs)@, 264) | 0x500u64
        }),
{
    proof {
        vstd::bytes::lemma_auto_spec_u16_to_from_le_bytes();
    }
    let cr0 = read_u64(sregs, CR0_OFF);
    let cr4 = read_u64(sregs, CR4_OFF);
    let efer = read_u64(sregs, EFER_OFF);
    let code = Segment::code().to_bytes();
    let data = Segment::data().to_bytes();
    let tss = Segment::tss().to_bytes();
    write_bytes(sregs, CS_OFF, code.as_slice());
    write_bytes(sregs, DS_OFF, data.as_slice());
    write_bytes(sregs, ES_OFF, data.as_slice());
    write_bytes(sregs, FS_OFF, data.as_slice());
    write_bytes(sregs, GS_OFF, data.as_slice());
    write_bytes(sregs, SS_OFF, data.as_slice());
    write_bytes(sregs, TR_OFF, tss.as_slice());
    write_u64(sregs, GDT_OFF as u64, GDT_ADDR);
    let limit = vstd::bytes::u16_to_le_bytes((8 * GDT_ENTRIES - 1) as u16);
    write_bytes(sregs, GDT_OFF + 8, limit.as_slice());
    write_u64(sregs, CR0_OFF as u64, cr0 | CR0_PE | CR0_PG);
    write_u64(sregs, CR3_OFF as u64, PML4_ADDR);
    write_u64(sregs, CR4_OFF as u64, cr4 | CR4_PAE);
    write_u64(sregs, EFER_OFF as u64, efer | EFER_LME | EFER_LMA);
    proof {
        lemma_long_mode_registers(old(sregs)@);
    }
}

} // verus!

verus! {

/// What `set_long_mode` leaves in the special registers: each field it
/// sets reads back with its value, and the fields it does not set (LDT,
/// IDT, CR2, CR8, APIC base, interrupt bitmap) are unchanged.
pub proof fn lemma_long_mode_sregs_fields(s: Seq<u8>)
    requires
        SREGS_SIZE <= s.len(),
    ensures
        ({
            let img = long_mode_sregs(s);
            &&& img.len() == s.len()
            &&& img.subrange(CS_OFF as int, CS_OFF + SEGMENT_SIZE) == code_segment_value().layout()
            &&& img.subrange(DS_OFF as int, DS_OFF + SEGMENT_SIZE) == data_segment_value().layout()
            &&& img.subrange(ES_OFF as int, ES_OFF + SEGMENT_SIZE) == data_segment_value().layout()
            &&& img.subrange(FS_OFF as int, FS_OFF + SEGMENT_SIZE) == data_segment_value().layout()
            &&& img.subrange(GS_OFF as int, GS_OFF + SEGMENT_SIZE) == data_segment_value().layout()
            &&& img.subrange(SS_OFF as int, SS_OFF + SEGMENT_SIZE) == data_segment_value().layout()
            &&& img.subrange(TR_OFF as int, TR_OFF + SEGMENT_SIZE) == tss_segment_value().layout()
            &&& u64_at(img, GDT_OFF as int) == GDT_ADDR
            &&& u16_at(img, GDT_OFF + 8) == gdt_limit()
            &&& u64_at(img, CR0_OFF as int) == u64_at(s, CR0_OFF as int) | CR0_PE | CR0_PG
            &&& u64_at(img, CR3_OFF as int) == PML4_ADDR
            &&& u64_at(img, CR4_OFF as int) == u64_at(s, CR4_OFF as int) | CR4_PAE
            &&& u64_at(img, EFER_OFF as int) == u64_at(s, EFER_OFF as int) | EFER_LME | EFER_LMA
            &&& forall|i: int|
                (168 <= i < 192 || 202 <= i < 224 || 232 <= i < 240 || 256 <= i < 264 || 272 <= i < s.len())
                    ==> img[i] == s[i]
        }),
{
    vstd::bytes::lemma_auto_spec_u16_to_from_le_bytes();
    vstd::bytes::lemma_auto_spec_u32_to_from_le_bytes();
    vstd::bytes::lemma_auto_spec_u64_to_from_le_bytes();
    let img = long_mode_sregs(s);
    let cr0 = u64_at(s, CR0_OFF as int) | CR0_PE | CR0_PG;
    let cr4 = u64_at(s, CR4_OFF as int) | CR4_PAE;
    let efer = u64_at(s, EFER_OFF as int) | EFER_LME | EFER_LMA;
    assert(img.subrange(CS_OFF as int, CS_OFF + SEGMENT_SIZE) =~= code_segment_value().layout());
    assert(img.subrange(DS_OFF as int, DS_OFF + SEGMENT_SIZE) =~= data_segment_value().layout());
    assert(img.subrange(ES_OFF as int, ES_OFF + SEGMENT_SIZE) =~= data_segment_value().layout());
    assert(img.subrange(FS_OFF as int, FS_OFF + SEGMENT_SIZE) =~= data_segment_value().layout());
    assert(img.subrange(GS_OFF as int, GS_OFF + SEGMENT_SIZE) =~= data_segment_value().layout());
    assert(img.subrange(SS_OFF as int, SS_OFF + SEGMENT_SIZE) =~= data_segment_value().layout());
    assert(img.subrange(TR_OFF as int, TR_OFF + SEGMENT_SIZE) =~= tss_segment_value().layout());
    assert(img.subrange(GDT_OFF as int, GDT_OFF + 8) =~= vstd::bytes::spec_u64_to_le_bytes(GDT_ADDR));
    assert(img.subrange(GDT_OFF + 8, GDT_OFF + 10) =~= vstd::bytes::spec_u16_to_le_bytes(gdt_limit()));
    assert(img.subrange(CR0_OFF as int, CR0_OFF + 8) =~= vstd::bytes::spec_u64_to_le_bytes(cr0));
    assert(img.subrange(CR3_OFF as int, CR3_OFF + 8) =~= vstd::bytes::spec_u64_to_le_bytes(PML4_ADDR));
    assert(img.subrange(CR4_OFF as int, CR4_OFF + 8) =~= vstd::bytes::spec_u64_to_le_bytes(cr4));
    assert(img.subrange(EFER_OFF as int, EFER_OFF + 8) =~= vstd::bytes::spec_u64_to_le_bytes(efer));
}

/// The segment registers that `set_long_mode` loads agree with the boot
/// GDT descriptors that their selectors name: CS with the 64-bit code
/// descriptor and the data registers with the data descriptor (present,
/// privilege, code/data, type up to the accessed bit, L and D/B), and every
/// selector lies inside the GDT limit.
pub proof fn lemma_segments_match_gdt()
    ensures
        ({
            let c = crate::loader::gdt_entry((CODE_SELECTOR >> 3) as int);
            let d = crate::loader::gdt_entry((DATA_SELECTOR >> 3) as int);
            let cs = code_segment_value();
            let ds = data_segment_value();
            &&& CODE_SELECTOR >> 3 == 1 && DATA_SELECTOR >> 3 == 2 && TSS_SELECTOR >> 3 == 3
            &&& CODE_SELECTOR + 7 <= gdt_limit() && DATA_SELECTOR + 7 <= gdt_limit()
            &&& TSS_SELECTOR + 7 <= gdt_limit()
            &&& (c >> 47) & 1 == cs.present && (c >> 45) & 3 == cs.dpl && (c >> 44) & 1 == cs.s
            &&& ((c >> 40) & 0xF) | 1 == cs.type_
            &&& (c >> 53) & 1 == cs.l && (c >> 54) & 1 == cs.db
            &&& (d >> 47) & 1 == ds.present && (d >> 45) & 3 == ds.dpl && (d >> 44) & 1 == ds.s
            &&& ((d >> 40) & 0xF) | 1 == ds.type_
            &&& (d >> 53) & 1 == ds.l && (d >> 54) & 1 == ds.db
        }),
{
    assert(0x08u16 >> 3 == 1 && 0x10u16 >> 3 == 2 && 0x18u16 >> 3 == 3) by (bit_vector);
    let c = crate::loader::CODE_SEGMENT_DESCRIPTOR;
    let d = crate::loader::DATA_SEGMENT_DESCRIPTOR;
    assert((c >> 47) & 1 == 1 && (c >> 45) & 3 == 0 && (c >> 44) & 1 == 1 && ((c >> 40) & 0xF) | 1 == 0xB
        && (c >> 53) & 1 == 1 && (c >> 54) & 1 == 0) by (bit_vector)
        requires
            c == 0x00AF9A000000FFFFu64,
    ;
    assert((d >> 47) & 1 == 1 && (d >> 45) & 3 == 0 && (d >> 44) & 1 == 1 && ((d >> 40) & 0xF) | 1 == 0x3
        && (d >> 53) & 1 == 0 && (d >> 54) & 1 == 1) by (bit_vector)
        requires
            d == 0x00CF93000000FFFFu64,
    ;
}

} // verus!

verus! {

/// The special registers `s` put the vCPU in 64-bit mode with paging
/// rooted at `root`: CR0.PE and CR0.PG, CR4.PAE, EFER.LME and EFER.LMA set,
/// CR3 == `root`, and CS a 64-bit code segment (L=1, D=0).
pub open spec fn in_long_mode(s: Seq<u8>, root: u64) -> bool {
    &&& u64_at(s, CR0_OFF as int) & CR0_PE == CR0_PE
    &&& u64_at(s, CR0_OFF as int) & CR0_PG == CR0_PG
    &&& u64_at(s, CR4_OFF as int) & CR4_PAE == CR4_PAE
    &&& u64_at(s, EFER_OFF as int) & EFER_LME == EFER_LME
    &&& u64_at(s, EFER_OFF as int) & EFER_LMA == EFER_LMA
    &&& u64_at(s, CR3_OFF as int) == root
    &&& s[CS_OFF + 19] == 1
    &&& s[CS_OFF + 17] == 0
}

/// Whatever state the vCPU was in, after `set_long_mode` it is in 64-bit
/// mode with paging rooted at the boot image's PML4.
pub proof fn lemma_set_long_mode_enters_long_mode(s: Seq<u8>)
    requires
        SREGS_SIZE <= s.len(),
    ensures
        in_long_mode(long_mode_sregs(s), PML4_ADDR),
{
    lemma_long_mode_sregs_fields(s);
    let img = long_mode_sregs(s);
    let cr0 = u64_at(s, CR0_OFF as int);
    let cr4 = u64_at(s, CR4_OFF as int);
    let efer = u64_at(s, EFER_OFF as int);
    assert((cr0 | 0x1 | 0x8000_0000) & 0x1 == 0x1 && (cr0 | 0x1 | 0x8000_0000) & 0x8000_0000 == 0x8000_0000)
        by (bit_vector);
    assert((cr4 | 0x20) & 0x20 == 0x20) by (bit_vector);
    assert((efer | 0x100 | 0x400) & 0x100 == 0x100 && (efer | 0x100 | 0x400) & 0x400 == 0x400)
        by (bit_vector);
    assert(img[CS_OFF + 19] == img.subrange(CS_OFF as int, CS_OFF + SEGMENT_SIZE)[19]);
    assert(img[CS_OFF + 17] == img.subrange(CS_OFF as int, CS_OFF + SEGMENT_SIZE)[17]);
    vstd::bytes::lemma_auto_spec_u16_to_from_le_bytes();
    vstd::bytes::lemma_auto_spec_u32_to_from_le_bytes();
    vstd::bytes::lemma_auto_spec_u64_to_from_le_bytes();
    assert(code_segment_value().layout()[19] == 1);
    assert(code_segment_value().layout()[17] == 0);
}

/// The special registers after `set_long_mode`, field by field of
/// `struct kvm_sregs`: CS (offset 0) is selector 0x08, a flat present ring-0
/// 64-bit execute/read code segment (type 0xB, s=1, L=1, D=0, G=1); DS, ES,
/// FS, GS and SS (offsets 24..144) are selector 0x10, a flat present ring-0
/// read/write data segment (type 3, s=1, D/B=1, L=0, G=1); TR (offset 144)
/// is selector 0x18, the busy 64-bit TSS (type 0xB, present, s=0) at 0x6000
/// with limit 0x67; GDTR (offset 192) is base 0x5000, limit 39; CR0 gains PE
/// and PG, CR3 is 0x1000, CR4 gains PAE, EFER gains LME and LMA.
pub proof fn lemma_long_mode_registers(s: Seq<u8>)
    requires
        312 <= s.len(),
    ensures
        ({
            let img = long_mode_sregs(s);
            &&& u64_at(img, 0) == 0u64
            &&& u32_at(img, 8) == 0xFFFFFu32
            &&& u16_at(img, 12) == 0x08u16
            &&& img[14] == 0x0Bu8
            &&& img[15] == 1u8
            &&& img[16] == 0u8
            &&& img[17] == 0u8
            &&& img[18] == 1u8
            &&& img[19] == 1u8
            &&& img[20] == 1u8
            &&& img[21] == 0u8
            &&& img[22] == 0u8
            &&& u64_at(img, 24) == 0u64
            &&& u32_at(img, 32) == 0xFFFFFu32
            &&& u16_at(img, 36) == 0x10u16
            &&& img[38] == 0x03u8
            &&& img[39] == 1u8
            &&& img[40] == 0u8
            &&& img[41] == 1u8
            &&& img[42] == 1u8
            &&& img[43] == 0u8
            &&& img[44] == 1u8
            &&& img[45] == 0u8
            &&& img[46] == 0u8
            &&& u64_at(img, 48) == 0u64
            &&& u32_at(img, 56) == 0xFFFFFu32
            &&& u16_at(img, 60) == 0x10u16
            &&& img[62] == 0x03u8
            &&& img[63] == 1u8
            &&& img[64] == 0u8
            &&& img[65] == 1u8
            &&& img[66] == 1u8
            &&& img[67] == 0u8
            &&& img[68] == 1u8
            &&& img[69] == 0u8
            &&& img[70] == 0u8
            &&& u64_at(img, 72) == 0u64
            &&& u32_at(img, 80) == 0xFFFFFu32
            &&& u16_at(img, 84) == 0x10u16
            &&& img[86] == 0x03u8
            &&& img[87] == 1u8
            &&& img[88] == 0u8
            &&& img[89] == 1u8
            &&& img[90] == 1u8
            &&& img[91] == 0u8
            &&& img[92] == 1u8
            &&& img[93] == 0u8
            &&& img[94] == 0u8
            &&& u64_at(img, 96) == 0u64
            &&& u32_at(img, 104) == 0xFFFFFu32
            &&& u16_at(img, 108) == 0x10u16
            &&& img[110] == 0x03u8
            &&& img[111] == 1u8
            &&& img[112] == 0u8
            &&& img[113] == 1u8
            &&& img[114] == 1u8
            &&& img[115] == 0u8
            &&& img[116] == 1u8
            &&& img[117] == 0u8
            &&& img[118] == 0u8
            &&& u64_at(img, 120) == 0u64
            &&& u32_at(img, 128) == 0xFFFFFu32
            &&& u16_at(img, 132) == 0x10u16
            &&& img[134] == 0x03u8
            &&& img[135] == 1u8
            &&& img[136] == 0u8
            &&& img[137] == 1u8
            &&& img[138] == 1u8
            &&& img[139] == 0u8
            &&& img[140] == 1u8
            &&& img[141] == 0u8
            &&& img[142] == 0u8
            &&& u64_at(img, 144) == 0x6000u64
            &&& u32_at(img, 152) == 0x67u32
            &&& u16_at(img, 156) == 0x18u16
            &&& img[158] == 0x0Bu8
            &&& img[159] == 1u8
            &&& img[160] == 0u8
            &&& img[161] == 0u8
            &&& img[162] == 0u8
            &&& img[163] == 0u8
            &&& img[164] == 0u8
            &&& img[165] == 0u8
            &&& img[166] == 0u8
            &&& u64_at(img, 192) == 0x5000u64
            &&& u16_at(img, 200) == 39u16
            &&& u64_at(img, 224) == u64_at(s, 224) | 0x8000_0001u64
            &&& u64_at(img, 240) == 0x1000u64
            &&& u64_at(img, 248) == u64_at(s, 248) | 0x20u64
            &&& u64_at(img, 264) == u64_at(s, 264) | 0x500u64
        }),
{
    lemma_long_mode_sregs_fields(s);
    let img = long_mode_sregs(s);
    lemma_segment_layout_fields(code_segment_value());
    lemma_segment_layout_fields(data_segment_value());
    lemma_segment_layout_fields(tss_segment_value());
    let cr0 = u64_at(s, 224);
    let efer = u64_at(s, 264);
    assert(cr0 | 0x1 | 0x8000_0000 == cr0 | 0x8000_0001u64) by (bit_vector);
    assert(efer | 0x100 | 0x400 == efer | 0x500u64) by (bit_vector);
    assert(img.subrange(0, 24) == code_segment_value().layout());
    assert(u64_at(img, 0) == u64_at(img.subrange(0, 24), 0)) by {
        assert(img.subrange(0, 8) =~= img.subrange(0, 24).subrange(0, 8));
    }
    assert(u32_at(img, 8) == u32_at(img.subrange(0, 24), 8)) by {
        assert(img.subrange(8, 12) =~= img.subrange(0, 24).subrange(8, 12));
    }
    assert(u16_at(img, 12) == u16_at(img.subrange(0, 24), 12)) by {
        assert(img.subrange(12, 14) =~= img.subrange(0, 24).subrange(12, 14));
    }
    assert forall|k: int| 14 <= k < 23 implies img[0 + k] == #[trigger] img.subrange(0, 24)[k] by {}
    assert(img.subrange(24, 48) == data_segment_value().layout());
    assert(u64_at(img, 24) == u64_at(img.subrange(24, 48), 0)) by {
        assert(img.subrange(24, 32) =~= img.subrange(24, 48).subrange(0, 8));
    }
    assert(u32_at(img, 32) == u32_at(img.subrange(24, 48), 8)) by {
        assert(img.subrange(32, 36) =~= img.subrange(24, 48).subrange(8, 12));
    }
    assert(u16_at(img, 36) == u16_at(img.subrange(24, 48), 12)) by {
        assert(img.subrange(36, 38) =~= img.subrange(24, 48).subrange(12, 14));
    }
    assert forall|k: int| 14 <= k < 23 implies img[24 + k] == #[trigger] img.subrange(24, 48)[k] by {}
    assert(img.subrange(48, 72) == data_segment_value().layout());
    assert(u64_at(img, 48) == u64_at(img.subrange(48, 72), 0)) by {
        assert(img.subrange(48, 56) =~= img.subrange(48, 72).subrange(0, 8));
    }
    assert(u32_at(img, 56) == u32_at(img.subrange(48, 72), 8)) by {
        assert(img.subrange(56, 60) =~= img.subrange(48, 72).subrange(8, 12));
    }
    assert(u16_at(img, 60) == u16_at(img.subrange(48, 72), 12)) by {
        assert(img.subrange(60, 62) =~= img.subrange(48, 72).subrange(12, 14));
    }
    assert forall|k: int| 14 <= k < 23 implies img[48 + k] == #[trigger] img.subrange(48, 72)[k] by {}
    assert(img.subrange(72, 96) == data_segment_value().layout());
    assert(u64_at(img, 72) == u64_at(img.subrange(72, 96), 0)) by {
        assert(img.subrange(72, 80) =~= img.subrange(72, 96).subrange(0, 8));
    }
    assert(u32_at(img, 80) == u32_at(img.subrange(72, 96), 8)) by {
        assert(img.subrange(80, 84) =~= img.subrange(72, 96).subrange(8, 12));
    }
    assert(u16_at(img, 84) == u16_at(img.subrange(72, 96), 12)) by {
        assert(img.subrange(84, 86) =~= img.subrange(72, 96).subrange(12, 14));
    }
    assert forall|k: int| 14 <= k < 23 implies img[72 + k] == #[trigger] img.subrange(72, 96)[k] by {}
    assert(img.subrange(96, 120) == data_segment_value().layout());
    assert(u64_at(img, 96) == u64_at(img.subrange(96, 120), 0)) by {
        assert(img.subrange(96, 104) =~= img.subrange(96, 120).subrange(0, 8));
    }
    assert(u32_at(img, 104) == u32_at(img.subrange(96, 120), 8)) by {
        assert(img.subrange(104, 108) =~= img.subrange(96, 120).subrange(8, 12));
    }
    assert(u16_at(img, 108) == u16_at(img.subrange(96, 120), 12)) by {
        assert(img.subrange(108, 110) =~= img.subrange(96, 120).subrange(12, 14));
    }
    assert forall|k: int| 14 <= k < 23 implies img[96 + k] == #[trigger] img.subrange(96, 120)[k] by {}
    assert(img.subrange(120, 144) == data_segment_value().layout());
    assert(u64_at(img, 120) == u64_at(img.subrange(120, 144), 0)) by {
        assert(img.subrange(120, 128) =~= img.subrange(120, 144).subrange(0, 8));
    }
    assert(u32_at(img, 128) == u32_at(img.subrange(120, 144), 8)) by {
        assert(img.subrange(128, 132) =~= img.subrange(120, 144).subrange(8, 12));
    }
    assert(u16_at(img, 132) == u16_at(img.subrange(120, 144), 12)) by {
        assert(img.subrange(132, 134) =~= img.subrange(120, 144).subrange(12, 14));
    }
    assert forall|k: int| 14 <= k < 23 implies img[120 + k] == #[trigger] img.subrange(120, 144)[k] by {}
    assert(img.subrange(144, 168) == tss_segment_value().layout());
    assert(u64_at(img, 144) == u64_at(img.subrange(144, 168), 0)) by {
        assert(img.subrange(144, 152) =~= img.subrange(144, 168).subrange(0, 8));
    }
    assert(u32_at(img, 152) == u32_at(img.subrange(144, 168), 8)) by {
        assert(img.subrange(152, 156) =~= img.subrange(144, 168).subrange(8, 12));
    }
    assert(u16_at(img, 156) == u16_at(img.subrange(144, 168), 12)) by {
        assert(img.subrange(156, 158) =~= img.subrange(144, 168).subrange(12, 14));
    }
    assert forall|k: int| 14 <= k < 23 implies img[144 + k] == #[trigger] img.subrange(144, 168)[k] by {}
}

} // verus!
