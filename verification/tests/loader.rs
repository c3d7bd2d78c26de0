use nanovm::guest_mem::{read_u64, write_u64};
use nanovm::guest_program;
use nanovm::loader;
use nanovm::long_mode;

#[test]
fn page_tables_identity_map_16mb() {
    let mut mem = vec![0u8; 0x400000];
    loader::load(&mut mem);

    let read_u64 = |addr: u64| {
        let off = addr as usize;
        u64::from_le_bytes(mem[off..off + 8].try_into().unwrap())
    };

    // PML4[0] -> PDPT, present + writable
    assert_eq!(read_u64(loader::PML4_ADDR), loader::PDPT_ADDR | 0x3);
    // PDPT[0] -> PD
    assert_eq!(read_u64(loader::PDPT_ADDR), loader::PD_ADDR | 0x3);
    // PD[0] -> the 2 MiB page at physical 0: present + writable + huge
    assert_eq!(read_u64(loader::PD_ADDR), 0x83);
    // PD[1] -> physical 2 MiB
    assert_eq!(read_u64(loader::PD_ADDR + 8), (1 << 21) | 0x83);
}

#[test]
fn gdt_has_64bit_code_segment() {
    let mut mem = vec![0u8; 0x400000];
    loader::load(&mut mem);

    let code_desc = u64::from_le_bytes(mem[0x5008..0x5010].try_into().unwrap());
    // 0x00AF9A000000FFFF: L=1 (64-bit), present, exec/read
    assert_eq!(code_desc, 0x00AF9A000000FFFF);
}

#[test]
fn guest_code_is_written_at_entry() {
    let mut mem = vec![0u8; 0x400000];
    let entry = loader::load(&mut mem);
    assert_eq!(entry, loader::CODE_ADDR);

    // 0x66 0xBA = mov dx, imm16 (prefixed form in 64-bit mode)
    assert_eq!(&mem[entry as usize..entry as usize + 4], &[0x66, 0xBA, 0xF8, 0x03]);
    // the last instruction is hlt
    let len = 4 + loader::GUEST_MESSAGE.len() * 3 + 1;
    assert_eq!(mem[entry as usize + len - 1], 0xF4);
}

/// Walks the four-level page table of `mem` from `root` for `va`.
fn walk(mem: &[u8], root: u64, va: u64) -> Option<u64> {
    let rd = |a: u64| read_u64(mem, a as usize);
    let pml4e = rd(root + 8 * ((va >> 39) & 0x1ff));
    if pml4e & 1 == 0 {
        return None;
    }
    let pdpte = rd((pml4e & 0x000F_FFFF_FFFF_F000) + 8 * ((va >> 30) & 0x1ff));
    if pdpte & 1 == 0 {
        return None;
    }
    if pdpte & 0x80 != 0 {
        return Some((pdpte & 0x000F_FFFF_C000_0000) | (va & 0x3FFF_FFFF));
    }
    let pde = rd((pdpte & 0x000F_FFFF_FFFF_F000) + 8 * ((va >> 21) & 0x1ff));
    if pde & 1 == 0 {
        return None;
    }
    if pde & 0x80 != 0 {
        return Some((pde & 0x000F_FFFF_FFE0_0000) | (va & 0x1F_FFFF));
    }
    let pte = rd((pde & 0x000F_FFFF_FFFF_F000) + 8 * ((va >> 12) & 0x1ff));
    if pte & 1 == 0 {
        return None;
    }
    Some((pte & 0x000F_FFFF_FFFF_F000) | (va & 0xFFF))
}

#[test]
fn loaded_page_tables_translate_identically() {
    let mut mem = vec![0u8; 0x200000];
    loader::load(&mut mem);
    for va in [0u64, 0x1234, 0x1F_FFFF, 0x20_0000, 0x10_0000, 0x7A_BCDE, 0xFF_FFFF] {
        assert_eq!(walk(&mem, loader::PML4_ADDR, va), Some(va));
    }
    // Beyond the 16 MiB map the directory entry is not present.
    assert_eq!(walk(&mem, loader::PML4_ADDR, 0x100_0000), None);
}

#[test]
fn all_directory_entries_are_huge_identity_pages() {
    let mut mem = vec![0u8; 0x100100];
    loader::load(&mut mem);
    for i in 0..8u64 {
        assert_eq!(read_u64(&mem, (loader::PD_ADDR + 8 * i) as usize), (i << 21) | 0x83);
    }
    assert_eq!(read_u64(&mem, (loader::PD_ADDR + 64) as usize), 0);
}

#[test]
fn gdt_descriptors_in_order() {
    let mut mem = vec![0xAAu8; 0x100100];
    loader::load(&mut mem);
    let base = loader::GDT_ADDR as usize;
    assert_eq!(read_u64(&mem, base), 0);
    assert_eq!(read_u64(&mem, base + 0x08), 0x00AF9A000000FFFF);
    assert_eq!(read_u64(&mem, base + 0x10), 0x00CF93000000FFFF);
    assert_eq!(read_u64(&mem, base + 0x18), 0x6089);
    assert_eq!(read_u64(&mem, base + 0x20), 0);
    // The byte after the last descriptor is untouched.
    assert_eq!(mem[base + 0x28], 0xAA);
    // So is the TSS page itself.
    assert_eq!(mem[loader::TSS_ADDR as usize], 0xAA);
}

#[test]
fn load_leaves_other_bytes_alone() {
    let mut mem = vec![0x5Au8; 0x100100];
    loader::load(&mut mem);
    assert_eq!(mem[0], 0x5A);
    assert_eq!(mem[0xFFF], 0x5A);
    assert_eq!(mem[0x1008], 0x5A);
    assert_eq!(mem[0x2008], 0x5A);
    assert_eq!(mem[0x3040], 0x5A);
    assert_eq!(mem[0x4FFF], 0x5A);
    assert_eq!(mem[0xFFFFF], 0x5A);
    let end = loader::CODE_ADDR as usize + 4 + 3 * loader::GUEST_MESSAGE.len() + 1;
    assert_eq!(mem[end], 0x5A);
    assert_eq!(mem[end - 1], 0xF4);
}

#[test]
fn load_fits_the_smallest_memory() {
    let len = loader::CODE_ADDR as usize + 4 + 3 * loader::GUEST_MESSAGE.len() + 1;
    assert_eq!(len, 0x100056);
    let mut mem = vec![0u8; len];
    assert_eq!(loader::load(&mut mem), loader::CODE_ADDR);
    assert_eq!(mem[len - 1], 0xF4);
}

#[test]
fn guest_code_encodes_each_byte() {
    let code = loader::guest_code("hi");
    assert_eq!(code, vec![0x66, 0xBA, 0xF8, 0x03, 0xB0, b'h', 0xEE, 0xB0, b'i', 0xEE, 0xF4]);
    assert_eq!(loader::guest_code(""), vec![0x66, 0xBA, 0xF8, 0x03, 0xF4]);
}

#[test]
fn loaded_code_spells_the_message() {
    let mut mem = vec![0u8; 0x100100];
    let entry = loader::load(&mut mem) as usize;
    let msg = loader::GUEST_MESSAGE.as_bytes();
    for (i, &c) in msg.iter().enumerate() {
        let at = entry + 4 + 3 * i;
        assert_eq!(&mem[at..at + 3], &[0xB0, c, 0xEE]);
    }
    assert_eq!(loader::MEM_SIZE, 8 << 21);
}

#[test]
fn write_u64_stores_little_endian() {
    let mut mem = vec![0xFFu8; 16];
    write_u64(&mut mem, 4, 0x0102_0304_0506_0708);
    assert_eq!(mem, vec![0xFF, 0xFF, 0xFF, 0xFF, 8, 7, 6, 5, 4, 3, 2, 1, 0xFF, 0xFF, 0xFF, 0xFF]);
    assert_eq!(read_u64(&mem, 4), 0x0102_0304_0506_0708);
}

/// Runs the guest instructions `mov dx, imm16` / `mov al, imm8` /
/// `in al, dx` / `out dx, al` / `jmp rel8` / `hlt` from `pc`, answering
/// reads from `input`, and collects the port writes up to `hlt` (or up to the
/// point where a read finds the input used up).
fn run_guest_with(code: &[u8], mut pc: usize, input: &[u8]) -> Option<Vec<(u16, u8)>> {
    let (mut dx, mut al) = (0u16, 0u8);
    let mut out = Vec::new();
    let mut input = input.iter();
    for _ in 0..10_000 {
        match code.get(pc)? {
            0xF4 => return Some(out),
            0xEC => match input.next() {
                Some(&c) => {
                    al = c;
                    pc += 1;
                }
                None => return Some(out),
            },
            0xEB => {
                let rel = *code.get(pc + 1)? as i8 as isize;
                pc = (pc as isize + 2 + rel) as usize;
            }
            0xEE => {
                out.push((dx, al));
                pc += 1;
            }
            0xB0 => {
                al = *code.get(pc + 1)?;
                pc += 2;
            }
            0x66 if code.get(pc + 1) == Some(&0xBA) => {
                dx = u16::from_le_bytes([*code.get(pc + 2)?, *code.get(pc + 3)?]);
                pc += 4;
            }
            _ => return None,
        }
    }
    None
}

fn run_guest(code: &[u8], pc: usize) -> Option<Vec<(u16, u8)>> {
    run_guest_with(code, pc, &[])
}

#[test]
fn loaded_guest_prints_the_message_on_com1() {
    let mut mem = vec![0u8; 0x100100];
    let entry = loader::load(&mut mem) as usize;
    let out = run_guest(&mem, entry).unwrap();
    let expected: Vec<(u16, u8)> =
        loader::GUEST_MESSAGE.bytes().map(|c| (loader::COM1_PORT, c)).collect();
    assert_eq!(out, expected);
    assert_eq!(out.len(), 27);
}

#[test]
fn echo_program_echoes_its_input() {
    let code = guest_program::echo_code();
    assert_eq!(code, vec![0x66, 0xBA, 0xF8, 0x03, 0xEC, 0xEE, 0xEB, 0xFC]);
    let mut mem = vec![0u8; 0x100100];
    let entry = loader::load_program(&mut mem, &code) as usize;
    assert_eq!(entry, 0x100000);
    assert_eq!(&mem[entry..entry + 8], &code[..]);
    let out = run_guest_with(&mem, entry, b"hi\n").unwrap();
    assert_eq!(out, vec![(0x3f8, b'h'), (0x3f8, b'i'), (0x3f8, b'\n')]);
    // The page tables are the same as for the printing guest.
    assert_eq!(walk(&mem, loader::PML4_ADDR, 0xABCDE), Some(0xABCDE));
}

#[test]
fn long_mode_special_registers() {
    let mut s = vec![0x11u8; 312];
    long_mode::set_long_mode(&mut s);
    let u64_at = |o: usize| u64::from_le_bytes(s[o..o + 8].try_into().unwrap());
    // CR0 keeps its bits and gains PE and PG.
    assert_eq!(u64_at(long_mode::CR0_OFF), 0x1111_1111_1111_1111 | 0x8000_0001);
    assert_eq!(u64_at(long_mode::CR3_OFF), loader::PML4_ADDR);
    assert_eq!(u64_at(long_mode::CR4_OFF), 0x1111_1111_1111_1111 | 0x20);
    assert_eq!(u64_at(long_mode::EFER_OFF), 0x1111_1111_1111_1111 | 0x500);
    // CS: base 0, limit 0xfffff, selector 0x08, type 0xb, present, L=1, G=1.
    assert_eq!(
        &s[0..24],
        &[0, 0, 0, 0, 0, 0, 0, 0, 0xFF, 0xFF, 0x0F, 0, 0x08, 0, 0x0B, 1, 0, 0, 1, 1, 1, 0, 0, 0]
    );
    // SS: selector 0x10, type 3, D/B=1.
    assert_eq!(
        &s[120..144],
        &[0, 0, 0, 0, 0, 0, 0, 0, 0xFF, 0xFF, 0x0F, 0, 0x10, 0, 0x03, 1, 0, 1, 1, 0, 1, 0, 0, 0]
    );
    // TR: base 0x6000, selector 0x18.
    assert_eq!(u64_at(long_mode::TR_OFF), loader::TSS_ADDR);
    assert_eq!(s[long_mode::TR_OFF + 12], 0x18);
    // GDTR: base 0x5000, limit 39.
    assert_eq!(u64_at(long_mode::GDT_OFF), loader::GDT_ADDR);
    assert_eq!(&s[200..202], &[39, 0]);
    // Untouched: LDT, IDT, CR2, CR8, APIC base, interrupt bitmap.
    assert!(s[168..192].iter().all(|&b| b == 0x11));
    assert!(s[202..224].iter().all(|&b| b == 0x11));
    assert!(s[232..240].iter().all(|&b| b == 0x11));
    assert!(s[256..264].iter().all(|&b| b == 0x11));
    assert!(s[272..312].iter().all(|&b| b == 0x11));
}
