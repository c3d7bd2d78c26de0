use nanovm::guest_mem::{read_u16, read_u32};
use nanovm::kvm::{
    check_api_version, check_ioctl, check_vcpu_mmap_size, exit_reason, io_data, io_exit, run_off,
    run_outcome, store_io_data, try_io_data, KvmError, Regs, RunOutcome, UserMemoryRegion,
    KVM_CREATE_VCPU, KVM_CREATE_VM, KVM_GET_API_VERSION, KVM_GET_REGS, KVM_GET_SREGS,
    KVM_GET_VCPU_MMAP_SIZE, KVM_RUN, KVM_SET_REGS, KVM_SET_SREGS, KVM_SET_USER_MEMORY_REGION,
};
use nanovm::vcpu::{handle_exit, ExitAction, RunStats};

#[test]
fn request_numbers_match_the_uapi() {
    assert_eq!(KVM_GET_API_VERSION, 0xAE00);
    assert_eq!(KVM_CREATE_VM, 0xAE01);
    assert_eq!(KVM_GET_VCPU_MMAP_SIZE, 0xAE04);
    assert_eq!(KVM_CREATE_VCPU, 0xAE41);
    assert_eq!(KVM_RUN, 0xAE80);
    assert_eq!(KVM_SET_USER_MEMORY_REGION, 0x4020_AE46);
    assert_eq!(KVM_GET_REGS, 0x8090_AE81);
    // The size field of the memory-region request is 32 bytes.
    assert_eq!((KVM_SET_USER_MEMORY_REGION >> 16) & 0x3fff, 32);
    assert_eq!(KVM_GET_REGS >> 30, 2);
}

#[test]
fn api_version_twelve_only() {
    assert!(check_api_version(12).is_ok());
    assert!(matches!(check_api_version(11), Err(KvmError::UnsupportedApiVersion(11))));
    assert!(matches!(check_api_version(-1), Err(KvmError::UnsupportedApiVersion(0xFFFF_FFFF))));
}

#[test]
fn ioctl_results() {
    assert!(matches!(check_ioctl(7, "KVM_CREATE_VM", 0), Ok(7)));
    assert!(matches!(check_ioctl(0, "KVM_CREATE_VCPU", 0), Ok(0)));
    assert!(matches!(
        check_ioctl(-1, "KVM_CREATE_VM", 24),
        Err(KvmError::Ioctl("KVM_CREATE_VM", 24))
    ));
}

#[test]
fn vcpu_mmap_size_must_be_positive() {
    assert!(matches!(check_vcpu_mmap_size(12288, 0), Ok(12288)));
    assert!(matches!(
        check_vcpu_mmap_size(0, 0),
        Err(KvmError::Ioctl("KVM_GET_VCPU_MMAP_SIZE", 0))
    ));
    assert!(matches!(
        check_vcpu_mmap_size(-1, 22),
        Err(KvmError::Ioctl("KVM_GET_VCPU_MMAP_SIZE", 22))
    ));
}

#[test]
fn run_outcomes() {
    assert!(matches!(run_outcome(0, false, 0), RunOutcome::Exited));
    assert!(matches!(run_outcome(0, true, 4), RunOutcome::Exited));
    assert!(matches!(run_outcome(-1, true, 4), RunOutcome::Retry));
    assert!(matches!(
        run_outcome(-1, false, 14),
        RunOutcome::Failed(KvmError::Ioctl("KVM_RUN", 14))
    ));
}

#[test]
fn memory_region_layout() {
    let r = UserMemoryRegion::new(1, 0xFFFF_F000, 4096, 0x7F00_1234_5000);
    assert_eq!(r.flags, 0);
    assert_eq!(r.memory_size, 4096);
    let b = r.to_bytes();
    assert_eq!(b.len(), 32);
    assert_eq!(&b[0..4], &[1, 0, 0, 0]);
    assert_eq!(&b[4..8], &[0, 0, 0, 0]);
    assert_eq!(&b[8..16], &[0x00, 0xF0, 0xFF, 0xFF, 0, 0, 0, 0]);
    assert_eq!(&b[16..24], &[0x00, 0x10, 0, 0, 0, 0, 0, 0]);
    assert_eq!(&b[24..32], &[0x00, 0x50, 0x34, 0x12, 0x00, 0x7F, 0, 0]);
}

#[test]
fn regs_decode_in_field_order() {
    let mut b = vec![0u8; 144];
    for k in 0..18u64 {
        let v = 0x1000 + k;
        b[(8 * k) as usize..(8 * k + 8) as usize].copy_from_slice(&v.to_le_bytes());
    }
    let r = Regs::from_bytes(&b);
    assert_eq!(r.rax, 0x1000);
    assert_eq!(r.rdx, 0x1003);
    assert_eq!(r.r8, 0x1008);
    assert_eq!(r.r15, 0x100F);
    assert_eq!(r.rip, 0x1010);
    assert_eq!(r.rflags, 0x1011);
    let z = Regs::default();
    assert_eq!(z.rip, 0);
    assert_eq!(z.rflags, 0);
    assert_eq!(z.rax, 0);
}

/// A `kvm_run` page with the given exit.
fn run_page(reason: u32, direction: u8, port: u16, count: u32, data_offset: u64, data: &[u8]) -> Vec<u8> {
    let mut p = vec![0u8; 12288];
    p[run_off::EXIT_REASON..run_off::EXIT_REASON + 4].copy_from_slice(&reason.to_le_bytes());
    p[run_off::IO_DIRECTION] = direction;
    p[run_off::IO_PORT..run_off::IO_PORT + 2].copy_from_slice(&port.to_le_bytes());
    p[run_off::IO_COUNT..run_off::IO_COUNT + 4].copy_from_slice(&count.to_le_bytes());
    p[run_off::IO_DATA_OFFSET..run_off::IO_DATA_OFFSET + 8].copy_from_slice(&data_offset.to_le_bytes());
    let o = data_offset as usize;
    p[o..o + data.len()].copy_from_slice(data);
    p
}

#[test]
fn kvm_run_fields_decode() {
    let p = run_page(2, 1, 0x3f8, 1, 0x1000, b"h");
    assert_eq!(exit_reason(&p), 2);
    assert_eq!(io_exit(&p), (1, 0x3f8, 1, 0x1000));
    assert_eq!(io_data(&p, 0x1000, 1), b"h");
    assert_eq!(read_u16(&p, run_off::IO_PORT), 0x3f8);
    assert_eq!(read_u32(&p, run_off::IO_COUNT), 1);
}

#[test]
fn serial_output_is_forwarded() {
    let mut stats = RunStats::new();
    let p = run_page(2, 1, 0x3f8, 1, 0x1000, b"h");
    let r = handle_exit(&mut stats, &p);
    assert_eq!(r.unwrap(), ExitAction::SerialOut { data_offset: 0x1000, count: 1 });
    assert_eq!(stats.total_exits, 1);
    assert_eq!(stats.io_exits, 1);
}

#[test]
fn serial_input_is_requested() {
    let mut stats = RunStats::new();
    // A read from COM1.
    let p = run_page(2, 0, 0x3f8, 1, 0x1000, b"");
    assert_eq!(
        handle_exit(&mut stats, &p).unwrap(),
        ExitAction::SerialIn { data_offset: 0x1000, count: 1 }
    );
    assert_eq!(stats.total_exits, 1);
    assert_eq!(stats.io_exits, 1);
}

#[test]
fn io_on_other_ports_is_dropped() {
    let mut stats = RunStats::new();
    let p = run_page(2, 1, 0x80, 1, 0x1000, b"x");
    assert_eq!(handle_exit(&mut stats, &p).unwrap(), ExitAction::Resume);
    let p = run_page(2, 0, 0x2f8, 1, 0x1000, b"");
    assert_eq!(handle_exit(&mut stats, &p).unwrap(), ExitAction::Resume);
    assert_eq!(stats.total_exits, 2);
    assert_eq!(stats.io_exits, 2);
}

#[test]
fn io_data_bounds() {
    let p = run_page(2, 1, 0x3f8, 2, 0x1000, b"ok");
    assert_eq!(try_io_data(&p, 0x1000, 2), Some(&b"ok"[..]));
    assert_eq!(try_io_data(&p, 12286, 2), Some(&[0u8, 0][..]));
    assert_eq!(try_io_data(&p, 12287, 2), None);
    assert_eq!(try_io_data(&p, u64::MAX, 1), None);
}

#[test]
fn serial_input_lands_in_the_page() {
    let mut p = run_page(2, 0, 0x3f8, 1, 0x1000, b"");
    assert!(store_io_data(&mut p, 0x1000, b"q"));
    assert_eq!(p[0x1000], b'q');
    assert_eq!(io_data(&p, 0x1000, 1), b"q");
    let before = p.clone();
    assert!(!store_io_data(&mut p, 12287, b"ab"));
    assert_eq!(p, before);
}

#[test]
fn echo_session_round_trip() {
    let mut stats = RunStats::new();
    let mut out = Vec::new();
    for &c in b"abc" {
        let mut p = run_page(2, 0, 0x3f8, 1, 0x1000, b"");
        match handle_exit(&mut stats, &p).unwrap() {
            ExitAction::SerialIn { data_offset, count } => {
                assert_eq!(count, 1);
                assert!(store_io_data(&mut p, data_offset, &[c]));
            }
            a => panic!("unexpected {a:?}"),
        }
        // The guest writes back what it read.
        let echoed = p[0x1000];
        let p = run_page(2, 1, 0x3f8, 1, 0x1000, &[echoed]);
        match handle_exit(&mut stats, &p).unwrap() {
            ExitAction::SerialOut { data_offset, count } => {
                out.extend_from_slice(try_io_data(&p, data_offset, count).unwrap())
            }
            a => panic!("unexpected {a:?}"),
        }
    }
    assert_eq!(out, b"abc".to_vec());
    assert_eq!(stats.total_exits, 6);
    assert_eq!(stats.io_exits, 6);
}

#[test]
fn regs_encode_and_decode() {
    let r = Regs::at_entry(0x100000);
    assert_eq!(r.rip, 0x100000);
    assert_eq!(r.rflags, 2);
    assert_eq!(r.rsp, 0);
    let b = r.to_bytes();
    assert_eq!(b.len(), 144);
    assert_eq!(&b[128..136], &[0, 0, 0x10, 0, 0, 0, 0, 0]);
    assert_eq!(&b[136..144], &[2, 0, 0, 0, 0, 0, 0, 0]);
    let back = Regs::from_bytes(&b);
    assert_eq!(back.rip, 0x100000);
    assert_eq!(back.rflags, 2);
    assert_eq!(back.rax, 0);
}

#[test]
fn register_request_numbers() {
    assert_eq!(KVM_SET_REGS, 0x4090_AE82);
    assert_eq!(KVM_GET_SREGS, 0x8138_AE83);
    assert_eq!(KVM_SET_SREGS, 0x4138_AE84);
}

#[test]
fn halt_ends_the_run() {
    let mut stats = RunStats { total_exits: 27, io_exits: 27 };
    let p = run_page(5, 0, 0, 0, 0, b"");
    assert_eq!(handle_exit(&mut stats, &p).unwrap(), ExitAction::Halt);
    assert_eq!(stats.total_exits, 28);
    assert_eq!(stats.io_exits, 27);
}

#[test]
fn unsupported_exit_is_an_error() {
    let mut stats = RunStats::new();
    // KVM_EXIT_SHUTDOWN
    let p = run_page(8, 0, 0, 0, 0, b"");
    assert!(matches!(handle_exit(&mut stats, &p), Err(KvmError::UnsupportedExit(8))));
    assert_eq!(stats.total_exits, 1);
    assert_eq!(stats.io_exits, 0);
}

#[test]
fn a_whole_hello_run() {
    let msg = b"hello from nanovm (64-bit)\n";
    let mut stats = RunStats::new();
    let mut out = Vec::new();
    for &c in msg.iter() {
        let p = run_page(2, 1, 0x3f8, 1, 0x1000, &[c]);
        match handle_exit(&mut stats, &p).unwrap() {
            ExitAction::SerialOut { data_offset, count } => {
                out.extend_from_slice(io_data(&p, data_offset, count as usize))
            }
            a => panic!("unexpected {a:?}"),
        }
    }
    let p = run_page(5, 0, 0, 0, 0, b"");
    assert_eq!(handle_exit(&mut stats, &p).unwrap(), ExitAction::Halt);
    assert_eq!(out, msg.to_vec());
    assert_eq!(stats.total_exits, 28);
    assert_eq!(stats.io_exits, 27);
}
