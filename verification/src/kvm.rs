//! The KVM interface as plain values: ioctl request numbers, the error type,
//! the decisions taken on ioctl results, and the byte layouts of the
//! structures exchanged with the kernel (`kvm_userspace_memory_region`,
//! `kvm_regs`, `kvm_run`).

pub mod run_off;

use vstd::prelude::*;
use crate::guest_mem::{read_u16, read_u32, read_u64, u16_at, u32_at, u64_at, update_bytes, write_bytes};

verus! {

pub const KVMIO: u64 = 0xAE;

/// `_IOC` direction: no data.
pub const IOC_NONE: u64 = 0;
/// `_IOC` direction: userspace writes to the kernel.
pub const IOC_WRITE: u64 = 1;
/// `_IOC` direction: userspace reads from the kernel.
pub const IOC_READ: u64 = 2;

/// The Linux `_IOC(dir, KVMIO, nr, size)` request number.
pub open spec fn kvm_ioc(dir: u64, nr: u64, size: u64) -> u64 {
    (dir << 30) | (size << 16) | (KVMIO << 8) | nr
}

// _IO(KVMIO, nr): requests without an argument structure.
pub const KVM_GET_API_VERSION: u64 = (KVMIO << 8) | 0x00;
pub const KVM_CREATE_VM: u64 = (KVMIO << 8) | 0x01;
pub const KVM_GET_VCPU_MMAP_SIZE: u64 = (KVMIO << 8) | 0x04;
pub const KVM_CREATE_VCPU: u64 = (KVMIO << 8) | 0x41;
pub const KVM_RUN: u64 = (KVMIO << 8) | 0x80;

/// _IOW(KVMIO, 0x46, kvm_userspace_memory_region): a 32-byte structure.
pub const KVM_SET_USER_MEMORY_REGION: u64 = 0x4000_0000 | (32 << 16) | (KVMIO << 8) | 0x46;

/// _IOR(KVMIO, 0x81, kvm_regs): 18 × u64 = 144 bytes.
pub const KVM_GET_REGS: u64 = 0x8000_0000 | (144 << 16) | (KVMIO << 8) | 0x81;

/// _IOW(KVMIO, 0x82, kvm_regs).
pub const KVM_SET_REGS: u64 = 0x4000_0000 | (144 << 16) | (KVMIO << 8) | 0x82;

/// _IOR(KVMIO, 0x83, kvm_sregs): 312 bytes.
pub const KVM_GET_SREGS: u64 = 0x8000_0000 | (312 << 16) | (KVMIO << 8) | 0x83;

/// _IOW(KVMIO, 0x84, kvm_sregs).
pub const KVM_SET_SREGS: u64 = 0x4000_0000 | (312 << 16) | (KVMIO << 8) | 0x84;

/// The only KVM API version this monitor speaks.
pub const KVM_API_VERSION: i32 = 12;

pub const KVM_EXIT_IO: u32 = 2;
pub const KVM_EXIT_HLT: u32 = 5;

pub const KVM_EXIT_IO_OUT: u8 = 1;

/// Size in bytes of `struct kvm_userspace_memory_region`.
pub const USER_MEMORY_REGION_SIZE: usize = 32;

/// Size in bytes of `struct kvm_regs`.
pub const REGS_SIZE: usize = 144;

/// Size in bytes of `struct kvm_sregs`.
pub const SREGS_SIZE: usize = 312;

/// Failures of the monitor. An operating-system error is carried as its
/// `errno` value.
#[derive(Debug)]
pub enum KvmError {
    Ioctl(&'static str, i32),
    UnsupportedApiVersion(u32),
    Mmap(i32),
    UnsupportedExit(u32),
}

/// Accepts the value returned by `KVM_GET_API_VERSION`.
pub fn check_api_version(ver: i32) -> (r: Result<(), KvmError>)
    ensures
        ver == KVM_API_VERSION ==> r is Ok,
        ver != KVM_API_VERSION ==> (r matches Err(KvmError::UnsupportedApiVersion(v)) && v == ver as u32),
        r is Ok <==> ver == 12,
{
    if ver != KVM_API_VERSION {
        return Err(KvmError::UnsupportedApiVersion(ver as u32));
    }
    Ok(())
}

/// Turns the return value of the ioctl `what` into its result: a negative
/// value is a failure with the `errno` that the call left behind.
pub fn check_ioctl(ret: i32, what: &'static str, errno: i32) -> (r: Result<i32, KvmError>)
    ensures
        ret >= 0 ==> r == Ok::<i32, KvmError>(ret),
        ret < 0 ==> (r matches Err(KvmError::Ioctl(w, e)) && w == what && e == errno),
{
    if ret < 0 {
        return Err(KvmError::Ioctl(what, errno));
    }
    Ok(ret)
}

/// The size of a vCPU's `kvm_run` mapping from the value returned by
/// `KVM_GET_VCPU_MMAP_SIZE`; zero or less is a failure.
pub fn check_vcpu_mmap_size(ret: i32, errno: i32) -> (r: Result<usize, KvmError>)
    ensures
        ret > 0 ==> r == Ok::<usize, KvmError>(ret as usize),
        ret <= 0 ==> (r matches Err(KvmError::Ioctl(w, e)) && w == "KVM_GET_VCPU_MMAP_SIZE" && e == errno),
{
    if ret <= 0 {
        return Err(KvmError::Ioctl("KVM_GET_VCPU_MMAP_SIZE", errno));
    }
    Ok(ret as usize)
}

/// What to do after one `KVM_RUN` call.
#[derive(Debug)]
pub enum RunOutcome {
    /// The guest exited; the reason stands in `kvm_run`.
    Exited,
    /// The call was interrupted by a signal; run again.
    Retry,
    /// The call failed.
    Failed(KvmError),
}

/// Classifies the result of `KVM_RUN`: `interrupted` tells whether the error
/// left behind is `EINTR`, `errno` is its number.
pub fn run_outcome(ret: i32, interrupted: bool, errno: i32) -> (r: RunOutcome)
    ensures
        ret >= 0 ==> r is Exited,
        ret < 0 && interrupted ==> r is Retry,
        ret < 0 && !interrupted ==> (r matches RunOutcome::Failed(KvmError::Ioctl(w, e)) && w == "KVM_RUN" && e == errno),
{
    if ret >= 0 {
        RunOutcome::Exited
    } else if interrupted {
        RunOutcome::Retry
    } else {
        RunOutcome::Failed(KvmError::Ioctl("KVM_RUN", errno))
    }
}

} // verus!

verus! {

/// The request numbers are the `_IOC` encodings of their direction, number
/// and argument size.
pub proof fn lemma_request_numbers()
    ensures
        KVM_GET_API_VERSION == kvm_ioc(IOC_NONE, 0x00, 0),
        KVM_CREATE_VM == kvm_ioc(IOC_NONE, 0x01, 0),
        KVM_GET_VCPU_MMAP_SIZE == kvm_ioc(IOC_NONE, 0x04, 0),
        KVM_CREATE_VCPU == kvm_ioc(IOC_NONE, 0x41, 0),
        KVM_RUN == kvm_ioc(IOC_NONE, 0x80, 0),
        KVM_SET_USER_MEMORY_REGION == kvm_ioc(IOC_WRITE, 0x46, USER_MEMORY_REGION_SIZE as u64),
        KVM_GET_REGS == kvm_ioc(IOC_READ, 0x81, REGS_SIZE as u64),
        KVM_SET_REGS == kvm_ioc(IOC_WRITE, 0x82, REGS_SIZE as u64),
        KVM_GET_SREGS == kvm_ioc(IOC_READ, 0x83, SREGS_SIZE as u64),
        KVM_SET_SREGS == kvm_ioc(IOC_WRITE, 0x84, SREGS_SIZE as u64),
{
    assert((0u64 << 30) | (0u64 << 16) | (0xAEu64 << 8) | 0x00 == (0xAEu64 << 8) | 0x00) by (bit_vector);
    assert((0u64 << 30) | (0u64 << 16) | (0xAEu64 << 8) | 0x01 == (0xAEu64 << 8) | 0x01) by (bit_vector);
    assert((0u64 << 30) | (0u64 << 16) | (0xAEu64 << 8) | 0x04 == (0xAEu64 << 8) | 0x04) by (bit_vector);
    assert((0u64 << 30) | (0u64 << 16) | (0xAEu64 << 8) | 0x41 == (0xAEu64 << 8) | 0x41) by (bit_vector);
    assert((0u64 << 30) | (0u64 << 16) | (0xAEu64 << 8) | 0x80 == (0xAEu64 << 8) | 0x80) by (bit_vector);
    assert((1u64 << 30) | (32u64 << 16) | (0xAEu64 << 8) | 0x46
        == 0x4000_0000u64 | (32u64 << 16) | (0xAEu64 << 8) | 0x46) by (bit_vector);
    assert((2u64 << 30) | (144u64 << 16) | (0xAEu64 << 8) | 0x81
        == 0x8000_0000u64 | (144u64 << 16) | (0xAEu64 << 8) | 0x81) by (bit_vector);
    assert((1u64 << 30) | (144u64 << 16) | (0xAEu64 << 8) | 0x82
        == 0x4000_0000u64 | (144u64 << 16) | (0xAEu64 << 8) | 0x82) by (bit_vector);
    assert((2u64 << 30) | (312u64 << 16) | (0xAEu64 << 8) | 0x83
        == 0x8000_0000u64 | (312u64 << 16) | (0xAEu64 << 8) | 0x83) by (bit_vector);
    assert((1u64 << 30) | (312u64 << 16) | (0xAEu64 << 8) | 0x84
        == 0x4000_0000u64 | (312u64 << 16) | (0xAEu64 << 8) | 0x84) by (bit_vector);
}

/// The request numbers as the kernel's `linux/kvm.h` defines them.
pub proof fn lemma_request_values()
    ensures
        KVM_GET_API_VERSION == 0xAE00,
        KVM_CREATE_VM == 0xAE01,
        KVM_GET_VCPU_MMAP_SIZE == 0xAE04,
        KVM_CREATE_VCPU == 0xAE41,
        KVM_RUN == 0xAE80,
        KVM_SET_USER_MEMORY_REGION == 0x4020_AE46,
        KVM_GET_REGS == 0x8090_AE81,
        KVM_SET_REGS == 0x4090_AE82,
        KVM_GET_SREGS == 0x8138_AE83,
        KVM_SET_SREGS == 0x4138_AE84,
{
    assert((0xAEu64 << 8) | 0x00 == 0xAE00u64) by (bit_vector);
    assert((0xAEu64 << 8) | 0x01 == 0xAE01u64) by (bit_vector);
    assert((0xAEu64 << 8) | 0x04 == 0xAE04u64) by (bit_vector);
    assert((0xAEu64 << 8) | 0x41 == 0xAE41u64) by (bit_vector);
    assert((0xAEu64 << 8) | 0x80 == 0xAE80u64) by (bit_vector);
    assert(0x4000_0000u64 | (32u64 << 16) | (0xAEu64 << 8) | 0x46 == 0x4020_AE46u64) by (bit_vector);
    assert(0x8000_0000u64 | (144u64 << 16) | (0xAEu64 << 8) | 0x81 == 0x8090_AE81u64) by (bit_vector);
    assert(0x4000_0000u64 | (144u64 << 16) | (0xAEu64 << 8) | 0x82 == 0x4090_AE82u64) by (bit_vector);
    assert(0x8000_0000u64 | (312u64 << 16) | (0xAEu64 << 8) | 0x83 == 0x8138_AE83u64) by (bit_vector);
    assert(0x4000_0000u64 | (312u64 << 16) | (0xAEu64 << 8) | 0x84 == 0x4138_AE84u64) by (bit_vector);
}

/// An `_IOC` request number gives back its direction, type, number and size.
pub proof fn lemma_ioc_fields(dir: u64, nr: u64, size: u64)
    requires
        dir < 4,
        nr < 0x100,
        size < 0x4000,
    ensures
        kvm_ioc(dir, nr, size) >> 30 == dir,
        (kvm_ioc(dir, nr, size) >> 16) & 0x3fff == size,
        (kvm_ioc(dir, nr, size) >> 8) & 0xff == KVMIO,
        kvm_ioc(dir, nr, size) & 0xff == nr,
{
    let r = kvm_ioc(dir, nr, size);
    assert(r >> 30 == dir && (r >> 16) & 0x3fff == size && (r >> 8) & 0xff == 0xAE && r & 0xff == nr)
        by (bit_vector)
        requires
            dir < 4,
            nr < 0x100,
            size < 0x4000,
            r == (dir << 30) | (size << 16) | (0xAEu64 << 8) | nr,
    ;
}

} // verus!

verus! {

/// x86 general-purpose registers, as `KVM_GET_REGS` returns them.
#[derive(Debug)]
pub struct Regs {
    pub rax: u64,
    pub rbx: u64,
    pub rcx: u64,
    pub rdx: u64,
    pub rsi: u64,
    pub rdi: u64,
    pub rsp: u64,
    pub rbp: u64,
    pub r8: u64,
    pub r9: u64,
    pub r10: u64,
    pub r11: u64,
    pub r12: u64,
    pub r13: u64,
    pub r14: u64,
    pub r15: u64,
    pub rip: u64,
    pub rflags: u64,
}

impl Regs {
    /// The registers in `struct kvm_regs` order.
    pub open spec fn fields(&self) -> Seq<u64> {
        seq![
            self.rax, self.rbx, self.rcx, self.rdx, self.rsi, self.rdi, self.rsp, self.rbp,
            self.r8, self.r9, self.r10, self.r11, self.r12, self.r13, self.r14, self.r15,
            self.rip, self.rflags,
        ]
    }

    /// Decodes a `struct kvm_regs`: 18 little-endian `u64` in field order.
    pub fn from_bytes(b: &[u8]) -> (r: Regs)
        requires
            REGS_SIZE <= b@.len(),
        ensures
            r.fields().len() == 18,
            forall|k: int| 0 <= k < 18 ==> #[trigger] r.fields()[k] == u64_at(b@, 8 * k),
            r.rax == u64_at(b@, 0),
            r.rbx == u64_at(b@, 8),
            r.rcx == u64_at(b@, 16),
            r.rdx == u64_at(b@, 24),
            r.rsi == u64_at(b@, 32),
            r.rdi == u64_at(b@, 40),
            r.rsp == u64_at(b@, 48),
            r.rbp == u64_at(b@, 56),
            r.r8 == u64_at(b@, 64),
            r.r9 == u64_at(b@, 72),
            r.r10 == u64_at(b@, 80),
            r.r11 == u64_at(b@, 88),
            r.r12 == u64_at(b@, 96),
            r.r13 == u64_at(b@, 104),
            r.r14 == u64_at(b@, 112),
            r.r15 == u64_at(b@, 120),
            r.rip == u64_at(b@, 128),
            r.rflags == u64_at(b@, 136),
    {
        let r = Regs {
            rax: read_u64(b, 0),
            rbx: read_u64(b, 8),
            rcx: read_u64(b, 16),
            rdx: read_u64(b, 24),
            rsi: read_u64(b, 32),
            rdi: read_u64(b, 40),
            rsp: read_u64(b, 48),
            rbp: read_u64(b, 56),
            r8: read_u64(b, 64),
            r9: read_u64(b, 72),
            r10: read_u64(b, 80),
            r11: read_u64(b, 88),
            r12: read_u64(b, 96),
            r13: read_u64(b, 104),
            r14: read_u64(b, 112),
            r15: read_u64(b, 120),
            rip: read_u64(b, 128),
            rflags: read_u64(b, 136),
        };
        assert forall|k: int| 0 <= k < 18 implies #[trigger] r.fields()[k] == u64_at(b@, 8 * k) by {
            if k == 0 {} else if k == 1 {} else if k == 2 {} else if k == 3 {} else if k == 4 {}
            else if k == 5 {} else if k == 6 {} else if k == 7 {} else if k == 8 {} else if k == 9 {}
            else if k == 10 {} else if k == 11 {} else if k == 12 {} else if k == 13 {}
            else if k == 14 {} else if k == 15 {} else if k == 16 {} else {}
        }
        r
    }
}

/// Each word of `words` as 8 little-endian bytes, in order.
pub open spec fn le_words(words: Seq<u64>) -> Seq<u8> {
    Seq::new(8 * words.len(), |i: int| vstd::bytes::spec_u64_to_le_bytes(words[i / 8])[i % 8])
}

/// Word `k` of `le_words(words)` reads back as `words[k]`.
pub proof fn lemma_le_words_read_back(words: Seq<u64>, k: int)
    requires
        0 <= k < words.len(),
    ensures
        u64_at(le_words(words), 8 * k) == words[k],
{
    vstd::bytes::lemma_auto_spec_u64_to_from_le_bytes();
    let b = le_words(words);
    assert forall|j: int| 0 <= j < 8 implies #[trigger] b.subrange(8 * k, 8 * k + 8)[j]
        == vstd::bytes::spec_u64_to_le_bytes(words[k])[j] by {
        assert((8 * k + j) / 8 == k);
        assert((8 * k + j) % 8 == j);
    }
    assert(b.subrange(8 * k, 8 * k + 8) =~= vstd::bytes::spec_u64_to_le_bytes(words[k]));
}

impl Regs {
    /// The registers to start the guest at `entry`: RIP at the entry point,
    /// RFLAGS with only its always-one bit 1 set, all others zero.
    pub fn at_entry(entry: u64) -> (r: Regs)
        ensures
            r.fields() == Seq::new(16, |k: int| 0u64) + seq![entry, 0x2u64],
            r.rip == entry,
            r.rflags == 0x2,
            r.rax == 0 && r.rbx == 0 && r.rcx == 0 && r.rdx == 0,
            r.rsi == 0 && r.rdi == 0 && r.rsp == 0 && r.rbp == 0,
            r.r8 == 0 && r.r9 == 0 && r.r10 == 0 && r.r11 == 0,
            r.r12 == 0 && r.r13 == 0 && r.r14 == 0 && r.r15 == 0,
    {
        let r = Regs {
            rax: 0,
            rbx: 0,
            rcx: 0,
            rdx: 0,
            rsi: 0,
            rdi: 0,
            rsp: 0,
            rbp: 0,
            r8: 0,
            r9: 0,
            r10: 0,
            r11: 0,
            r12: 0,
            r13: 0,
            r14: 0,
            r15: 0,
            rip: entry,
            rflags: 0x2,
        };
        assert(r.fields() =~= Seq::new(16, |k: int| 0u64) + seq![entry, 0x2u64]);
        r
    }

    /// Encodes the registers as a `struct kvm_regs`.
    pub fn to_bytes(&self) -> (b: Vec<u8>)
        ensures
            b@ == le_words(self.fields()),
            b@.len() == REGS_SIZE,
            u64_at(b@, 0) == self.rax,
            u64_at(b@, 8) == self.rbx,
            u64_at(b@, 16) == self.rcx,
            u64_at(b@, 24) == self.rdx,
            u64_at(b@, 32) == self.rsi,
            u64_at(b@, 40) == self.rdi,
            u64_at(b@, 48) == self.rsp,
            u64_at(b@, 56) == self.rbp,
            u64_at(b@, 64) == self.r8,
            u64_at(b@, 72) == self.r9,
            u64_at(b@, 80) == self.r10,
            u64_at(b@, 88) == self.r11,
            u64_at(b@, 96) == self.r12,
            u64_at(b@, 104) == self.r13,
            u64_at(b@, 112) == self.r14,
            u64_at(b@, 120) == self.r15,
            u64_at(b@, 128) == self.rip,
            u64_at(b@, 136) == self.rflags,
    {
        let mut f: Vec<u64> = Vec::new();
        f.push(self.rax);
        f.push(self.rbx);
        f.push(self.rcx);
        f.push(self.rdx);
        f.push(self.rsi);
        f.push(self.rdi);
        f.push(self.rsp);
        f.push(self.rbp);
        f.push(self.r8);
        f.push(self.r9);
        f.push(self.r10);
        f.push(self.r11);
        f.push(self.r12);
        f.push(self.r13);
        f.push(self.r14);
        f.push(self.r15);
        f.push(self.rip);
        f.push(self.rflags);
        assert(f@ =~= self.fields());
        let mut b: Vec<u8> = Vec::new();
        let mut k: usize = 0;
        while k < f.len()
            invariant
                0 <= k <= f@.len(),
                f@ == self.fields(),
                b@ == le_words(f@.subrange(0, k as int)),
            decreases f@.len() - k,
        {
            proof {
                vstd::bytes::lemma_auto_spec_u64_to_from_le_bytes();
            }
            let mut w = vstd::bytes::u64_to_le_bytes(f[k]);
            let ghost prev = b@;
            b.append(&mut w);
            proof {
                let p = f@.subrange(0, k as int);
                let q = f@.subrange(0, k + 1);
                assert forall|i: int| 0 <= i < 8 * q.len() implies #[trigger] le_words(q)[i] == b@[i] by {
                    if i < 8 * k {
                        assert(i / 8 < k);
                        assert(q[i / 8] == p[i / 8]);
                    } else {
                        assert(i / 8 == k);
                        assert(i % 8 == i - 8 * k);
                    }
                }
                assert(b@ =~= le_words(q));
            }
            k = k + 1;
        }
        assert(f@.subrange(0, 18) =~= f@);
        proof {
            assert forall|k: int| 0 <= k < 18 implies #[trigger] u64_at(b@, 8 * k) == f@[k] by {
                lemma_le_words_read_back(f@, k);
            }
            assert(u64_at(b@, 8 * 0int) == f@[0]);
            assert(u64_at(b@, 8 * 1int) == f@[1]);
            assert(u64_at(b@, 8 * 2int) == f@[2]);
            assert(u64_at(b@, 8 * 3int) == f@[3]);
            assert(u64_at(b@, 8 * 4int) == f@[4]);
            assert(u64_at(b@, 8 * 5int) == f@[5]);
            assert(u64_at(b@, 8 * 6int) == f@[6]);
            assert(u64_at(b@, 8 * 7int) == f@[7]);
            assert(u64_at(b@, 8 * 8int) == f@[8]);
            assert(u64_at(b@, 8 * 9int) == f@[9]);
            assert(u64_at(b@, 8 * 10int) == f@[10]);
            assert(u64_at(b@, 8 * 11int) == f@[11]);
            assert(u64_at(b@, 8 * 12int) == f@[12]);
            assert(u64_at(b@, 8 * 13int) == f@[13]);
            assert(u64_at(b@, 8 * 14int) == f@[14]);
            assert(u64_at(b@, 8 * 15int) == f@[15]);
            assert(u64_at(b@, 8 * 16int) == f@[16]);
            assert(u64_at(b@, 8 * 17int) == f@[17]);
        }
        b
    }
}

/// `Regs::fields` lists the registers in the order of the kernel's
/// `struct kvm_regs`: rax, rbx, rcx, rdx, rsi, rdi, rsp, rbp, r8..r15, rip,
/// rflags; so register k sits at byte offset 8 * k of the structure.
pub proof fn lemma_regs_kernel_order(r: Regs)
    ensures
        r.fields().len() == 18,
        r.fields()[0] == r.rax,
        r.fields()[1] == r.rbx,
        r.fields()[2] == r.rcx,
        r.fields()[3] == r.rdx,
        r.fields()[4] == r.rsi,
        r.fields()[5] == r.rdi,
        r.fields()[6] == r.rsp,
        r.fields()[7] == r.rbp,
        r.fields()[8] == r.r8,
        r.fields()[9] == r.r9,
        r.fields()[10] == r.r10,
        r.fields()[11] == r.r11,
        r.fields()[12] == r.r12,
        r.fields()[13] == r.r13,
        r.fields()[14] == r.r14,
        r.fields()[15] == r.r15,
        r.fields()[16] == r.rip,
        r.fields()[17] == r.rflags,
{
}

/// Encoding then decoding a register set gives back each named register.
pub proof fn lemma_regs_named_round_trip(r: Regs)
    ensures
        u64_at(le_words(r.fields()), 0) == r.rax,
        u64_at(le_words(r.fields()), 8) == r.rbx,
        u64_at(le_words(r.fields()), 16) == r.rcx,
        u64_at(le_words(r.fields()), 24) == r.rdx,
        u64_at(le_words(r.fields()), 32) == r.rsi,
        u64_at(le_words(r.fields()), 40) == r.rdi,
        u64_at(le_words(r.fields()), 48) == r.rsp,
        u64_at(le_words(r.fields()), 56) == r.rbp,
        u64_at(le_words(r.fields()), 64) == r.r8,
        u64_at(le_words(r.fields()), 72) == r.r9,
        u64_at(le_words(r.fields()), 80) == r.r10,
        u64_at(le_words(r.fields()), 88) == r.r11,
        u64_at(le_words(r.fields()), 96) == r.r12,
        u64_at(le_words(r.fields()), 104) == r.r13,
        u64_at(le_words(r.fields()), 112) == r.r14,
        u64_at(le_words(r.fields()), 120) == r.r15,
        u64_at(le_words(r.fields()), 128) == r.rip,
        u64_at(le_words(r.fields()), 136) == r.rflags,
{
    lemma_le_words_read_back(r.fields(), 0);
    lemma_le_words_read_back(r.fields(), 1);
    lemma_le_words_read_back(r.fields(), 2);
    lemma_le_words_read_back(r.fields(), 3);
    lemma_le_words_read_back(r.fields(), 4);
    lemma_le_words_read_back(r.fields(), 5);
    lemma_le_words_read_back(r.fields(), 6);
    lemma_le_words_read_back(r.fields(), 7);
    lemma_le_words_read_back(r.fields(), 8);
    lemma_le_words_read_back(r.fields(), 9);
    lemma_le_words_read_back(r.fields(), 10);
    lemma_le_words_read_back(r.fields(), 11);
    lemma_le_words_read_back(r.fields(), 12);
    lemma_le_words_read_back(r.fields(), 13);
    lemma_le_words_read_back(r.fields(), 14);
    lemma_le_words_read_back(r.fields(), 15);
    lemma_le_words_read_back(r.fields(), 16);
    lemma_le_words_read_back(r.fields(), 17);
}

/// Decoding the encoding of a register set gives back every register.
pub proof fn lemma_regs_round_trip(r: Regs, k: int)
    requires
        0 <= k < 18,
    ensures
        u64_at(le_words(r.fields()), 8 * k) == r.fields()[k],
{
    lemma_le_words_read_back(r.fields(), k);
}

impl Default for Regs {
    fn default() -> (r: Regs)
        ensures
            forall|k: int| 0 <= k < 18 ==> #[trigger] r.fields()[k] == 0,
            r.rax == 0 && r.rbx == 0 && r.rcx == 0 && r.rdx == 0,
            r.rsi == 0 && r.rdi == 0 && r.rsp == 0 && r.rbp == 0,
            r.r8 == 0 && r.r9 == 0 && r.r10 == 0 && r.r11 == 0,
            r.r12 == 0 && r.r13 == 0 && r.r14 == 0 && r.r15 == 0,
            r.rip == 0 && r.rflags == 0,
    {
        Regs {
            rax: 0,
            rbx: 0,
            rcx: 0,
            rdx: 0,
            rsi: 0,
            rdi: 0,
            rsp: 0,
            rbp: 0,
            r8: 0,
            r9: 0,
            r10: 0,
            r11: 0,
            r12: 0,
            r13: 0,
            r14: 0,
            r15: 0,
            rip: 0,
            rflags: 0,
        }
    }
}

/// `struct kvm_userspace_memory_region`: host memory at `userspace_addr`
/// mapped into the guest physical address space at `guest_phys_addr`.
#[derive(Debug)]
pub struct UserMemoryRegion {
    pub slot: u32,
    pub flags: u32,
    pub guest_phys_addr: u64,
    pub memory_size: u64,
    pub userspace_addr: u64,
}

impl UserMemoryRegion {
    /// The region that maps `len` bytes of host memory at `userspace_addr` to
    /// guest physical address `guest_phys` in memory slot `slot`.
    pub fn new(slot: u32, guest_phys: u64, len: usize, userspace_addr: u64) -> (r: UserMemoryRegion)
        ensures
            r.slot == slot,
            r.flags == 0,
            r.guest_phys_addr == guest_phys,
            r.memory_size == len,
            r.userspace_addr == userspace_addr,
    {
        UserMemoryRegion { slot, flags: 0, guest_phys_addr: guest_phys, memory_size: len as u64, userspace_addr }
    }

    /// The 32-byte little-endian layout of the structure.
    pub open spec fn layout(&self) -> Seq<u8> {
        vstd::bytes::spec_u32_to_le_bytes(self.slot) + vstd::bytes::spec_u32_to_le_bytes(self.flags)
            + vstd::bytes::spec_u64_to_le_bytes(self.guest_phys_addr)
            + vstd::bytes::spec_u64_to_le_bytes(self.memory_size)
            + vstd::bytes::spec_u64_to_le_bytes(self.userspace_addr)
    }

    /// Encodes the structure as the kernel reads it.
    pub fn to_bytes(&self) -> (b: Vec<u8>)
        ensures
            b@ == self.layout(),
            b@.len() == USER_MEMORY_REGION_SIZE,
            u32_at(b@, 0) == self.slot,
            u32_at(b@, 4) == self.flags,
            u64_at(b@, 8) == self.guest_phys_addr,
            u64_at(b@, 16) == self.memory_size,
            u64_at(b@, 24) == self.userspace_addr,
    {
        proof {
            vstd::bytes::lemma_auto_spec_u32_to_from_le_bytes();
            vstd::bytes::lemma_auto_spec_u64_to_from_le_bytes();
        }
        let mut b = vstd::bytes::u32_to_le_bytes(self.slot);
        let mut flags = vstd::bytes::u32_to_le_bytes(self.flags);
        b.append(&mut flags);
        let mut gpa = vstd::bytes::u64_to_le_bytes(self.guest_phys_addr);
        b.append(&mut gpa);
        let mut size = vstd::bytes::u64_to_le_bytes(self.memory_size);
        b.append(&mut size);
        let mut uaddr = vstd::bytes::u64_to_le_bytes(self.userspace_addr);
        b.append(&mut uaddr);
        proof {
            lemma_region_layout(*self);
        }
        b
    }
}

/// Each field of a memory region reads back from its encoding at its offset.
pub proof fn lemma_region_layout(r: UserMemoryRegion)
    ensures
        u32_at(r.layout(), 0) == r.slot,
        u32_at(r.layout(), 4) == r.flags,
        u64_at(r.layout(), 8) == r.guest_phys_addr,
        u64_at(r.layout(), 16) == r.memory_size,
        u64_at(r.layout(), 24) == r.userspace_addr,
{
    vstd::bytes::lemma_auto_spec_u32_to_from_le_bytes();
    vstd::bytes::lemma_auto_spec_u64_to_from_le_bytes();
    let l = r.layout();
    assert(l.subrange(0, 4) =~= vstd::bytes::spec_u32_to_le_bytes(r.slot));
    assert(l.subrange(4, 8) =~= vstd::bytes::spec_u32_to_le_bytes(r.flags));
    assert(l.subrange(8, 16) =~= vstd::bytes::spec_u64_to_le_bytes(r.guest_phys_addr));
    assert(l.subrange(16, 24) =~= vstd::bytes::spec_u64_to_le_bytes(r.memory_size));
    assert(l.subrange(24, 32) =~= vstd::bytes::spec_u64_to_le_bytes(r.userspace_addr));
}

/// The `exit_reason` field of a `kvm_run` page.
pub fn exit_reason(run: &[u8]) -> (r: u32)
    requires
        run_off::EXIT_REASON + 4 <= run@.len(),
    ensures
        r == u32_at(run@, run_off::EXIT_REASON as int),
        r == u32_at(run@, 8),
{
    read_u32(run, run_off::EXIT_REASON)
}

/// The `(direction, port, count, data_offset)` of a `KVM_EXIT_IO` exit.
pub fn io_exit(run: &[u8]) -> (r: (u8, u16, u32, u64))
    requires
        run_off::IO_EXIT_END <= run@.len(),
    ensures
        r.0 == run@[run_off::IO_DIRECTION as int],
        r.1 == u16_at(run@, run_off::IO_PORT as int),
        r.2 == u32_at(run@, run_off::IO_COUNT as int),
        r.3 == u64_at(run@, run_off::IO_DATA_OFFSET as int),
        r == (run@[32], u16_at(run@, 34), u32_at(run@, 36), u64_at(run@, 40)),
{
    let direction = run[run_off::IO_DIRECTION];
    let port = read_u16(run, run_off::IO_PORT);
    let count = read_u32(run, run_off::IO_COUNT);
    let data_offset = read_u64(run, run_off::IO_DATA_OFFSET);
    (direction, port, count, data_offset)
}

/// The data of a `KVM_EXIT_IO` exit: `count` bytes at `offset` from the start
/// of the `kvm_run` page.
pub fn io_data(run: &[u8], offset: u64, count: usize) -> (d: &[u8])
    requires
        offset + count <= run@.len(),
    ensures
        d@ == run@.subrange(offset as int, offset + count),
{
    let len = run.len();
    let start = offset as usize;
    &run[start..start + count]
}

/// The data of a `KVM_EXIT_IO` exit when it lies inside the `kvm_run` page,
/// `None` otherwise.
pub fn try_io_data(run: &[u8], offset: u64, count: u32) -> (d: Option<&[u8]>)
    ensures
        offset + count <= run@.len() ==> (d matches Some(s) && s@ == run@.subrange(offset as int, offset + count)),
        offset + count > run@.len() ==> d is None,
{
    let len = run.len();
    if offset > len as u64 || count as u64 > len as u64 - offset {
        return None;
    }
    Some(io_data(run, offset, count as usize))
}

/// Places `data`, the answer to a port read, at `offset` in the `kvm_run`
/// page, where the guest's `in` takes it from. Returns `false`, leaving the
/// page untouched, when it does not fit.
pub fn store_io_data(run: &mut [u8], offset: u64, data: &[u8]) -> (ok: bool)
    ensures
        ok == (offset + data@.len() <= old(run)@.len()),
        ok ==> final(run)@ == update_bytes(old(run)@, offset as int, data@),
        !ok ==> final(run)@ == old(run)@,
{
    let len = run.len();
    let n = data.len();
    if offset > len as u64 || n as u64 > len as u64 - offset {
        return false;
    }
    write_bytes(run, offset as usize, data);
    true
}

} // verus!
