//! A minimal KVM virtual machine monitor: the guest image layout, the KVM
//! ioctl request encoding, the decoding of the shared `kvm_run` page and
//! the decisions of the vCPU run loop.

pub mod guest_mem;
pub mod guest_program;
pub mod kvm;
pub mod loader;
pub mod long_mode;
pub mod paging;
pub mod vcpu;
