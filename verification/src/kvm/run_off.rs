//! Field offsets in the shared `kvm_run` structure (linux/kvm.h layout).

use vstd::prelude::*;

verus! {

pub const EXIT_REASON: usize = 8;
pub const IO_DIRECTION: usize = 32;
pub const IO_PORT: usize = 34;
pub const IO_COUNT: usize = 36;
pub const IO_DATA_OFFSET: usize = 40;

/// Bytes of `kvm_run` that the exit decoding reads.
pub const IO_EXIT_END: usize = 48;

} // verus!
