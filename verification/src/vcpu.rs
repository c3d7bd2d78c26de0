//! The vCPU run loop's decisions: after each `KVM_RUN` the exit is decoded
//! from the `kvm_run` page and turned into the next step. Only IO and HLT
//! exits are supported; IO on COM1 is the serial console.

use vstd::prelude::*;
use crate::guest_mem::{u16_at, u32_at, u64_at};
use crate::kvm::{
    exit_reason, io_exit, run_off, KvmError, KVM_EXIT_HLT, KVM_EXIT_IO, KVM_EXIT_IO_OUT,
};
use crate::loader::COM1_PORT;

verus! {

/// Counters of the run loop.
#[derive(Debug)]
pub struct RunStats {
    pub total_exits: u64,
    pub io_exits: u64,
}

impl RunStats {
    /// IO exits are among all exits.
    pub open spec fn wf(&self) -> bool {
        self.io_exits <= self.total_exits
    }

    /// No exit seen yet.
    pub fn new() -> (s: RunStats)
        ensures
            s.total_exits == 0,
            s.io_exits == 0,
            s.wf(),
    {
        RunStats { total_exits: 0, io_exits: 0 }
    }
}

/// What the run loop does after an exit.
#[derive(Debug, PartialEq, Eq, Structural)]
pub enum ExitAction {
    /// Run the guest again.
    Resume,
    /// Write the `count` bytes at `data_offset` in `kvm_run` to the serial
    /// console (standard output), then run the guest again.
    SerialOut { data_offset: u64, count: u32 },
    /// Read `count` bytes from the serial console (standard input) into
    /// `kvm_run` at `data_offset`, then run the guest again.
    SerialIn { data_offset: u64, count: u32 },
    /// The guest halted: the run is over.
    Halt,
}

/// The action that the exit recorded in the `kvm_run` bytes `run` calls for.
pub open spec fn exit_action(run: Seq<u8>) -> Result<ExitAction, KvmError> {
    let reason = u32_at(run, run_off::EXIT_REASON as int);
    if reason == KVM_EXIT_IO {
        let data_offset = u64_at(run, run_off::IO_DATA_OFFSET as int);
        let count = u32_at(run, run_off::IO_COUNT as int);
        if u16_at(run, run_off::IO_PORT as int) != COM1_PORT {
            // IO on other ports is dropped.
            Ok(ExitAction::Resume)
        } else if run[run_off::IO_DIRECTION as int] == KVM_EXIT_IO_OUT {
            Ok(ExitAction::SerialOut { data_offset, count })
        } else {
            Ok(ExitAction::SerialIn { data_offset, count })
        }
    } else if reason == KVM_EXIT_HLT {
        Ok(ExitAction::Halt)
    } else {
        Err(KvmError::UnsupportedExit(reason))
    }
}

/// Accounts for one VM exit, whose state stands in the `kvm_run` bytes `run`,
/// and decides the next step of the run loop.
pub fn handle_exit(stats: &mut RunStats, run: &[u8]) -> (r: Result<ExitAction, KvmError>)
    requires
        old(stats).wf(),
        old(stats).total_exits < u64::MAX,
        run_off::IO_EXIT_END <= run@.len(),
    ensures
        final(stats).wf(),
        final(stats).total_exits == old(stats).total_exits + 1,
        final(stats).io_exits == old(stats).io_exits + (if u32_at(run@, run_off::EXIT_REASON as int)
            == KVM_EXIT_IO {
            1int
        } else {
            0int
        }),
        r == exit_action(run@),
        final(stats).io_exits == old(stats).io_exits + (if u32_at(run@, 8) == 2u32 { 1int } else { 0int }),
        ({
            let reason = u32_at(run@, 8);
            let port = u16_at(run@, 34);
            &&& (reason == 2u32 && port != 0x3f8u16) ==> r == Ok::<ExitAction, KvmError>(ExitAction::Resume)
            &&& reason == 2u32 ==> r is Ok
            &&& (r matches Ok(ExitAction::SerialOut { data_offset, count }) ==> {
                &&& reason == 2u32
                &&& port == 0x3f8u16
                &&& run@[32] == 1u8
                &&& data_offset == u64_at(run@, 40)
                &&& count == u32_at(run@, 36)
            })
            &&& (r matches Ok(ExitAction::SerialIn { data_offset, count }) ==> {
                &&& reason == 2u32
                &&& port == 0x3f8u16
                &&& run@[32] != 1u8
                &&& data_offset == u64_at(run@, 40)
                &&& count == u32_at(run@, 36)
            })
            &&& (reason == 2u32 && port == 0x3f8u16 && run@[32] == 1u8) ==> (r is Ok && r->Ok_0 is SerialOut)
            &&& (reason == 2u32 && port == 0x3f8u16 && run@[32] != 1u8) ==> (r is Ok && r->Ok_0 is SerialIn)
            &&& (r == Ok::<ExitAction, KvmError>(ExitAction::Halt)) == (reason == 5u32)
            &&& (reason != 2u32 && reason != 5u32) ==> (r matches Err(KvmError::UnsupportedExit(x)) && x == reason)
        }),
{
    proof {
        lemma_exit_dispatch(run@);
    }
    stats.total_exits = stats.total_exits + 1;
    let reason = exit_reason(run);
    if reason == KVM_EXIT_IO {
        let (direction, port, count, data_offset) = io_exit(run);
        stats.io_exits = stats.io_exits + 1;
        if port != COM1_PORT {
            Ok(ExitAction::Resume)
        } else if direction == KVM_EXIT_IO_OUT {
            Ok(ExitAction::SerialOut { data_offset, count })
        } else {
            Ok(ExitAction::SerialIn { data_offset, count })
        }
    } else if reason == KVM_EXIT_HLT {
        Ok(ExitAction::Halt)
    } else {
        Err(KvmError::UnsupportedExit(reason))
    }
}

/// How the run loop dispatches a VM exit, in terms of the raw `kvm_run`
/// fields (exit reason at byte 8, direction at 32, port at 34, count at 36,
/// data offset at 40; IO is reason 2, HLT reason 5, OUT direction 1, COM1 is
/// port 0x3f8): an IO exit on any port other than exactly 0x3f8 is dropped;
/// `SerialOut` comes only from an OUT on 0x3f8 and `SerialIn` only from a
/// read on 0x3f8, each with that exit's data offset and count; an IO exit is
/// never an error; the run ends exactly on reason 5; every reason other than
/// 2 and 5 is `UnsupportedExit` of that reason.
pub proof fn lemma_exit_dispatch(run: Seq<u8>)
    ensures
        ({
            let reason = u32_at(run, 8);
            let port = u16_at(run, 34);
            &&& (reason == 2u32 && port != 0x3f8u16) ==> exit_action(run) == Ok::<ExitAction, KvmError>(ExitAction::Resume)
            &&& reason == 2u32 ==> exit_action(run) is Ok
            &&& (exit_action(run) matches Ok(ExitAction::SerialOut { data_offset, count }) ==> {
                &&& reason == 2u32
                &&& port == 0x3f8u16
                &&& run[32] == 1u8
                &&& data_offset == u64_at(run, 40)
                &&& count == u32_at(run, 36)
            })
            &&& (exit_action(run) matches Ok(ExitAction::SerialIn { data_offset, count }) ==> {
                &&& reason == 2u32
                &&& port == 0x3f8u16
                &&& run[32] != 1u8
                &&& data_offset == u64_at(run, 40)
                &&& count == u32_at(run, 36)
            })
            &&& (reason == 2u32 && port == 0x3f8u16 && run[32] == 1u8) ==> (exit_action(run) is Ok && exit_action(run)->Ok_0 is SerialOut)
            &&& (reason == 2u32 && port == 0x3f8u16 && run[32] != 1u8) ==> (exit_action(run) is Ok && exit_action(run)->Ok_0 is SerialIn)
            &&& (exit_action(run) == Ok::<ExitAction, KvmError>(ExitAction::Halt)) == (reason == 5u32)
            &&& (reason != 2u32 && reason != 5u32) ==> (exit_action(run) matches Err(KvmError::UnsupportedExit(x)) && x == reason)
        }),
{
}

} // verus!
