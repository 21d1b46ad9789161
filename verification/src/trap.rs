//! The exception taxonomy of the hart and the delivery of a trap.

use vstd::prelude::*;
use crate::cpu::{Cpu, Mode};
use crate::csr::{
    get_bit, trap_mstatus, trap_sstatus, MCAUSE, MEDELEG, MEPC, MSTATUS, MTVAL, MTVEC, SCAUSE,
    SEPC, SSTATUS, STVAL, STVEC,
};

verus! {

/// Every failure the hart can observe. There is no other error channel.
#[derive(Debug, Clone, Copy, PartialEq, Eq, Structural)]
pub enum Exception {
    InstructionAddressMisaligned,
    InstructionAccessFault,
    IllegalInstruction,
    Breakpoint,
    LoadAddressMisaligned,
    LoadAccessFault,
    StoreAMOAddressMisaligned,
    StoreAMOAccessFault,
    EnvironmentCallFromUMode,
    EnvironmentCallFromSMode,
    EnvironmentCallFromMMode,
    InstructionPageFault,
    LoadPageFault,
    StoreAMOPageFault,
}

impl Exception {
    /// The exceptions that end a run instead of being vectored to a handler.
    pub open spec fn fatal(self) -> bool {
        self == Exception::InstructionAddressMisaligned
            || self == Exception::InstructionAccessFault
            || self == Exception::LoadAccessFault
            || self == Exception::StoreAMOAddressMisaligned
            || self == Exception::StoreAMOAccessFault
    }

    /// The architectural exception code.
    pub open spec fn code(self) -> u64 {
        match self {
            Exception::InstructionAddressMisaligned => 0,
            Exception::InstructionAccessFault => 1,
            Exception::IllegalInstruction => 2,
            Exception::Breakpoint => 3,
            Exception::LoadAddressMisaligned => 4,
            Exception::LoadAccessFault => 5,
            Exception::StoreAMOAddressMisaligned => 6,
            Exception::StoreAMOAccessFault => 7,
            Exception::EnvironmentCallFromUMode => 8,
            Exception::EnvironmentCallFromSMode => 9,
            Exception::EnvironmentCallFromMMode => 11,
            Exception::InstructionPageFault => 12,
            Exception::LoadPageFault => 13,
            Exception::StoreAMOPageFault => 15,
        }
    }

    pub fn is_fatal(&self) -> (fatal: bool)
        ensures
            fatal == self.fatal(),
    {
        match self {
            Exception::InstructionAddressMisaligned
            | Exception::InstructionAccessFault
            | Exception::LoadAccessFault
            | Exception::StoreAMOAddressMisaligned
            | Exception::StoreAMOAccessFault => true,
            _ => false,
        }
    }
}

/// Something that can be delivered to the hart as a trap.
pub trait Trap {
    /// The number that identifies the cause.
    spec fn cause(&self) -> u64;

    fn exception_num(&self) -> (number: u64)
        ensures
            number == self.cause(),
    ;

    /// Delivers the trap: to supervisor mode where the hart runs below machine
    /// mode and `medeleg` delegates the cause, else to machine mode. The
    /// program counter of `cpu` must already point past the instruction that
    /// raised it.
    fn handle_trap(&self, cpu: &mut Cpu)
        ensures
            final(cpu)@ == old(cpu)@.trap(self.cause()),
    {
        let old_pc = cpu.pc.wrapping_sub(4);
        let except_num = self.exception_num();
        let mode = cpu.curr_mode;
        if mode.bits() <= Mode::Supervisor.bits() && except_num < 64 && get_bit(
            cpu.load_csr(MEDELEG),
            except_num,
        ) {
            let from_supervisor = match mode {
                Mode::Supervisor => true,
                _ => false,
            };
            cpu.curr_mode = Mode::Supervisor;
            cpu.store_csr(SEPC, old_pc & !1u64);
            cpu.store_csr(SCAUSE, except_num);
            cpu.pc = cpu.load_csr(STVEC) & !1u64;
            cpu.store_csr(STVAL, 0);
            let sstatus = cpu.load_csr(SSTATUS);
            cpu.store_csr(SSTATUS, trap_sstatus(sstatus, from_supervisor));
        } else {
            cpu.curr_mode = Mode::Machine;
            cpu.store_csr(MEPC, old_pc & !1u64);
            cpu.store_csr(MCAUSE, except_num);
            cpu.pc = cpu.load_csr(MTVEC) & !1u64;
            cpu.store_csr(MTVAL, 0);
            let mstatus = cpu.load_csr(MSTATUS);
            cpu.store_csr(MSTATUS, trap_mstatus(mstatus, mode.bits()));
        }
    }
}

impl Trap for Exception {
    open spec fn cause(&self) -> u64 {
        self.code()
    }

    fn exception_num(&self) -> (number: u64) {
        match self {
            Exception::InstructionAddressMisaligned => 0,
            Exception::InstructionAccessFault => 1,
            Exception::IllegalInstruction => 2,
            Exception::Breakpoint => 3,
            Exception::LoadAddressMisaligned => 4,
            Exception::LoadAccessFault => 5,
            Exception::StoreAMOAddressMisaligned => 6,
            Exception::StoreAMOAccessFault => 7,
            Exception::EnvironmentCallFromUMode => 8,
            Exception::EnvironmentCallFromSMode => 9,
            Exception::EnvironmentCallFromMMode => 11,
            Exception::InstructionPageFault => 12,
            Exception::LoadPageFault => 13,
            Exception::StoreAMOPageFault => 15,
        }
    }
}

} // verus!
