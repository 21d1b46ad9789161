//! What the hart does, as a function from state to state: the model every
//! executable function of the processor is proved against.

use vstd::prelude::*;
use crate::bus::BusView;
use crate::cpu::Mode;
use crate::csr::{
    bit, mpp, mstatus_on_return, mstatus_on_trap, sstatus_on_return, sstatus_on_trap, CSR_COUNT,
    MCAUSE, MEDELEG, MEPC, MIDELEG, MIE, MSTATUS, MTVAL, MTVEC, SCAUSE, SEPC, SIE, SSTATUS,
    SSTATUS_SPP, STVAL, STVEC,
};
use crate::dram::{DRAM_BASE, DRAM_SIZE};
use crate::isa::{
    add64, amo_kind, branch, csr_index, csr_update, funct3, funct5, funct7, imm_b, imm_i, imm_j,
    imm_s, imm_u, load_kind, op, op_imm, op_imm_w, op_w, opcode, rd, rs1, rs2, sign_extend,
    store_width, sub64,
};
use crate::trap::Exception;

verus! {

/// The whole state of the machine as plain values.
pub struct CpuView {
    pub registers: Seq<u64>,
    pub pc: u64,
    pub bus: BusView,
    pub csregs: Seq<u64>,
    pub mode: Mode,
}

/// An instruction run in state `before` came out as `outcome` prescribes: with
/// `Ok` and the new state, or with the exception and the state as it was.
pub open spec fn carried_out(
    before: CpuView,
    outcome: Result<CpuView, Exception>,
    after: CpuView,
    result: Result<(), Exception>,
) -> bool {
    match outcome {
        Ok(next) => result is Ok && after == next,
        Err(e) => result == Err::<(), Exception>(e) && after == before,
    }
}

impl CpuView {
    /// The shape every state of a processor has: 32 integer registers, 4096
    /// CSR slots, and memory of the fixed size.
    pub open spec fn wf(self) -> bool {
        &&& self.registers.len() == 32
        &&& self.csregs.len() == CSR_COUNT
        &&& self.bus.wf()
    }

    /// The state a processor starts in: the stack pointer `x2` at the top of
    /// DRAM, the program counter at its bottom, machine mode, all else zero.
    pub open spec fn reset(binary: Seq<u8>) -> CpuView {
        CpuView {
            registers: Seq::new(
                32,
                |i: int|
                    if i == 2 {
                        (DRAM_BASE + DRAM_SIZE) as u64
                    } else {
                        0u64
                    },
            ),
            pc: DRAM_BASE,
            bus: BusView::reset(binary),
            csregs: Seq::new(CSR_COUNT as nat, |i: int| 0u64),
            mode: Mode::Machine,
        }
    }

    /// The value of integer register `index`.
    pub open spec fn x(self, index: int) -> u64 {
        self.registers[index]
    }

    /// This state with integer register `index` holding `value`.
    pub open spec fn set_x(self, index: int, value: u64) -> CpuView {
        CpuView { registers: self.registers.update(index, value), ..self }
    }

    /// This state as an instruction leaves it: whatever was written to `x0` is
    /// gone and `x0` is zero.
    pub open spec fn retire(self) -> CpuView {
        self.set_x(0, 0)
    }

    /// This state with the program counter at `pc`.
    pub open spec fn set_pc(self, pc: u64) -> CpuView {
        CpuView { pc, ..self }
    }

    /// This state in privilege mode `mode`.
    pub open spec fn set_mode(self, mode: Mode) -> CpuView {
        CpuView { mode, ..self }
    }

    /// This state with `bus` behind the processor.
    pub open spec fn set_bus(self, bus: BusView) -> CpuView {
        CpuView { bus, ..self }
    }

    /// What reading the CSR at `addr` gives. `sie` has no storage of its own: it
    /// shows the bits of `mie` that `mideleg` hands to supervisor mode.
    pub open spec fn load_csr(self, addr: int) -> u64 {
        if addr == SIE {
            self.csregs[MIE as int] & self.csregs[MIDELEG as int]
        } else {
            self.csregs[addr]
        }
    }

    /// This state after writing `value` to the CSR at `addr`. A write to `sie`
    /// reaches the bits of `mie` that `mideleg` hands down, and no others.
    pub open spec fn store_csr(self, addr: int, value: u64) -> CpuView {
        if addr == SIE {
            let mask = self.csregs[MIDELEG as int];
            let merged = (self.csregs[MIE as int] & !mask) | (value & mask);
            CpuView { csregs: self.csregs.update(MIE as int, merged), ..self }
        } else {
            CpuView { csregs: self.csregs.update(addr, value), ..self }
        }
    }

    /// The instruction word at the program counter; nothing else than an
    /// instruction access fault comes of a failed fetch.
    pub open spec fn fetch(self) -> Result<u64, Exception> {
        match self.bus.load(self.pc, 32) {
            Ok(inst) => Ok(inst),
            Err(_) => Err(Exception::InstructionAccessFault),
        }
    }

    /// Where a branch or jump with offset `imm` goes. The program counter has
    /// moved past the instruction by then, hence the four.
    pub open spec fn target(self, imm: u64) -> u64 {
        sub64(add64(self.pc, imm), 4)
    }

    /// Loads: `rd` takes what memory holds at `rs1` plus the I immediate, sign-
    /// or zero-extended from the width of the load.
    pub open spec fn load_op(self, inst: u64) -> Result<CpuView, Exception> {
        let addr = add64(self.x(rs1(inst)), imm_i(inst));
        match load_kind(funct3(inst)) {
            None => Err(Exception::IllegalInstruction),
            Some((width, signed)) => match self.bus.load(addr, width) {
                Err(e) => Err(e),
                Ok(value) => Ok(
                    self.set_x(
                        rd(inst),
                        if signed {
                            sign_extend(value, width)
                        } else {
                            value
                        },
                    ),
                ),
            },
        }
    }

    /// Stores: memory at `rs1` plus the S immediate takes the low bytes of
    /// `rs2`.
    pub open spec fn store_op(self, inst: u64) -> Result<CpuView, Exception> {
        let addr = add64(self.x(rs1(inst)), imm_s(inst));
        match store_width(funct3(inst)) {
            None => Err(Exception::IllegalInstruction),
            Some(width) => match BusView::store_result(addr, width) {
                Err(e) => Err(e),
                Ok(_) => Ok(self.set_bus(self.bus.store(addr, width, self.x(rs2(inst))))),
            },
        }
    }

    /// Atomics: `rd` takes what memory holds at `rs1`, and memory there takes
    /// that value plus `rs2`, or `rs2` itself. Both operands are read before `rd`
    /// is written.
    pub open spec fn amo_op(self, inst: u64) -> Result<CpuView, Exception> {
        let addr = self.x(rs1(inst));
        let operand = self.x(rs2(inst));
        match amo_kind(funct3(inst), funct5(inst)) {
            None => Err(Exception::IllegalInstruction),
            Some((width, adds)) => match self.bus.load(addr, width) {
                Err(e) => Err(e),
                Ok(held) => {
                    let stored = if adds {
                        add64(held, operand)
                    } else {
                        operand
                    };
                    Ok(self.set_bus(self.bus.store(addr, width, stored)).set_x(rd(inst), held))
                },
            },
        }
    }

    /// Instructions that compute `rd` from registers, the immediate and the
    /// program counter, and touch nothing else.
    pub open spec fn compute_op(self, inst: u64) -> Result<CpuView, Exception> {
        let a = self.x(rs1(inst));
        let b = self.x(rs2(inst));
        let code = opcode(inst);
        let value = if code == 0x13 {
            op_imm(funct3(inst), funct7(inst), a, imm_i(inst))
        } else if code == 0x1b {
            op_imm_w(funct3(inst), funct7(inst), a, imm_i(inst))
        } else if code == 0x33 {
            op(funct3(inst), funct7(inst), a, b)
        } else if code == 0x3b {
            op_w(funct3(inst), funct7(inst), a, b)
        } else if code == 0x37 {
            Some(imm_u(inst))
        } else if code == 0x17 {
            Some(self.target(imm_u(inst)))
        } else {
            None
        };
        match value {
            None => Err(Exception::IllegalInstruction),
            Some(v) => Ok(self.set_x(rd(inst), v)),
        }
    }

    /// Branches: the program counter moves by the B immediate where the
    /// condition holds.
    pub open spec fn branch_op(self, inst: u64) -> Result<CpuView, Exception> {
        match branch(funct3(inst), self.x(rs1(inst)), self.x(rs2(inst))) {
            None => Err(Exception::IllegalInstruction),
            Some(taken) => Ok(
                if taken {
                    self.set_pc(self.target(imm_b(inst)))
                } else {
                    self
                },
            ),
        }
    }

    /// `JAL`: `rd` takes the address of the next instruction and the program
    /// counter moves by the J immediate.
    pub open spec fn jal_op(self, inst: u64) -> Result<CpuView, Exception> {
        Ok(self.set_x(rd(inst), self.pc).set_pc(self.target(imm_j(inst))))
    }

    /// `JALR`: `rd` takes the address of the next instruction and the program
    /// counter goes to `rs1` plus the I immediate with bit 0 cleared. `rs1` is
    /// read before `rd` is written.
    pub open spec fn jalr_op(self, inst: u64) -> Result<CpuView, Exception> {
        if funct3(inst) == 0 {
            let dest = add64(self.x(rs1(inst)), imm_i(inst)) & !1u64;
            Ok(self.set_x(rd(inst), self.pc).set_pc(dest))
        } else {
            Err(Exception::IllegalInstruction)
        }
    }

    /// The exception an `ECALL` raises in this state.
    pub open spec fn ecall(self) -> Exception {
        match self.mode {
            Mode::User => Exception::EnvironmentCallFromUMode,
            Mode::Supervisor => Exception::EnvironmentCallFromSMode,
            Mode::Machine => Exception::EnvironmentCallFromMMode,
        }
    }

    /// `SRET`: back to where `sepc` points, in the mode `sstatus.SPP` names.
    pub open spec fn sret(self) -> CpuView {
        let sstatus = self.load_csr(SSTATUS as int);
        let mode = if bit(sstatus, SSTATUS_SPP) {
            Mode::Supervisor
        } else {
            Mode::User
        };
        self.set_pc(self.load_csr(SEPC as int)).set_mode(mode).store_csr(
            SSTATUS as int,
            sstatus_on_return(sstatus),
        )
    }

    /// `MRET`: back to where `mepc` points, in the mode `mstatus.MPP` names.
    pub open spec fn mret(self) -> CpuView {
        let mstatus = self.load_csr(MSTATUS as int);
        self.set_pc(self.load_csr(MEPC as int)).set_mode(Mode::of_mpp(mpp(mstatus))).store_csr(
            MSTATUS as int,
            mstatus_on_return(mstatus),
        )
    }

    /// System instructions: environment call, breakpoint and trap return where
    /// `funct3` is zero, else a CSR instruction, which gives `rd` what the CSR
    /// held and writes the CSR from `rs1` or from the five bits that name it.
    pub open spec fn system_op(self, inst: u64) -> Result<CpuView, Exception> {
        if funct3(inst) == 0 {
            if rs2(inst) == 0 && funct7(inst) == 0x00 {
                Err(self.ecall())
            } else if rs2(inst) == 1 && funct7(inst) == 0x00 {
                Err(Exception::Breakpoint)
            } else if rs2(inst) == 2 && funct7(inst) == 0x08 {
                Ok(self.sret())
            } else if rs2(inst) == 2 && funct7(inst) == 0x18 {
                Ok(self.mret())
            } else {
                Err(Exception::IllegalInstruction)
            }
        } else {
            let held = self.load_csr(csr_index(inst));
            let src = if funct3(inst) < 4 {
                self.x(rs1(inst))
            } else {
                rs1(inst) as u64
            };
            match csr_update(funct3(inst), held, src) {
                None => Err(Exception::IllegalInstruction),
                Some(value) => Ok(self.store_csr(csr_index(inst), value).set_x(rd(inst), held)),
            }
        }
    }

    /// What the instruction does before it retires, by opcode.
    pub open spec fn dispatch(self, inst: u64) -> Result<CpuView, Exception> {
        let code = opcode(inst);
        if code == 0x03 {
            self.load_op(inst)
        } else if code == 0x23 {
            self.store_op(inst)
        } else if code == 0x2f {
            self.amo_op(inst)
        } else if code == 0x63 {
            self.branch_op(inst)
        } else if code == 0x67 {
            self.jalr_op(inst)
        } else if code == 0x6f {
            self.jal_op(inst)
        } else if code == 0x73 {
            self.system_op(inst)
        } else {
            self.compute_op(inst)
        }
    }

    /// One instruction, run in a state whose program counter already points
    /// past it. `Ok` holds the state the instruction leaves; an exception
    /// leaves the state as it was.
    pub open spec fn execute(self, inst: u64) -> Result<CpuView, Exception> {
        match self.dispatch(inst) {
            Ok(next) => Ok(next.retire()),
            Err(e) => Err(e),
        }
    }

    /// Whether an exception with number `cause` goes to supervisor mode: the
    /// hart runs in supervisor mode or below and `medeleg` has bit `cause` set.
    pub open spec fn delegates(self, cause: u64) -> bool {
        self.mode.level() <= Mode::Supervisor.level() && cause < 64 && bit(
            self.load_csr(MEDELEG as int),
            cause,
        )
    }

    /// The state after delivery of an exception with number `cause`, raised by
    /// the instruction four bytes below the program counter.
    pub open spec fn trap(self, cause: u64) -> CpuView {
        let epc = sub64(self.pc, 4) & !1u64;
        if self.delegates(cause) {
            let sstatus = sstatus_on_trap(
                self.load_csr(SSTATUS as int),
                self.mode == Mode::Supervisor,
            );
            self.store_csr(SEPC as int, epc).store_csr(SCAUSE as int, cause).store_csr(
                STVAL as int,
                0,
            ).store_csr(SSTATUS as int, sstatus).set_pc(self.load_csr(STVEC as int) & !1u64).set_mode(
                Mode::Supervisor,
            )
        } else {
            let mstatus = mstatus_on_trap(self.load_csr(MSTATUS as int), self.mode.level());
            self.store_csr(MEPC as int, epc).store_csr(MCAUSE as int, cause).store_csr(
                MTVAL as int,
                0,
            ).store_csr(MSTATUS as int, mstatus).set_pc(self.load_csr(MTVEC as int) & !1u64).set_mode(
                Mode::Machine,
            )
        }
    }

    /// What an exception does to a run: without trap handling the state stays
    /// and the run ends; with it the trap is delivered, and the run ends if the
    /// exception is fatal or execution has reached address zero.
    pub open spec fn raise(self, e: Exception, no_trap: bool) -> (CpuView, bool) {
        if no_trap {
            (self, true)
        } else {
            let next = self.trap(e.code());
            (next, e.fatal() || next.pc == 0)
        }
    }

    /// One turn of the fetch and execute cycle: the state it leaves and
    /// whether the run ends with it.
    pub open spec fn step(self, no_trap: bool) -> (CpuView, bool) {
        match self.fetch() {
            Err(e) => self.raise(e, no_trap),
            Ok(inst) => {
                let fetched = self.set_pc(add64(self.pc, 4));
                match fetched.execute(inst) {
                    Ok(next) => (next, next.pc == 0),
                    Err(e) => fetched.raise(e, no_trap),
                }
            },
        }
    }
}

} // verus!
