//! The hart: integer registers, program counter, CSR file and privilege mode,
//! with the bus behind it.

use vstd::prelude::*;
use vstd::string::StringExecFns;
use crate::alu;
use crate::bus::{lemma_load_ok_iff_store_ok, Bus, BusView};
use crate::csr::{
    get_bit, get_mpp, return_mstatus, return_sstatus, CSR_COUNT, MCAUSE, MEPC, MIDELEG, MIE,
    MSTATUS, MTVEC, SCAUSE, SEPC, SIE, SSTATUS, SSTATUS_SPP, STVEC,
};
use crate::decode;
use crate::dram::{DRAM_BASE, DRAM_SIZE};
use crate::dump::{csrs_text, format_csr, format_registers, registers_text};
use crate::semantics::{carried_out, CpuView};
use crate::trap::{Exception, Trap};

verus! {

/// Privilege mode, lowest first.
#[derive(Debug, PartialEq, PartialOrd, Eq, Structural, Copy, Clone)]
pub enum Mode {
    User,
    Supervisor,
    Machine,
}

impl Mode {
    /// The two-bit number of the mode: 0, 1 and 3.
    pub open spec fn level(self) -> u64 {
        match self {
            Mode::User => 0,
            Mode::Supervisor => 1,
            Mode::Machine => 3,
        }
    }

    /// The mode that `MRET` enters for a value of `mstatus.MPP`: machine for
    /// 2, supervisor for 1, user for anything else.
    pub open spec fn of_mpp(mpp: u64) -> Mode {
        if mpp == 2 {
            Mode::Machine
        } else if mpp == 1 {
            Mode::Supervisor
        } else {
            Mode::User
        }
    }

    pub fn bits(self) -> (level: u64)
        ensures
            level == self.level(),
    {
        match self {
            Mode::User => 0,
            Mode::Supervisor => 1,
            Mode::Machine => 3,
        }
    }
}

pub struct Cpu {
    pub registers: [u64; 32],
    pub pc: u64,
    pub bus: Bus,
    pub csregs: [u64; 4096],
    pub curr_mode: Mode,
}

impl View for Cpu {
    type V = CpuView;

    open spec fn view(&self) -> CpuView {
        CpuView {
            registers: self.registers@,
            pc: self.pc,
            bus: self.bus@,
            csregs: self.csregs@,
            mode: self.curr_mode,
        }
    }
}

impl Cpu {
    /// A processor in its reset state with `binary` at the bottom of DRAM.
    pub fn new(binary: Vec<u8>) -> (cpu: Self)
        requires
            binary.len() <= DRAM_SIZE,
        ensures
            cpu@ == CpuView::reset(binary@),
    {
        let mut regs = [0u64; 32];
        regs[2] = DRAM_BASE + DRAM_SIZE;
        let cpu = Self {
            registers: regs,
            pc: DRAM_BASE,
            bus: Bus::new(binary),
            csregs: [0u64; 4096],
            curr_mode: Mode::Machine,
        };
        proof {
            assert(cpu@.registers =~= CpuView::reset(binary@).registers);
            assert(cpu@.csregs =~= CpuView::reset(binary@).csregs);
        }
        cpu
    }

    /// The instruction word at the program counter.
    pub fn fetch(&mut self) -> (result: Result<u64, Exception>)
        ensures
            result == old(self)@.fetch(),
            final(self)@ == old(self)@,
    {
        match self.bus.load(self.pc, 32) {
            Ok(inst) => Ok(inst),
            Err(_e) => Err(Exception::InstructionAccessFault),
        }
    }

    pub fn load(&self, addr: u64, size: u64) -> (result: Result<u64, Exception>)
        ensures
            result == self@.bus.load(addr, size),
    {
        self.bus.load(addr, size)
    }

    pub fn store(&mut self, addr: u64, size: u64, value: u64) -> (result: Result<(), Exception>)
        ensures
            result == BusView::store_result(addr, size),
            final(self)@ == old(self)@.set_bus(old(self)@.bus.store(addr, size, value)),
    {
        self.bus.store(addr, size, value)
    }

    pub fn load_csr(&self, addr: usize) -> (value: u64)
        requires
            addr < CSR_COUNT,
        ensures
            value == self@.load_csr(addr as int),
    {
        if addr == SIE {
            self.csregs[MIE] & self.csregs[MIDELEG]
        } else {
            self.csregs[addr]
        }
    }

    pub fn store_csr(&mut self, addr: usize, value: u64)
        requires
            addr < CSR_COUNT,
        ensures
            final(self)@ == old(self)@.store_csr(addr as int, value),
    {
        if addr == SIE {
            let mask = self.csregs[MIDELEG];
            self.csregs[MIE] = (self.csregs[MIE] & !mask) | (value & mask);
        } else {
            self.csregs[addr] = value;
        }
    }

    /// Where a branch or jump with offset `imm` goes.
    fn target(&self, imm: u64) -> (dest: u64)
        ensures
            dest == self@.target(imm),
    {
        self.pc.wrapping_add(imm).wrapping_sub(4)
    }

    fn load_op(&mut self, inst: u64) -> (result: Result<(), Exception>)
        ensures
            carried_out(old(self)@, old(self)@.load_op(inst), final(self)@, result),
    {
        let rd = decode::rd(inst);
        let rs1 = decode::rs1(inst);
        let addr = self.registers[rs1].wrapping_add(decode::imm_i(inst));
        let data = match decode::funct3(inst) {
            0x0 => alu::sign_extend(self.load(addr, 8)?, 8),
            0x1 => alu::sign_extend(self.load(addr, 16)?, 16),
            0x2 => alu::sign_extend(self.load(addr, 32)?, 32),
            0x3 => self.load(addr, 64)?,
            0x4 => self.load(addr, 8)?,
            0x5 => self.load(addr, 16)?,
            0x6 => self.load(addr, 32)?,
            _ => {
                return Err(Exception::IllegalInstruction);
            },
        };
        self.registers[rd] = data;
        Ok(())
    }

    fn store_op(&mut self, inst: u64) -> (result: Result<(), Exception>)
        ensures
            carried_out(old(self)@, old(self)@.store_op(inst), final(self)@, result),
    {
        let rs1 = decode::rs1(inst);
        let rs2 = decode::rs2(inst);
        let addr = self.registers[rs1].wrapping_add(decode::imm_s(inst));
        let value = self.registers[rs2];
        match decode::funct3(inst) {
            0x0 => self.store(addr, 8, value),
            0x1 => self.store(addr, 16, value),
            0x2 => self.store(addr, 32, value),
            0x3 => self.store(addr, 64, value),
            _ => Err(Exception::IllegalInstruction),
        }
    }

    fn amo_op(&mut self, inst: u64) -> (result: Result<(), Exception>)
        ensures
            carried_out(old(self)@, old(self)@.amo_op(inst), final(self)@, result),
    {
        let rd = decode::rd(inst);
        let addr = self.registers[decode::rs1(inst)];
        let operand = self.registers[decode::rs2(inst)];
        let funct3 = decode::funct3(inst);
        let funct5 = decode::funct5(inst);
        let (width, adds) = if funct3 == 0x2 && funct5 == 0x00 {
            (32, true)
        } else if funct3 == 0x3 && funct5 == 0x00 {
            (64, true)
        } else if funct3 == 0x2 && funct5 == 0x01 {
            (32, false)
        } else if funct3 == 0x3 && funct5 == 0x01 {
            (64, false)
        } else {
            return Err(Exception::IllegalInstruction);
        };
        let held = self.load(addr, width)?;
        let stored = if adds {
            held.wrapping_add(operand)
        } else {
            operand
        };
        proof {
            lemma_load_ok_iff_store_ok(self@.bus, addr, width);
        }
        self.store(addr, width, stored)?;
        self.registers[rd] = held;
        Ok(())
    }

    fn compute_op(&mut self, inst: u64) -> (result: Result<(), Exception>)
        ensures
            carried_out(old(self)@, old(self)@.compute_op(inst), final(self)@, result),
    {
        let rd = decode::rd(inst);
        let funct3 = decode::funct3(inst);
        let funct7 = decode::funct7(inst);
        let a = self.registers[decode::rs1(inst)];
        let b = self.registers[decode::rs2(inst)];
        let value = match decode::opcode(inst) {
            0x13 => alu::op_imm(funct3, funct7, a, decode::imm_i(inst)),
            0x17 => Some(self.target(decode::imm_u(inst))),
            0x1b => alu::op_imm_w(funct3, funct7, a, decode::imm_i(inst)),
            0x33 => alu::op(funct3, funct7, a, b),
            0x37 => Some(decode::imm_u(inst)),
            0x3b => alu::op_w(funct3, funct7, a, b),
            _ => None,
        };
        match value {
            Some(v) => {
                self.registers[rd] = v;
                Ok(())
            },
            None => Err(Exception::IllegalInstruction),
        }
    }

    fn branch_op(&mut self, inst: u64) -> (result: Result<(), Exception>)
        ensures
            carried_out(old(self)@, old(self)@.branch_op(inst), final(self)@, result),
    {
        let a = self.registers[decode::rs1(inst)];
        let b = self.registers[decode::rs2(inst)];
        match alu::branch(decode::funct3(inst), a, b) {
            Some(taken) => {
                if taken {
                    self.pc = self.target(decode::imm_b(inst));
                }
                Ok(())
            },
            None => Err(Exception::IllegalInstruction),
        }
    }

    fn jal_op(&mut self, inst: u64) -> (result: Result<(), Exception>)
        ensures
            carried_out(old(self)@, old(self)@.jal_op(inst), final(self)@, result),
    {
        let rd = decode::rd(inst);
        self.registers[rd] = self.pc;
        self.pc = self.target(decode::imm_j(inst));
        Ok(())
    }

    fn jalr_op(&mut self, inst: u64) -> (result: Result<(), Exception>)
        ensures
            carried_out(old(self)@, old(self)@.jalr_op(inst), final(self)@, result),
    {
        if decode::funct3(inst) != 0x0 {
            return Err(Exception::IllegalInstruction);
        }
        let rd = decode::rd(inst);
        let link = self.pc;
        self.pc = self.registers[decode::rs1(inst)].wrapping_add(decode::imm_i(inst)) & !1u64;
        self.registers[rd] = link;
        Ok(())
    }

    fn sret(&mut self)
        ensures
            final(self)@ == old(self)@.sret(),
    {
        let sstatus = self.load_csr(SSTATUS);
        self.pc = self.load_csr(SEPC);
        self.curr_mode = if get_bit(sstatus, SSTATUS_SPP) {
            Mode::Supervisor
        } else {
            Mode::User
        };
        self.store_csr(SSTATUS, return_sstatus(sstatus));
    }

    fn mret(&mut self)
        ensures
            final(self)@ == old(self)@.mret(),
    {
        let mstatus = self.load_csr(MSTATUS);
        self.pc = self.load_csr(MEPC);
        self.curr_mode = match get_mpp(mstatus) {
            2 => Mode::Machine,
            1 => Mode::Supervisor,
            _ => Mode::User,
        };
        self.store_csr(MSTATUS, return_mstatus(mstatus));
    }

    fn system_op(&mut self, inst: u64) -> (result: Result<(), Exception>)
        ensures
            carried_out(old(self)@, old(self)@.system_op(inst), final(self)@, result),
    {
        let rd = decode::rd(inst);
        let rs1 = decode::rs1(inst);
        let rs2 = decode::rs2(inst);
        let funct3 = decode::funct3(inst);
        let funct7 = decode::funct7(inst);
        if funct3 == 0x0 {
            if rs2 == 0x0 && funct7 == 0x00 {
                match self.curr_mode {
                    Mode::Machine => Err(Exception::EnvironmentCallFromMMode),
                    Mode::Supervisor => Err(Exception::EnvironmentCallFromSMode),
                    Mode::User => Err(Exception::EnvironmentCallFromUMode),
                }
            } else if rs2 == 0x1 && funct7 == 0x00 {
                Err(Exception::Breakpoint)
            } else if rs2 == 0x2 && funct7 == 0x08 {
                self.sret();
                Ok(())
            } else if rs2 == 0x2 && funct7 == 0x18 {
                self.mret();
                Ok(())
            } else {
                Err(Exception::IllegalInstruction)
            }
        } else {
            let csr = decode::csr_index(inst);
            let held = self.load_csr(csr);
            let src = if funct3 < 4 {
                self.registers[rs1]
            } else {
                rs1 as u64
            };
            match alu::csr_update(funct3, held, src) {
                Some(value) => {
                    self.store_csr(csr, value);
                    self.registers[rd] = held;
                    Ok(())
                },
                None => Err(Exception::IllegalInstruction),
            }
        }
    }

    /// Runs one instruction. The program counter must already point past it.
    /// On an exception nothing has changed.
    pub fn execute(&mut self, instruction: u64) -> (result: Result<(), Exception>)
        ensures
            old(self)@.execute(instruction) matches Ok(next) ==> result is Ok && final(self)@
                == next,
            old(self)@.execute(instruction) matches Err(e) ==> result == Err::<(), Exception>(e)
                && final(self)@ == old(self)@,
            result is Ok ==> final(self).registers[0] == 0,
            old(self).registers[0] == 0 ==> final(self).registers[0] == 0,
    {
        match decode::opcode(instruction) {
            0x03 => self.load_op(instruction)?,
            0x23 => self.store_op(instruction)?,
            0x2f => self.amo_op(instruction)?,
            0x63 => self.branch_op(instruction)?,
            0x67 => self.jalr_op(instruction)?,
            0x6f => self.jal_op(instruction)?,
            0x73 => self.system_op(instruction)?,
            _ => self.compute_op(instruction)?,
        }
        self.registers[0] = 0;
        Ok(())
    }

    /// The text of the 32 integer registers, eight lines of four, each line
    /// with a line break before it.
    pub fn dump_registers(&self) -> (text: String)
        ensures
            text@ == registers_text(self@.registers),
    {
        format_registers(&self.registers)
    }

    /// The text of the trap registers: the machine ones on one line, the
    /// supervisor ones on the next.
    pub fn dump_csrs(&self) -> (text: String)
        ensures
            text@ == csrs_text(self@),
    {
        let mut text = format_csr("mstatus", self.load_csr(MSTATUS));
        text.append(" ");
        text.append(format_csr("mtvec", self.load_csr(MTVEC)).as_str());
        text.append(" ");
        text.append(format_csr("mepc", self.load_csr(MEPC)).as_str());
        text.append(" ");
        text.append(format_csr("mcause", self.load_csr(MCAUSE)).as_str());
        text.append("\n");
        text.append(format_csr("sstatus", self.load_csr(SSTATUS)).as_str());
        text.append(" ");
        text.append(format_csr("stvec", self.load_csr(STVEC)).as_str());
        text.append(" ");
        text.append(format_csr("sepc", self.load_csr(SEPC)).as_str());
        text.append(" ");
        text.append(format_csr("scause", self.load_csr(SCAUSE)).as_str());
        text
    }

    /// Hands `exception` to the run: without trap handling nothing changes and
    /// the run ends; with it the trap is delivered, and the run ends if the
    /// exception is fatal or execution has reached address zero.
    fn raise(&mut self, exception: Exception, no_trap: bool) -> (halt: bool)
        ensures
            (final(self)@, halt) == old(self)@.raise(exception, no_trap),
    {
        if no_trap {
            return true;
        }
        exception.handle_trap(self);
        exception.is_fatal() || self.pc == 0
    }

    /// One turn of the fetch and execute cycle: fetches at the program counter,
    /// moves the counter past the instruction, executes it, and hands any
    /// exception to the trap path unless `no_trap` is set. Returns whether the
    /// run ends here.
    pub fn step(&mut self, no_trap: bool) -> (halt: bool)
        ensures
            (final(self)@, halt) == old(self)@.step(no_trap),
            old(self).registers[0] == 0 ==> final(self).registers[0] == 0,
    {
        let instruction = match self.fetch() {
            Ok(instruction) => instruction,
            Err(exception) => {
                return self.raise(exception, no_trap);
            },
        };
        self.pc = self.pc.wrapping_add(4);
        match self.execute(instruction) {
            Ok(_) => self.pc == 0,
            Err(exception) => self.raise(exception, no_trap),
        }
    }
}

} // verus!
