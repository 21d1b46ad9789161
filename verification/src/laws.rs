//! What holds of every state and every instruction: statements about the model
//! in `semantics`, which the executable processor is proved to follow.

use vstd::prelude::*;
use crate::cpu::Mode;
use crate::csr::{
    bit, lemma_status_bits, mpp, CSR_COUNT, MCAUSE, MEPC, MIDELEG, MIE, MSTATUS, MSTATUS_MIE,
    MSTATUS_MPIE, MTVAL, MTVEC, SCAUSE, SEPC, SIE, SSTATUS, SSTATUS_SIE, SSTATUS_SPIE,
    SSTATUS_SPP, STVAL, STVEC,
};
use crate::isa;
use crate::isa::{sub64, MRET};
use crate::semantics::CpuView;
use crate::trap::Exception;

verus! {

/// Whatever the hart does, the state keeps its shape.
pub proof fn lemma_wf_is_kept(state: CpuView, inst: u64, cause: u64, no_trap: bool)
    requires
        state.wf(),
    ensures
        state.execute(inst) matches Ok(next) ==> next.wf(),
        state.trap(cause).wf(),
        state.step(no_trap).0.wf(),
{
    isa::lemma_field_ranges(inst);
    assert(state.trap(cause).wf());
    match state.fetch() {
        Ok(fetched) => {
            isa::lemma_field_ranges(fetched);
            let moved = state.set_pc(isa::add64(state.pc, 4));
            match moved.execute(fetched) {
                Ok(next) => {},
                Err(e) => {
                    assert(moved.trap(e.code()).wf());
                },
            }
        },
        Err(e) => {},
    }
}

/// The exceptions an instruction can raise: the two access faults, illegal
/// instruction, breakpoint, and the environment call of the current mode. A
/// failed fetch is an instruction access fault.
pub proof fn lemma_exceptions_raised(state: CpuView, inst: u64)
    ensures
        state.execute(inst) matches Err(e) ==> e == Exception::LoadAccessFault || e
            == Exception::StoreAMOAccessFault || e == Exception::IllegalInstruction || e
            == Exception::Breakpoint || e == state.ecall(),
        state.fetch() matches Err(e) ==> e == Exception::InstructionAccessFault,
{
}

/// An instruction that retires leaves `x0` zero, and nothing a turn of the
/// cycle does makes a zero `x0` anything else.
pub proof fn lemma_x0_is_zero(state: CpuView, inst: u64, cause: u64, no_trap: bool)
    requires
        state.wf(),
    ensures
        state.execute(inst) matches Ok(next) ==> next.x(0) == 0,
        state.trap(cause).registers == state.registers,
        state.x(0) == 0 ==> state.step(no_trap).0.x(0) == 0,
{
    lemma_wf_is_kept(state, inst, cause, no_trap);
    isa::lemma_field_ranges(inst);
    match state.fetch() {
        Ok(fetched) => {
            isa::lemma_field_ranges(fetched);
            let moved = state.set_pc(isa::add64(state.pc, 4));
            lemma_wf_is_kept(moved, fetched, cause, no_trap);
        },
        Err(e) => {},
    }
}

/// Reading `sie` gives the bits of `mie` that `mideleg` delegates, whatever was
/// written to `sie` before.
pub proof fn lemma_sie_reads_delegated_mie(state: CpuView, written: u64)
    requires
        state.wf(),
    ensures
        state.load_csr(SIE as int) == state.load_csr(MIE as int) & state.load_csr(MIDELEG as int),
        ({
            let after = state.store_csr(SIE as int, written);
            after.load_csr(SIE as int) == after.load_csr(MIE as int) & after.load_csr(
                MIDELEG as int,
            )
        }),
{
}

/// Writing `sie` changes `mie` in the bits that `mideleg` delegates and in no
/// others.
pub proof fn lemma_sie_writes_delegated_mie(state: CpuView, value: u64)
    requires
        state.wf(),
    ensures
        ({
            let mie = state.load_csr(MIE as int);
            let mideleg = state.load_csr(MIDELEG as int);
            let after = state.store_csr(SIE as int, value);
            &&& after.load_csr(MIE as int) == (mie & !mideleg) | (value & mideleg)
            &&& after.load_csr(MIDELEG as int) == mideleg
        }),
{
}

proof fn lemma_addi_word(rd: u64, rs1: u64, imm: i64)
    by (bit_vector)
    requires
        rd < 32,
        rs1 < 32,
        -2048 <= imm < 2048,
    ensures
        isa::opcode(isa::addi(rd, rs1, imm)) == 0x13,
        (isa::addi(rd, rs1, imm) >> 7) & 0x1f == rd,
        isa::funct3(isa::addi(rd, rs1, imm)) == 0,
        (isa::addi(rd, rs1, imm) >> 15) & 0x1f == rs1,
        isa::imm_i(isa::addi(rd, rs1, imm)) == imm as u64,
{
}

/// `ADDI rd, x0, k` puts `k`, as a 64-bit two's-complement number, into `rd`
/// and changes nothing else, for every `k` an I immediate can hold.
pub proof fn lemma_addi_loads_immediate(state: CpuView, rd: u64, k: i64)
    requires
        state.wf(),
        state.x(0) == 0,
        0 < rd < 32,
        -2048 <= k < 2048,
    ensures
        state.execute(isa::addi(rd, 0, k)) == Ok::<CpuView, Exception>(
            state.set_x(rd as int, k as u64),
        ),
        isa::signed(k as u64) == k,
{
    lemma_addi_word(rd, 0, k);
    let next = state.set_x(rd as int, k as u64);
    assert(isa::add64(0, k as u64) == k as u64);
    assert(next.retire().registers =~= next.registers);
    assert(isa::signed(k as u64) == k) by (bit_vector);
}

/// A value written to a register other than `x0` is what the register holds
/// once the instruction has retired; a value written to `x0` is gone.
pub proof fn lemma_register_write_then_read(state: CpuView, index: int, value: u64)
    requires
        state.wf(),
        0 <= index < 32,
    ensures
        index != 0 ==> state.set_x(index, value).retire().x(index) == value,
        index == 0 ==> state.set_x(index, value).retire().x(index) == 0,
        forall|other: int|
            0 < other < 32 && other != index ==> state.set_x(index, value).retire().x(other)
                == state.x(other),
{
}

proof fn lemma_mret_word()
    by (bit_vector)
    ensures
        isa::opcode(MRET) == 0x73,
        isa::funct3(MRET) == 0,
        (MRET >> 20) & 0x1f == 2,
        isa::funct7(MRET) == 0x18,
{
}

/// A trap that is not delegated checkpoints the hart in the machine registers:
/// `mepc` holds the address of the instruction that trapped, `mcause` the cause,
/// `mtval` zero; `mstatus` keeps the interrupt enable in `MPIE`, clears `MIE` and
/// holds the outgoing mode in `MPP`; execution goes on in machine mode at the
/// address in `mtvec`.
pub proof fn lemma_trap_to_machine(state: CpuView, cause: u64)
    requires
        state.wf(),
        !state.delegates(cause),
    ensures
        ({
            let trapped = state.trap(cause);
            let mstatus = trapped.load_csr(MSTATUS as int);
            &&& trapped.mode == Mode::Machine
            &&& trapped.pc == state.load_csr(MTVEC as int) & !1u64
            &&& trapped.load_csr(MEPC as int) == sub64(state.pc, 4) & !1u64
            &&& trapped.load_csr(MCAUSE as int) == cause
            &&& trapped.load_csr(MTVAL as int) == 0
            &&& mpp(mstatus) == state.mode.level()
            &&& bit(mstatus, MSTATUS_MPIE) == bit(state.load_csr(MSTATUS as int), MSTATUS_MIE)
            &&& !bit(mstatus, MSTATUS_MIE)
            &&& trapped.registers == state.registers
            &&& trapped.bus == state.bus
        }),
{
    lemma_status_bits(state.load_csr(MSTATUS as int), false, state.mode.level());
}

/// A delegated trap checkpoints the hart in the supervisor registers: `sepc`
/// holds the address of the instruction that trapped, `scause` the cause,
/// `stval` zero; `sstatus` keeps the interrupt enable in `SPIE`, clears `SIE` and
/// says in `SPP` whether the trap came from supervisor mode; execution goes on
/// in supervisor mode at the address in `stvec`.
pub proof fn lemma_trap_to_supervisor(state: CpuView, cause: u64)
    requires
        state.wf(),
        state.delegates(cause),
    ensures
        ({
            let trapped = state.trap(cause);
            let sstatus = trapped.load_csr(SSTATUS as int);
            &&& trapped.mode == Mode::Supervisor
            &&& trapped.pc == state.load_csr(STVEC as int) & !1u64
            &&& trapped.load_csr(SEPC as int) == sub64(state.pc, 4) & !1u64
            &&& trapped.load_csr(SCAUSE as int) == cause
            &&& trapped.load_csr(STVAL as int) == 0
            &&& bit(sstatus, SSTATUS_SPP) == (state.mode == Mode::Supervisor)
            &&& bit(sstatus, SSTATUS_SPIE) == bit(state.load_csr(SSTATUS as int), SSTATUS_SIE)
            &&& !bit(sstatus, SSTATUS_SIE)
            &&& trapped.registers == state.registers
            &&& trapped.bus == state.bus
        }),
{
    lemma_status_bits(
        state.load_csr(SSTATUS as int),
        state.mode == Mode::Supervisor,
        state.mode.level(),
    );
}

/// `MRET` after a trap that was delivered to machine mode goes back to the
/// instruction that trapped, the address `mepc` holds, and enters the mode that
/// `mstatus.MPP` names. For a trap out of user or supervisor mode that is the
/// mode the trap came from.
pub proof fn lemma_mret_after_machine_trap(state: CpuView, cause: u64)
    requires
        state.wf(),
        !state.delegates(cause),
    ensures
        ({
            let trapped = state.trap(cause);
            &&& trapped.mode == Mode::Machine
            &&& trapped.load_csr(MEPC as int) == sub64(state.pc, 4) & !1u64
            &&& mpp(trapped.load_csr(MSTATUS as int)) == state.mode.level()
            &&& trapped.execute(MRET) matches Ok(back) && back.pc == trapped.load_csr(MEPC as int)
                && back.mode == Mode::of_mpp(mpp(trapped.load_csr(MSTATUS as int))) && (state.mode
                != Mode::Machine ==> back.mode == state.mode)
        }),
{
    lemma_mret_word();
    lemma_trap_to_machine(state, cause);
}

proof fn lemma_csrrw_word(rd: u64, csr: u64, rs1: u64)
    by (bit_vector)
    requires
        rd < 32,
        rs1 < 32,
        csr < 4096,
    ensures
        isa::opcode(isa::csrrw(rd, csr, rs1)) == 0x73,
        (isa::csrrw(rd, csr, rs1) >> 7) & 0x1f == rd,
        isa::funct3(isa::csrrw(rd, csr, rs1)) == 1,
        (isa::csrrw(rd, csr, rs1) >> 15) & 0x1f == rs1,
        (isa::csrrw(rd, csr, rs1) >> 20) & 0xfff == csr,
{
}

proof fn lemma_masked_merge(mie: u64, mask: u64, value: u64)
    by (bit_vector)
    ensures
        ((((mie & !mask) | (value & mask)) & !mask) | ((mie & mask) & mask)) == mie,
{
}

/// `CSRRW rd, csr, rs1` followed by `CSRRW rd2, csr, rd` leaves the CSR, and the
/// whole CSR file, as it was, for any `rd` other than `x0`.
pub proof fn lemma_csrrw_swap_back(state: CpuView, rd: u64, csr: u64, rs1: u64, rd2: u64)
    requires
        state.wf(),
        0 < rd < 32,
        rs1 < 32,
        rd2 < 32,
        csr < CSR_COUNT,
    ensures
        state.execute(isa::csrrw(rd, csr, rs1)) matches Ok(swapped) && swapped.execute(
            isa::csrrw(rd2, csr, rd),
        ) matches Ok(back) && back.csregs == state.csregs && back.load_csr(csr as int)
            == state.load_csr(csr as int),
{
    lemma_csrrw_word(rd, csr, rs1);
    lemma_csrrw_word(rd2, csr, rd);
    let held = state.load_csr(csr as int);
    let swapped = state.execute(isa::csrrw(rd, csr, rs1))->Ok_0;
    assert(swapped.x(rd as int) == held);
    let back = swapped.execute(isa::csrrw(rd2, csr, rd))->Ok_0;
    if csr == SIE {
        lemma_masked_merge(
            state.csregs[MIE as int],
            state.csregs[MIDELEG as int],
            state.x(rs1 as int),
        );
    }
    assert(back.csregs =~= state.csregs);
}

} // verus!
