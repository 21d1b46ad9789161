//! Control and status registers: their addresses and the status bits that trap
//! entry and trap return move about.

use vstd::prelude::*;

verus! {

// Machine-level registers.
pub const MSTATUS: usize = 0x300;

pub const MIE: usize = 0x304;

pub const MTVEC: usize = 0x305;

pub const MHARTID: usize = 0xf14;

pub const MEDELEG: usize = 0x302;

pub const MIDELEG: usize = 0x303;

pub const MCOUNTEREN: usize = 0x306;

pub const MSCRATCH: usize = 0x340;

pub const MEPC: usize = 0x341;

pub const MCAUSE: usize = 0x342;

pub const MTVAL: usize = 0x343;

pub const MIP: usize = 0x344;

// Supervisor-level registers.
pub const SSTATUS: usize = 0x100;

pub const SIE: usize = 0x104;

pub const STVEC: usize = 0x105;

pub const SSCRATCH: usize = 0x140;

pub const SEPC: usize = 0x141;

pub const SCAUSE: usize = 0x142;

pub const STVAL: usize = 0x143;

pub const SIP: usize = 0x144;

pub const SATP: usize = 0x180;

/// Number of slots in the CSR file.
pub const CSR_COUNT: usize = 4096;

// Bit positions in `sstatus`.
pub const SSTATUS_SIE: u64 = 1;

pub const SSTATUS_SPIE: u64 = 5;

pub const SSTATUS_SPP: u64 = 8;

// Bit positions in `mstatus`.
pub const MSTATUS_MIE: u64 = 3;

pub const MSTATUS_MPIE: u64 = 7;

/// Position of the low bit of the two-bit field `mstatus.MPP`.
pub const MSTATUS_MPP: u64 = 11;

/// Bit `index` of `value`.
pub open spec fn bit(value: u64, index: u64) -> bool {
    (value >> index) & 1 == 1
}

/// `value` with bit `index` made `on`.
pub open spec fn with_bit(value: u64, index: u64, on: bool) -> u64 {
    if on {
        value | (1u64 << index)
    } else {
        value & !(1u64 << index)
    }
}

/// The field `MPP` of an `mstatus` value.
pub open spec fn mpp(mstatus: u64) -> u64 {
    (mstatus >> MSTATUS_MPP) & 0b11
}

/// `mstatus` with the field `MPP` made `level`.
pub open spec fn with_mpp(mstatus: u64, level: u64) -> u64 {
    (mstatus & !(0b11u64 << MSTATUS_MPP)) | (level << MSTATUS_MPP)
}

/// `sstatus` after a trap into supervisor mode: `SPIE` takes what `SIE` held,
/// `SIE` is cleared, `SPP` says whether the trap came from supervisor mode.
pub open spec fn sstatus_on_trap(sstatus: u64, from_supervisor: bool) -> u64 {
    let saved = with_bit(sstatus, SSTATUS_SPIE, bit(sstatus, SSTATUS_SIE));
    with_bit(with_bit(saved, SSTATUS_SIE, false), SSTATUS_SPP, from_supervisor)
}

/// `sstatus` after `SRET`: `SIE` takes what `SPIE` held, `SPIE` is set, `SPP`
/// is cleared.
pub open spec fn sstatus_on_return(sstatus: u64) -> u64 {
    let restored = with_bit(sstatus, SSTATUS_SIE, bit(sstatus, SSTATUS_SPIE));
    with_bit(with_bit(restored, SSTATUS_SPIE, true), SSTATUS_SPP, false)
}

/// `mstatus` after a trap into machine mode: `MPIE` takes what `MIE` held,
/// `MIE` is cleared, `MPP` holds the level the trap came from.
pub open spec fn mstatus_on_trap(mstatus: u64, level: u64) -> u64 {
    let saved = with_bit(mstatus, MSTATUS_MPIE, bit(mstatus, MSTATUS_MIE));
    with_mpp(with_bit(saved, MSTATUS_MIE, false), level)
}

/// `mstatus` after `MRET`: `MIE` takes what `MPIE` held, `MPIE` is set, `MPP`
/// is cleared.
pub open spec fn mstatus_on_return(mstatus: u64) -> u64 {
    let restored = with_bit(mstatus, MSTATUS_MIE, bit(mstatus, MSTATUS_MPIE));
    with_mpp(with_bit(restored, MSTATUS_MPIE, true), 0)
}

/// The status functions move the bits they name and leave every other bit of
/// the register alone.
pub proof fn lemma_status_bits(status: u64, from_supervisor: bool, level: u64)
    by (bit_vector)
    requires
        level < 4,
    ensures
        bit(sstatus_on_trap(status, from_supervisor), SSTATUS_SPIE) == bit(status, SSTATUS_SIE),
        !bit(sstatus_on_trap(status, from_supervisor), SSTATUS_SIE),
        bit(sstatus_on_trap(status, from_supervisor), SSTATUS_SPP) == from_supervisor,
        sstatus_on_trap(status, from_supervisor) & !0x122u64 == status & !0x122u64,
        bit(sstatus_on_return(status), SSTATUS_SIE) == bit(status, SSTATUS_SPIE),
        bit(sstatus_on_return(status), SSTATUS_SPIE),
        !bit(sstatus_on_return(status), SSTATUS_SPP),
        sstatus_on_return(status) & !0x122u64 == status & !0x122u64,
        bit(mstatus_on_trap(status, level), MSTATUS_MPIE) == bit(status, MSTATUS_MIE),
        !bit(mstatus_on_trap(status, level), MSTATUS_MIE),
        mpp(mstatus_on_trap(status, level)) == level,
        mstatus_on_trap(status, level) & !0x1888u64 == status & !0x1888u64,
        bit(mstatus_on_return(status), MSTATUS_MIE) == bit(status, MSTATUS_MPIE),
        bit(mstatus_on_return(status), MSTATUS_MPIE),
        mpp(mstatus_on_return(status)) == 0,
        mstatus_on_return(status) & !0x1888u64 == status & !0x1888u64,
{
}

pub fn get_bit(value: u64, index: u64) -> (on: bool)
    requires
        index < 64,
    ensures
        on == bit(value, index),
{
    (value >> index) & 1 == 1
}

pub fn set_bit(value: u64, index: u64, on: bool) -> (changed: u64)
    requires
        index < 64,
    ensures
        changed == with_bit(value, index, on),
{
    if on {
        value | (1u64 << index)
    } else {
        value & !(1u64 << index)
    }
}

pub fn get_mpp(mstatus: u64) -> (level: u64)
    ensures
        level == mpp(mstatus),
        level < 4,
{
    assert((mstatus >> 11) & 0b11 < 4) by (bit_vector);
    (mstatus >> MSTATUS_MPP) & 0b11
}

pub fn set_mpp(mstatus: u64, level: u64) -> (changed: u64)
    requires
        level < 4,
    ensures
        changed == with_mpp(mstatus, level),
{
    (mstatus & !(0b11u64 << MSTATUS_MPP)) | (level << MSTATUS_MPP)
}

pub fn trap_sstatus(sstatus: u64, from_supervisor: bool) -> (changed: u64)
    ensures
        changed == sstatus_on_trap(sstatus, from_supervisor),
{
    let saved = set_bit(sstatus, SSTATUS_SPIE, get_bit(sstatus, SSTATUS_SIE));
    set_bit(set_bit(saved, SSTATUS_SIE, false), SSTATUS_SPP, from_supervisor)
}

pub fn return_sstatus(sstatus: u64) -> (changed: u64)
    ensures
        changed == sstatus_on_return(sstatus),
{
    let restored = set_bit(sstatus, SSTATUS_SIE, get_bit(sstatus, SSTATUS_SPIE));
    set_bit(set_bit(restored, SSTATUS_SPIE, true), SSTATUS_SPP, false)
}

pub fn trap_mstatus(mstatus: u64, level: u64) -> (changed: u64)
    requires
        level < 4,
    ensures
        changed == mstatus_on_trap(mstatus, level),
{
    let saved = set_bit(mstatus, MSTATUS_MPIE, get_bit(mstatus, MSTATUS_MIE));
    set_mpp(set_bit(saved, MSTATUS_MIE, false), level)
}

pub fn return_mstatus(mstatus: u64) -> (changed: u64)
    ensures
        changed == mstatus_on_return(mstatus),
{
    let restored = set_bit(mstatus, MSTATUS_MIE, get_bit(mstatus, MSTATUS_MPIE));
    set_mpp(set_bit(restored, MSTATUS_MPIE, true), 0)
}

} // verus!
