//! The instruction set as mathematics: the fields and immediates of a 32-bit
//! instruction word and the functions the arithmetic instructions compute.
//! Nothing here runs; the executable decoder and ALU are proved against it.

use vstd::prelude::*;

verus! {

/// `value` read as a two's-complement number.
pub open spec fn signed(value: u64) -> int {
    if value < 0x8000_0000_0000_0000 {
        value as int
    } else {
        value - 0x1_0000_0000_0000_0000
    }
}

/// The 64-bit register value that stands for the integer `n`.
pub open spec fn wrap(n: int) -> u64 {
    (n % 0x1_0000_0000_0000_0000) as u64
}

/// The low `bits` bits of `value`, with the topmost of them copied into every
/// bit above.
pub open spec fn sign_extend(value: u64, bits: u64) -> u64
    recommends
        0 < bits <= 64,
{
    if bits >= 64 {
        value
    } else if (value >> ((bits - 1) as u64)) & 1 == 1 {
        value | (0xffff_ffff_ffff_ffffu64 << bits)
    } else {
        value & !(0xffff_ffff_ffff_ffffu64 << bits)
    }
}

/// The low `bits` bits of `value`, with zeros above.
pub open spec fn zero_extend(value: u64, bits: u64) -> u64
    recommends
        0 < bits <= 64,
{
    if bits >= 64 {
        value
    } else {
        value & !(0xffff_ffff_ffff_ffffu64 << bits)
    }
}

/// Extension to 8, 16 and 32 bits means what the names say: the zero-extended
/// value is the value modulo two to the width, and the sign-extended value is
/// the one number in the signed range of the width that agrees with it there.
pub proof fn lemma_extensions(value: u64)
    by (bit_vector)
    ensures
        zero_extend(value, 8) == value % 0x100,
        zero_extend(value, 16) == value % 0x1_0000,
        zero_extend(value, 32) == value % 0x1_0000_0000,
        zero_extend(sign_extend(value, 8), 8) == zero_extend(value, 8),
        zero_extend(sign_extend(value, 16), 16) == zero_extend(value, 16),
        zero_extend(sign_extend(value, 32), 32) == zero_extend(value, 32),
        -0x80 <= signed(sign_extend(value, 8)) < 0x80,
        -0x8000 <= signed(sign_extend(value, 16)) < 0x8000,
        -0x8000_0000 <= signed(sign_extend(value, 32)) < 0x8000_0000,
{
}

// Fields of an instruction word. Bits 32 and up of the word are never looked at.

/// Bits 6:0.
pub open spec fn opcode(inst: u64) -> u64 {
    inst & 0x7f
}

/// Bits 11:7.
pub open spec fn rd(inst: u64) -> int {
    ((inst >> 7) & 0x1f) as int
}

/// Bits 14:12.
pub open spec fn funct3(inst: u64) -> u64 {
    (inst >> 12) & 0x07
}

/// Bits 19:15.
pub open spec fn rs1(inst: u64) -> int {
    ((inst >> 15) & 0x1f) as int
}

/// Bits 24:20.
pub open spec fn rs2(inst: u64) -> int {
    ((inst >> 20) & 0x1f) as int
}

/// Bits 31:25.
pub open spec fn funct7(inst: u64) -> u64 {
    (inst >> 25) & 0x7f
}

/// Bits 31:27, the operation of an atomic instruction.
pub open spec fn funct5(inst: u64) -> u64 {
    (inst >> 27) & 0x1f
}

/// Bits 31:20, the address of a control and status register.
pub open spec fn csr_index(inst: u64) -> int {
    ((inst >> 20) & 0xfff) as int
}

/// Every field stays inside the range its width gives it.
pub proof fn lemma_field_ranges(inst: u64)
    by (bit_vector)
    ensures
        inst & 0x7f < 0x80,
        (inst >> 7) & 0x1f < 32,
        (inst >> 12) & 0x07 < 8,
        (inst >> 15) & 0x1f < 32,
        (inst >> 20) & 0x1f < 32,
        (inst >> 25) & 0x7f < 0x80,
        (inst >> 27) & 0x1f < 32,
        (inst >> 20) & 0xfff < 4096,
{
}

/// The immediate of the I format: bits 31:20, sign-extended.
pub open spec fn imm_i(inst: u64) -> u64 {
    sign_extend((inst >> 20) & 0xfff, 12)
}

/// The immediate of the S format: bits 31:25 above bits 11:7, sign-extended.
pub open spec fn imm_s(inst: u64) -> u64 {
    sign_extend((((inst >> 25) & 0x7f) << 5) | ((inst >> 7) & 0x1f), 12)
}

/// The immediate of the B format, a multiple of two: bit 31, bit 7, bits 30:25
/// and bits 11:8, in that order from bit 12 down to bit 1, sign-extended.
pub open spec fn imm_b(inst: u64) -> u64 {
    sign_extend(
        (((inst >> 31) & 1) << 12) | (((inst >> 7) & 1) << 11) | (((inst >> 25) & 0x3f) << 5) | (((
        inst >> 8) & 0xf) << 1),
        13,
    )
}

/// The immediate of the U format: bits 31:12 in place, zeros below,
/// sign-extended from 32 bits.
pub open spec fn imm_u(inst: u64) -> u64 {
    sign_extend(((inst >> 12) & 0xf_ffff) << 12, 32)
}

/// The immediate of the J format, a multiple of two: bit 31, bits 19:12, bit 20
/// and bits 30:21, in that order from bit 20 down to bit 1, sign-extended.
pub open spec fn imm_j(inst: u64) -> u64 {
    sign_extend(
        (((inst >> 31) & 1) << 20) | (((inst >> 12) & 0xff) << 12) | (((inst >> 20) & 1) << 11) | (((
        inst >> 21) & 0x3ff) << 1),
        21,
    )
}

// Instruction words.

pub const ECALL: u64 = 0x0000_0073;

pub const EBREAK: u64 = 0x0010_0073;

pub const SRET: u64 = 0x1020_0073;

pub const MRET: u64 = 0x3020_0073;

/// The bits of an instruction word that hold an I immediate, with `imm` in
/// them.
pub open spec fn place_imm_i(imm: i64) -> u64
    recommends
        -2048 <= imm < 2048,
{
    ((imm as u64) & 0xfff) << 20
}

/// The bits of an instruction word that hold an S immediate, with `imm` in
/// them.
pub open spec fn place_imm_s(imm: i64) -> u64
    recommends
        -2048 <= imm < 2048,
{
    ((((imm as u64) >> 5) & 0x7f) << 25) | (((imm as u64) & 0x1f) << 7)
}

/// The bits of an instruction word that hold a B immediate, with `imm` in
/// them.
pub open spec fn place_imm_b(imm: i64) -> u64
    recommends
        -4096 <= imm < 4096,
        (imm as u64) & 1 == 0,
{
    ((((imm as u64) >> 12) & 1) << 31) | ((((imm as u64) >> 5) & 0x3f) << 25) | ((((imm as u64)
        >> 1) & 0xf) << 8) | ((((imm as u64) >> 11) & 1) << 7)
}

/// The bits of an instruction word that hold a U immediate, with `imm` in
/// them.
pub open spec fn place_imm_u(imm: i64) -> u64
    recommends
        -0x8000_0000 <= imm < 0x8000_0000,
        (imm as u64) & 0xfff == 0,
{
    (imm as u64) & 0xffff_f000
}

/// The bits of an instruction word that hold a J immediate, with `imm` in
/// them.
pub open spec fn place_imm_j(imm: i64) -> u64
    recommends
        -0x10_0000 <= imm < 0x10_0000,
        (imm as u64) & 1 == 0,
{
    ((((imm as u64) >> 20) & 1) << 31) | ((((imm as u64) >> 1) & 0x3ff) << 21) | ((((imm as u64)
        >> 11) & 1) << 20) | ((((imm as u64) >> 12) & 0xff) << 12)
}

/// An immediate of any sign and magnitude that its format can hold comes back
/// out of the word it was placed in, whatever the other bits of the word are.
pub proof fn lemma_immediates_come_back(imm: i64, rest: u64)
    by (bit_vector)
    ensures
        -2048 <= imm < 2048 ==> imm_i(place_imm_i(imm) | (rest & 0x000f_ffff)) == imm as u64,
        -2048 <= imm < 2048 ==> imm_s(place_imm_s(imm) | (rest & 0x01ff_f07f)) == imm as u64,
        -4096 <= imm < 4096 && (imm as u64) & 1 == 0 ==> imm_b(place_imm_b(imm) | (rest & 0x01ff_f07f))
            == imm as u64,
        -0x8000_0000 <= imm < 0x8000_0000 && (imm as u64) & 0xfff == 0 ==> imm_u(
            place_imm_u(imm) | (rest & 0x0000_0fff),
        ) == imm as u64,
        -0x10_0000 <= imm < 0x10_0000 && (imm as u64) & 1 == 0 ==> imm_j(
            place_imm_j(imm) | (rest & 0x0000_0fff),
        ) == imm as u64,
{
}

/// The word of `ADDI rd, rs1, imm`.
pub open spec fn addi(rd: u64, rs1: u64, imm: i64) -> u64
    recommends
        rd < 32,
        rs1 < 32,
        -2048 <= imm < 2048,
{
    0x13 | (rd << 7) | (rs1 << 15) | place_imm_i(imm)
}

/// The word of `CSRRW rd, csr, rs1`.
pub open spec fn csrrw(rd: u64, csr: u64, rs1: u64) -> u64
    recommends
        rd < 32,
        rs1 < 32,
        csr < 4096,
{
    0x73 | (rd << 7) | (1u64 << 12) | (rs1 << 15) | (csr << 20)
}

// Arithmetic on register values. Sums, differences and products are taken
// modulo 2^64; nothing overflows and nothing traps.

pub open spec fn add64(a: u64, b: u64) -> u64 {
    wrap(a + b)
}

pub open spec fn sub64(a: u64, b: u64) -> u64 {
    wrap(a - b)
}

pub open spec fn mul64(a: u64, b: u64) -> u64 {
    wrap(a * b)
}

/// Shift right that copies the sign bit in from the left.
pub open spec fn sra64(a: u64, shift: u64) -> u64
    recommends
        shift < 64,
{
    if signed(a) < 0 {
        (a >> shift) | !(0xffff_ffff_ffff_ffffu64 >> shift)
    } else {
        a >> shift
    }
}

/// One if `a` is below `b` as signed numbers, else zero.
pub open spec fn slt(a: u64, b: u64) -> u64 {
    if signed(a) < signed(b) {
        1
    } else {
        0
    }
}

/// One if `a` is below `b` as unsigned numbers, else zero.
pub open spec fn sltu(a: u64, b: u64) -> u64 {
    if a < b {
        1
    } else {
        0
    }
}

/// Unsigned quotient; all ones where the divisor is zero.
pub open spec fn divu(a: u64, b: u64) -> u64 {
    if b == 0 {
        0xffff_ffff_ffff_ffff
    } else {
        a / b
    }
}

/// Unsigned remainder of the low words, sign-extended; the dividend as it is
/// where the low word of the divisor is zero.
pub open spec fn remuw(a: u64, b: u64) -> u64 {
    if zero_extend(b, 32) == 0 {
        a
    } else {
        sign_extend(zero_extend(a, 32) % zero_extend(b, 32), 32)
    }
}

/// What a register-immediate instruction computes from the value of `rs1` and
/// its I immediate, or `None` where `funct3` and `funct7` name no instruction.
/// A shift takes its amount, six bits, from the low end of the immediate; bit 25
/// of the word belongs to that amount, so only `funct7 >> 1` tells the two right
/// shifts apart.
pub open spec fn op_imm(funct3: u64, funct7: u64, a: u64, imm: u64) -> Option<u64> {
    let shamt = imm & 0x3f;
    if funct3 == 0 {
        Some(add64(a, imm))
    } else if funct3 == 1 {
        Some(a << shamt)
    } else if funct3 == 2 {
        Some(slt(a, imm))
    } else if funct3 == 3 {
        Some(sltu(a, imm))
    } else if funct3 == 4 {
        Some(a ^ imm)
    } else if funct3 == 5 && funct7 >> 1 == 0x00 {
        Some(a >> shamt)
    } else if funct3 == 5 && funct7 >> 1 == 0x10 {
        Some(sra64(a, shamt))
    } else if funct3 == 6 {
        Some(a | imm)
    } else if funct3 == 7 {
        Some(a & imm)
    } else {
        None
    }
}

/// What a register-immediate word instruction computes: a 32-bit operation on
/// the low word of `a`, its result sign-extended. A shift amount has five bits.
pub open spec fn op_imm_w(funct3: u64, funct7: u64, a: u64, imm: u64) -> Option<u64> {
    let shamt = imm & 0x1f;
    if funct3 == 0 {
        Some(sign_extend(add64(a, imm), 32))
    } else if funct3 == 1 {
        Some(sign_extend(a << shamt, 32))
    } else if funct3 == 5 && funct7 == 0x00 {
        Some(sign_extend(zero_extend(a, 32) >> shamt, 32))
    } else if funct3 == 5 && funct7 == 0x20 {
        Some(sra64(sign_extend(a, 32), shamt))
    } else {
        None
    }
}

/// What a register-register instruction computes from the values of `rs1` and
/// `rs2`. A shift amount is the low six bits of `b`.
pub open spec fn op(funct3: u64, funct7: u64, a: u64, b: u64) -> Option<u64> {
    let shamt = b & 0x3f;
    if funct3 == 0 && funct7 == 0x00 {
        Some(add64(a, b))
    } else if funct3 == 0 && funct7 == 0x01 {
        Some(mul64(a, b))
    } else if funct3 == 0 && funct7 == 0x20 {
        Some(sub64(a, b))
    } else if funct3 == 1 && funct7 == 0x00 {
        Some(a << shamt)
    } else if funct3 == 2 && funct7 == 0x00 {
        Some(slt(a, b))
    } else if funct3 == 3 && funct7 == 0x00 {
        Some(sltu(a, b))
    } else if funct3 == 4 && funct7 == 0x00 {
        Some(a ^ b)
    } else if funct3 == 5 && funct7 == 0x00 {
        Some(a >> shamt)
    } else if funct3 == 5 && funct7 == 0x01 {
        Some(divu(a, b))
    } else if funct3 == 5 && funct7 == 0x20 {
        Some(sra64(a, shamt))
    } else if funct3 == 6 && funct7 == 0x00 {
        Some(a | b)
    } else if funct3 == 7 && funct7 == 0x00 {
        Some(a & b)
    } else {
        None
    }
}

/// What a register-register word instruction computes. A shift amount is the
/// low five bits of `b`.
pub open spec fn op_w(funct3: u64, funct7: u64, a: u64, b: u64) -> Option<u64> {
    let shamt = b & 0x1f;
    if funct3 == 0 && funct7 == 0x00 {
        Some(sign_extend(add64(a, b), 32))
    } else if funct3 == 0 && funct7 == 0x20 {
        Some(sign_extend(sub64(a, b), 32))
    } else if funct3 == 1 && funct7 == 0x00 {
        Some(sign_extend(a << shamt, 32))
    } else if funct3 == 5 && funct7 == 0x00 {
        Some(sign_extend(zero_extend(a, 32) >> shamt, 32))
    } else if funct3 == 5 && funct7 == 0x20 {
        Some(sra64(sign_extend(a, 32), shamt))
    } else if funct3 == 7 && funct7 == 0x01 {
        Some(remuw(a, b))
    } else {
        None
    }
}

/// Whether a branch is taken, given the values of `rs1` and `rs2`.
pub open spec fn branch(funct3: u64, a: u64, b: u64) -> Option<bool> {
    if funct3 == 0 {
        Some(a == b)
    } else if funct3 == 1 {
        Some(a != b)
    } else if funct3 == 4 {
        Some(signed(a) < signed(b))
    } else if funct3 == 5 {
        Some(signed(a) >= signed(b))
    } else if funct3 == 6 {
        Some(a < b)
    } else if funct3 == 7 {
        Some(a >= b)
    } else {
        None
    }
}

/// The width in bits of a load and whether the loaded value is sign-extended.
pub open spec fn load_kind(funct3: u64) -> Option<(u64, bool)> {
    if funct3 == 0 {
        Some((8, true))
    } else if funct3 == 1 {
        Some((16, true))
    } else if funct3 == 2 {
        Some((32, true))
    } else if funct3 == 3 {
        Some((64, true))
    } else if funct3 == 4 {
        Some((8, false))
    } else if funct3 == 5 {
        Some((16, false))
    } else if funct3 == 6 {
        Some((32, false))
    } else {
        None
    }
}

/// The width in bits of a store.
pub open spec fn store_width(funct3: u64) -> Option<u64> {
    if funct3 == 0 {
        Some(8)
    } else if funct3 == 1 {
        Some(16)
    } else if funct3 == 2 {
        Some(32)
    } else if funct3 == 3 {
        Some(64)
    } else {
        None
    }
}

/// The width in bits of an atomic instruction and whether it adds (else it
/// swaps).
pub open spec fn amo_kind(funct3: u64, funct5: u64) -> Option<(u64, bool)> {
    if funct3 == 2 && funct5 == 0 {
        Some((32, true))
    } else if funct3 == 3 && funct5 == 0 {
        Some((64, true))
    } else if funct3 == 2 && funct5 == 1 {
        Some((32, false))
    } else if funct3 == 3 && funct5 == 1 {
        Some((64, false))
    } else {
        None
    }
}

/// What a CSR instruction writes, given what the register held and the source
/// operand: write, set bits, clear bits.
pub open spec fn csr_update(funct3: u64, held: u64, src: u64) -> Option<u64> {
    if funct3 == 1 || funct3 == 5 {
        Some(src)
    } else if funct3 == 2 || funct3 == 6 {
        Some(held | src)
    } else if funct3 == 3 || funct3 == 7 {
        Some(held & !src)
    } else {
        None
    }
}

} // verus!
