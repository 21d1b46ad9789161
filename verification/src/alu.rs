//! The executable ALU: what each arithmetic instruction computes from its
//! operands, on machine integers.

use vstd::prelude::*;
use crate::isa;

verus! {

proof fn lemma_signed(a: u64)
    by (bit_vector)
    ensures
        (a as i64) as int == isa::signed(a),
        a as i32 as i64 as u64 == isa::sign_extend(a, 32),
        (a as u32) as u64 == isa::zero_extend(a, 32),
        a as i16 as i64 as u64 == isa::sign_extend(a, 16),
        a as i8 as i64 as u64 == isa::sign_extend(a, 8),
        a & 0x3f < 64,
        a & 0x1f < 32,
        a & 0x1f < 64,
{
}

proof fn lemma_shifts(a: u64, shift: u64)
    by (bit_vector)
    requires
        shift < 64,
    ensures
        ((a as i64) >> shift) as u64 == isa::sra64(a, shift),
        shift < 32 ==> ((a as u32) << shift) as i32 as i64 as u64 == isa::sign_extend(
            a << shift,
            32,
        ),
        shift < 32 ==> ((a as u32) >> shift) as i32 as i64 as u64 == isa::sign_extend(
            isa::zero_extend(a, 32) >> shift,
            32,
        ),
        shift < 32 ==> ((a as i32) >> shift) as i64 as u64 == isa::sra64(
            isa::sign_extend(a, 32),
            shift,
        ),
{
}

/// `value` cut to `bits` bits and sign-extended from there.
pub fn sign_extend(value: u64, bits: u64) -> (extended: u64)
    requires
        bits == 8 || bits == 16 || bits == 32 || bits == 64,
    ensures
        extended == isa::sign_extend(value, bits),
{
    proof {
        lemma_signed(value);
    }
    if bits == 8 {
        value as i8 as i64 as u64
    } else if bits == 16 {
        value as i16 as i64 as u64
    } else if bits == 32 {
        value as i32 as i64 as u64
    } else {
        value
    }
}

/// The result of a register-immediate instruction, `None` where there is no
/// such instruction.
pub fn op_imm(funct3: u64, funct7: u64, a: u64, imm: u64) -> (value: Option<u64>)
    ensures
        value == isa::op_imm(funct3, funct7, a, imm),
{
    let shamt = imm & 0x3f;
    proof {
        lemma_signed(a);
        lemma_signed(imm);
        lemma_shifts(a, shamt);
    }
    match funct3 {
        0x0 => Some(a.wrapping_add(imm)),
        0x1 => Some(a << shamt),
        0x2 => Some(
            if (a as i64) < (imm as i64) {
                1
            } else {
                0
            },
        ),
        0x3 => Some(
            if a < imm {
                1
            } else {
                0
            },
        ),
        0x4 => Some(a ^ imm),
        0x5 => {
            if funct7 >> 1 == 0x00 {
                Some(a >> shamt)
            } else if funct7 >> 1 == 0x10 {
                Some(((a as i64) >> shamt) as u64)
            } else {
                None
            }
        },
        0x6 => Some(a | imm),
        0x7 => Some(a & imm),
        _ => None,
    }
}

/// The result of a register-immediate word instruction.
pub fn op_imm_w(funct3: u64, funct7: u64, a: u64, imm: u64) -> (value: Option<u64>)
    ensures
        value == isa::op_imm_w(funct3, funct7, a, imm),
{
    let shamt = imm & 0x1f;
    proof {
        lemma_signed(imm);
        lemma_signed(a.wrapping_add(imm));
        lemma_signed(a << shamt);
        lemma_shifts(a, shamt);
    }
    match funct3 {
        0x0 => Some(a.wrapping_add(imm) as i32 as i64 as u64),
        0x1 => Some((a << shamt) as i32 as i64 as u64),
        0x5 => {
            if funct7 == 0x00 {
                Some(((a as u32) >> shamt) as i32 as i64 as u64)
            } else if funct7 == 0x20 {
                Some(((a as i32) >> shamt) as i64 as u64)
            } else {
                None
            }
        },
        _ => None,
    }
}

/// The result of a register-register instruction.
pub fn op(funct3: u64, funct7: u64, a: u64, b: u64) -> (value: Option<u64>)
    ensures
        value == isa::op(funct3, funct7, a, b),
{
    let shamt = b & 0x3f;
    proof {
        lemma_signed(a);
        lemma_signed(b);
        lemma_shifts(a, shamt);
    }
    if funct3 == 0x0 && funct7 == 0x00 {
        Some(a.wrapping_add(b))
    } else if funct3 == 0x0 && funct7 == 0x01 {
        Some(a.wrapping_mul(b))
    } else if funct3 == 0x0 && funct7 == 0x20 {
        Some(a.wrapping_sub(b))
    } else if funct3 == 0x4 && funct7 == 0x00 {
        Some(a ^ b)
    } else if funct3 == 0x6 && funct7 == 0x00 {
        Some(a | b)
    } else if funct3 == 0x7 && funct7 == 0x00 {
        Some(a & b)
    } else if funct3 == 0x1 && funct7 == 0x00 {
        Some(a << shamt)
    } else if funct3 == 0x5 && funct7 == 0x00 {
        Some(a >> shamt)
    } else if funct3 == 0x5 && funct7 == 0x01 {
        Some(
            if b == 0 {
                0xffffffff_ffffffff
            } else {
                a / b
            },
        )
    } else if funct3 == 0x5 && funct7 == 0x20 {
        Some(((a as i64) >> shamt) as u64)
    } else if funct3 == 0x2 && funct7 == 0x00 {
        Some(
            if (a as i64) < (b as i64) {
                1
            } else {
                0
            },
        )
    } else if funct3 == 0x3 && funct7 == 0x00 {
        Some(
            if a < b {
                1
            } else {
                0
            },
        )
    } else {
        None
    }
}

/// The result of a register-register word instruction.
pub fn op_w(funct3: u64, funct7: u64, a: u64, b: u64) -> (value: Option<u64>)
    ensures
        value == isa::op_w(funct3, funct7, a, b),
{
    let shamt = b & 0x1f;
    proof {
        lemma_signed(a);
        lemma_signed(b);
        lemma_signed(a.wrapping_add(b));
        lemma_signed(a.wrapping_sub(b));
        lemma_shifts(a, shamt);
    }
    if funct3 == 0x0 && funct7 == 0x00 {
        Some(a.wrapping_add(b) as i32 as i64 as u64)
    } else if funct3 == 0x0 && funct7 == 0x20 {
        Some(a.wrapping_sub(b) as i32 as i64 as u64)
    } else if funct3 == 0x1 && funct7 == 0x00 {
        Some(((a as u32) << shamt) as i32 as i64 as u64)
    } else if funct3 == 0x5 && funct7 == 0x00 {
        Some(((a as u32) >> shamt) as i32 as i64 as u64)
    } else if funct3 == 0x5 && funct7 == 0x20 {
        Some(((a as i32) >> shamt) as i64 as u64)
    } else if funct3 == 0x7 && funct7 == 0x01 {
        let dividend = a as u32;
        let divisor = b as u32;
        if divisor == 0 {
            Some(a)
        } else {
            let remainder = (dividend % divisor) as u64;
            proof {
                lemma_signed(remainder);
            }
            Some(remainder as i32 as i64 as u64)
        }
    } else {
        None
    }
}

/// Whether a branch is taken, `None` where there is no such branch.
pub fn branch(funct3: u64, a: u64, b: u64) -> (taken: Option<bool>)
    ensures
        taken == isa::branch(funct3, a, b),
{
    proof {
        lemma_signed(a);
        lemma_signed(b);
    }
    match funct3 {
        0x0 => Some(a == b),
        0x1 => Some(a != b),
        0x4 => Some((a as i64) < (b as i64)),
        0x5 => Some((a as i64) >= (b as i64)),
        0x6 => Some(a < b),
        0x7 => Some(a >= b),
        _ => None,
    }
}

/// What a CSR instruction writes, `None` where there is no such instruction.
pub fn csr_update(funct3: u64, held: u64, src: u64) -> (value: Option<u64>)
    ensures
        value == isa::csr_update(funct3, held, src),
{
    match funct3 {
        0x1 | 0x5 => Some(src),
        0x2 | 0x6 => Some(held | src),
        0x3 | 0x7 => Some(held & !src),
        _ => None,
    }
}

} // verus!
