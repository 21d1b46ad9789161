//! The executable decoder: fields and immediates of an instruction word.

use vstd::prelude::*;
use crate::isa;

verus! {

proof fn lemma_funct5(inst: u64)
    by (bit_vector)
    ensures
        (((inst >> 25) & 0x7f) & 0x7c) >> 2 == (inst >> 27) & 0x1f,
{
}

proof fn lemma_immediates(inst: u64)
    by (bit_vector)
    ensures
        ((inst as i32 as i64) >> 20) as u64 == isa::imm_i(inst),
        ((((inst & 0xfe000000) as i32 as i64) >> 20) as u64) | ((inst >> 7) & 0x1f) == isa::imm_s(
            inst,
        ),
        ((((inst & 0x80000000) as i32 as i64) >> 19) as u64) | ((inst & 0x80) << 4) | ((inst >> 20)
            & 0x7e0) | ((inst >> 7) & 0x1e) == isa::imm_b(inst),
        (inst & 0xfffff000) as i32 as i64 as u64 == isa::imm_u(inst),
        ((((inst & 0x80000000) as i32 as i64) >> 11) as u64) | (inst & 0xff000) | ((inst >> 9)
            & 0x800) | ((inst >> 20) & 0x7fe) == isa::imm_j(inst),
{
}

pub fn opcode(inst: u64) -> (field: u64)
    ensures
        field == isa::opcode(inst),
        field < 0x80,
{
    proof {
        isa::lemma_field_ranges(inst);
    }
    inst & 0x7f
}

pub fn rd(inst: u64) -> (field: usize)
    ensures
        field == isa::rd(inst),
        field < 32,
{
    proof {
        isa::lemma_field_ranges(inst);
    }
    ((inst >> 7) & 0x1f) as usize
}

pub fn funct3(inst: u64) -> (field: u64)
    ensures
        field == isa::funct3(inst),
        field < 8,
{
    proof {
        isa::lemma_field_ranges(inst);
    }
    (inst >> 12) & 0x07
}

pub fn rs1(inst: u64) -> (field: usize)
    ensures
        field == isa::rs1(inst),
        field < 32,
{
    proof {
        isa::lemma_field_ranges(inst);
    }
    ((inst >> 15) & 0x1f) as usize
}

pub fn rs2(inst: u64) -> (field: usize)
    ensures
        field == isa::rs2(inst),
        field < 32,
{
    proof {
        isa::lemma_field_ranges(inst);
    }
    ((inst >> 20) & 0x1f) as usize
}

pub fn funct7(inst: u64) -> (field: u64)
    ensures
        field == isa::funct7(inst),
        field < 0x80,
{
    proof {
        isa::lemma_field_ranges(inst);
    }
    (inst >> 25) & 0x7f
}

pub fn funct5(inst: u64) -> (field: u64)
    ensures
        field == isa::funct5(inst),
        field < 32,
{
    proof {
        isa::lemma_field_ranges(inst);
        lemma_funct5(inst);
    }
    (funct7(inst) & 0b1111100) >> 2
}

pub fn csr_index(inst: u64) -> (field: usize)
    ensures
        field == isa::csr_index(inst),
        field < 4096,
{
    proof {
        isa::lemma_field_ranges(inst);
    }
    ((inst >> 20) & 0xfff) as usize
}

pub fn imm_i(inst: u64) -> (imm: u64)
    ensures
        imm == isa::imm_i(inst),
{
    proof {
        lemma_immediates(inst);
    }
    ((inst as i32 as i64) >> 20) as u64
}

pub fn imm_s(inst: u64) -> (imm: u64)
    ensures
        imm == isa::imm_s(inst),
{
    proof {
        lemma_immediates(inst);
    }
    ((((inst & 0xfe000000) as i32 as i64) >> 20) as u64) | ((inst >> 7) & 0x1f)
}

pub fn imm_b(inst: u64) -> (imm: u64)
    ensures
        imm == isa::imm_b(inst),
{
    proof {
        lemma_immediates(inst);
    }
    ((((inst & 0x80000000) as i32 as i64) >> 19) as u64) | ((inst & 0x80) << 4) | ((inst >> 20)
        & 0x7e0) | ((inst >> 7) & 0x1e)
}

pub fn imm_u(inst: u64) -> (imm: u64)
    ensures
        imm == isa::imm_u(inst),
{
    proof {
        lemma_immediates(inst);
    }
    (inst & 0xfffff000) as i32 as i64 as u64
}

pub fn imm_j(inst: u64) -> (imm: u64)
    ensures
        imm == isa::imm_j(inst),
{
    proof {
        lemma_immediates(inst);
    }
    ((((inst & 0x80000000) as i32 as i64) >> 11) as u64) | (inst & 0xff000) | ((inst >> 9) & 0x800)
        | ((inst >> 20) & 0x7fe)
}

} // verus!
