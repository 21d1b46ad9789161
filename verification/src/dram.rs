//! Main memory: a little-endian byte store of fixed size.

use vstd::prelude::*;
use crate::trap::Exception;

verus! {

pub const DRAM_SIZE: u64 = 1024 * 1024 * 128;

pub const DRAM_BASE: u64 = 0x8000_0000;

/// The access widths, in bits, that memory accepts.
pub open spec fn is_width(size: u64) -> bool {
    size == 8 || size == 16 || size == 32 || size == 64
}

/// An access of `size` bits at `addr` lies wholly inside DRAM.
pub open spec fn in_dram(addr: u64, size: u64) -> bool {
    DRAM_BASE <= addr && addr + size / 8 <= DRAM_BASE + DRAM_SIZE
}

/// The number that `n` bytes of `mem` from index `at` on spell, least
/// significant byte first.
pub open spec fn le_value(mem: Seq<u8>, at: int, n: nat) -> nat
    decreases n,
{
    if n == 0 {
        0
    } else {
        mem[at] as nat + 256 * le_value(mem, at + 1, (n - 1) as nat)
    }
}

/// Byte `k` of `value`, counting from the least significant.
pub open spec fn le_byte(value: u64, k: int) -> u8 {
    ((value >> ((8 * k) as u64)) & 0xff) as u8
}

/// `mem` with the `n` low bytes of `value` laid down from index `at` on, least
/// significant byte first.
pub open spec fn le_update(mem: Seq<u8>, at: int, n: nat, value: u64) -> Seq<u8> {
    Seq::new(
        mem.len(),
        |i: int|
            if at <= i < at + n {
                le_byte(value, i - at)
            } else {
                mem[i]
            },
    )
}

/// The `size` low bits of `value`.
pub open spec fn low_bits(value: u64, size: u64) -> u64 {
    if size >= 64 {
        value
    } else {
        value & (((1u64 << size) - 1) as u64)
    }
}

/// Memory right after construction: the image at the bottom, zeros above it.
pub open spec fn image(code: Seq<u8>) -> Seq<u8> {
    Seq::new(
        DRAM_SIZE as nat,
        |i: int|
            if i < code.len() {
                code[i]
            } else {
                0u8
            },
    )
}

/// What a load of `size` bits at `addr` returns.
pub open spec fn dram_load(mem: Seq<u8>, addr: u64, size: u64) -> Result<u64, Exception> {
    if is_width(size) && in_dram(addr, size) {
        Ok(le_value(mem, addr - DRAM_BASE, (size / 8) as nat) as u64)
    } else {
        Err(Exception::LoadAccessFault)
    }
}

/// Whether a store of `size` bits at `addr` is accepted.
pub open spec fn dram_store_result(addr: u64, size: u64) -> Result<(), Exception> {
    if is_width(size) && in_dram(addr, size) {
        Ok(())
    } else {
        Err(Exception::StoreAMOAccessFault)
    }
}

/// Memory after a store of `size` bits at `addr`; a refused store changes nothing.
pub open spec fn dram_store(mem: Seq<u8>, addr: u64, size: u64, value: u64) -> Seq<u8> {
    if is_width(size) && in_dram(addr, size) {
        le_update(mem, addr - DRAM_BASE, (size / 8) as nat, value)
    } else {
        mem
    }
}

proof fn lemma_le_join(b0: u8, b1: u8, b2: u8, b3: u8, b4: u8, b5: u8, b6: u8, b7: u8)
    by (bit_vector)
    ensures
        (b0 as u64) | ((b1 as u64) << 8) == b0 + 256 * b1,
        (b0 as u64) | ((b1 as u64) << 8) | ((b2 as u64) << 16) | ((b3 as u64) << 24)
            == b0 + 256 * (b1 + 256 * (b2 + 256 * b3)),
        (b0 as u64) | ((b1 as u64) << 8) | ((b2 as u64) << 16) | ((b3 as u64) << 24)
            | ((b4 as u64) << 32) | ((b5 as u64) << 40) | ((b6 as u64) << 48)
            | ((b7 as u64) << 56)
            == b0 + 256 * (b1 + 256 * (b2 + 256 * (b3 + 256 * (b4 + 256 * (b5 + 256 * (b6 + 256 * b7)))))),
{
}

proof fn lemma_le_split(v: u64)
    by (bit_vector)
    ensures
        (((v >> 0) & 0xff) as u8) as u64 == v & 0xff,
        (((v >> 0) & 0xff) as u8) + 256 * (((v >> 8) & 0xff) as u8) == v & 0xffff,
        (((v >> 0) & 0xff) as u8) + 256 * ((((v >> 8) & 0xff) as u8) + 256 * ((((v >> 16) & 0xff) as u8)
            + 256 * (((v >> 24) & 0xff) as u8))) == v & 0xffff_ffff,
        (((v >> 0) & 0xff) as u8) + 256 * ((((v >> 8) & 0xff) as u8) + 256 * ((((v >> 16) & 0xff) as u8)
            + 256 * ((((v >> 24) & 0xff) as u8) + 256 * ((((v >> 32) & 0xff) as u8) + 256 * ((((v >> 40)
            & 0xff) as u8) + 256 * ((((v >> 48) & 0xff) as u8) + 256 * (((v >> 56) & 0xff) as u8)))))))
            == v,
        v >> 0 == v,
        (1u64 << 8) - 1 == 0xff,
        (1u64 << 16) - 1 == 0xffff,
        (1u64 << 32) - 1 == 0xffff_ffff,
{
}

/// A value read back at the width and address it was stored at comes back cut
/// to that width.
pub proof fn lemma_load_after_store(mem: Seq<u8>, addr: u64, size: u64, value: u64)
    requires
        mem.len() == DRAM_SIZE,
        is_width(size),
        in_dram(addr, size),
    ensures
        dram_load(dram_store(mem, addr, size, value), addr, size) == Ok::<u64, Exception>(
            low_bits(value, size),
        ),
{
    let after = dram_store(mem, addr, size, value);
    let at = addr - DRAM_BASE;
    reveal_with_fuel(le_value, 9);
    lemma_le_split(value);
    assert(forall|k: int| 0 <= k < size / 8 ==> after[at + k] == le_byte(value, k));
}

/// DRAM: exactly `DRAM_SIZE` bytes, the first of them at `DRAM_BASE`.
pub struct Dram {
    dram: Vec<u8>,
}

impl View for Dram {
    type V = Seq<u8>;

    closed spec fn view(&self) -> Seq<u8> {
        self.dram@
    }
}

impl Dram {
    #[verifier::type_invariant]
    pub open spec fn wf(&self) -> bool {
        self@.len() == DRAM_SIZE
    }

    /// Memory holding `code` from `DRAM_BASE` on and zeros elsewhere.
    pub fn new(code: Vec<u8>) -> (dram: Self)
        requires
            code.len() <= DRAM_SIZE,
        ensures
            dram@ == image(code@),
    {
        let mut dram = code;
        dram.resize(DRAM_SIZE as usize, 0u8);
        assert(dram@ =~= image(code@));
        Self { dram }
    }

    pub fn load(&self, addr: u64, size: u64) -> (result: Result<u64, Exception>)
        ensures
            result == dram_load(self@, addr, size),
            self@.len() == DRAM_SIZE,
    {
        proof {
            use_type_invariant(self);
        }
        if addr < DRAM_BASE || addr - DRAM_BASE >= DRAM_SIZE {
            return Err(Exception::LoadAccessFault);
        }
        let room = DRAM_SIZE - (addr - DRAM_BASE);
        match size {
            8 => Ok(self.load8(addr)),
            16 if room >= 2 => Ok(self.load16(addr)),
            32 if room >= 4 => Ok(self.load32(addr)),
            64 if room >= 8 => Ok(self.load64(addr)),
            _ => Err(Exception::LoadAccessFault),
        }
    }

    pub fn store(&mut self, addr: u64, size: u64, value: u64) -> (result: Result<(), Exception>)
        ensures
            result == dram_store_result(addr, size),
            final(self)@ == dram_store(old(self)@, addr, size, value),
            final(self)@.len() == DRAM_SIZE,
    {
        proof {
            use_type_invariant(&*self);
        }
        if addr < DRAM_BASE || addr - DRAM_BASE >= DRAM_SIZE {
            return Err(Exception::StoreAMOAccessFault);
        }
        let room = DRAM_SIZE - (addr - DRAM_BASE);
        if size == 8 {
            self.store8(addr, value);
            assert(self@ == le_update(old(self)@, addr - DRAM_BASE, 1, value));
            assert(self@ == dram_store(old(self)@, addr, size, value));
            Ok(())
        } else if size == 16 && room >= 2 {
            self.store16(addr, value);
            Ok(())
        } else if size == 32 && room >= 4 {
            self.store32(addr, value);
            Ok(())
        } else if size == 64 && room >= 8 {
            self.store64(addr, value);
            Ok(())
        } else {
            Err(Exception::StoreAMOAccessFault)
        }
    }

    pub fn load8(&self, addr: u64) -> (value: u64)
        requires
            in_dram(addr, 8),
        ensures
            value == le_value(self@, addr - DRAM_BASE, 1),
    {
        proof {
            use_type_invariant(self);
            reveal_with_fuel(le_value, 2);
        }
        let index = (addr - DRAM_BASE) as usize;
        self.dram[index] as u64
    }

    pub fn load16(&self, addr: u64) -> (value: u64)
        requires
            in_dram(addr, 16),
        ensures
            value == le_value(self@, addr - DRAM_BASE, 2),
    {
        proof {
            use_type_invariant(self);
            reveal_with_fuel(le_value, 3);
        }
        let index = (addr - DRAM_BASE) as usize;
        let b0 = self.dram[index];
        let b1 = self.dram[index + 1];
        proof {
            lemma_le_join(b0, b1, 0, 0, 0, 0, 0, 0);
        }
        (b0 as u64) | ((b1 as u64) << 8)
    }

    pub fn load32(&self, addr: u64) -> (value: u64)
        requires
            in_dram(addr, 32),
        ensures
            value == le_value(self@, addr - DRAM_BASE, 4),
    {
        proof {
            use_type_invariant(self);
            reveal_with_fuel(le_value, 5);
        }
        let index = (addr - DRAM_BASE) as usize;
        let b0 = self.dram[index];
        let b1 = self.dram[index + 1];
        let b2 = self.dram[index + 2];
        let b3 = self.dram[index + 3];
        proof {
            lemma_le_join(b0, b1, b2, b3, 0, 0, 0, 0);
        }
        (b0 as u64) | ((b1 as u64) << 8) | ((b2 as u64) << 16) | ((b3 as u64) << 24)
    }

    pub fn load64(&self, addr: u64) -> (value: u64)
        requires
            in_dram(addr, 64),
        ensures
            value == le_value(self@, addr - DRAM_BASE, 8),
    {
        proof {
            use_type_invariant(self);
            reveal_with_fuel(le_value, 9);
        }
        let index = (addr - DRAM_BASE) as usize;
        let b0 = self.dram[index];
        let b1 = self.dram[index + 1];
        let b2 = self.dram[index + 2];
        let b3 = self.dram[index + 3];
        let b4 = self.dram[index + 4];
        let b5 = self.dram[index + 5];
        let b6 = self.dram[index + 6];
        let b7 = self.dram[index + 7];
        proof {
            lemma_le_join(b0, b1, b2, b3, b4, b5, b6, b7);
        }
        (b0 as u64) | ((b1 as u64) << 8) | ((b2 as u64) << 16) | ((b3 as u64) << 24) | ((b4 as u64)
            << 32) | ((b5 as u64) << 40) | ((b6 as u64) << 48) | ((b7 as u64) << 56)
    }

    pub fn store8(&mut self, addr: u64, value: u64)
        requires
            in_dram(addr, 8),
        ensures
            final(self)@ == le_update(old(self)@, addr - DRAM_BASE, 1, value),
    {
        proof {
            use_type_invariant(&*self);
        }
        let index = (addr - DRAM_BASE) as usize;
        self.dram[index] = (value & 0xff) as u8;
        proof {
            lemma_le_split(value);
            assert(self@ =~= le_update(old(self)@, addr - DRAM_BASE, 1, value));
        }
    }

    pub fn store16(&mut self, addr: u64, value: u64)
        requires
            in_dram(addr, 16),
        ensures
            final(self)@ == le_update(old(self)@, addr - DRAM_BASE, 2, value),
    {
        proof {
            use_type_invariant(&*self);
        }
        let index = (addr - DRAM_BASE) as usize;
        self.dram[index] = (value & 0xff) as u8;
        self.dram[index + 1] = ((value >> 8) & 0xff) as u8;
        proof {
            lemma_le_split(value);
            assert(self@ =~= le_update(old(self)@, addr - DRAM_BASE, 2, value));
        }
    }

    pub fn store32(&mut self, addr: u64, value: u64)
        requires
            in_dram(addr, 32),
        ensures
            final(self)@ == le_update(old(self)@, addr - DRAM_BASE, 4, value),
    {
        proof {
            use_type_invariant(&*self);
        }
        let index = (addr - DRAM_BASE) as usize;
        self.dram[index] = (value & 0xff) as u8;
        self.dram[index + 1] = ((value >> 8) & 0xff) as u8;
        self.dram[index + 2] = ((value >> 16) & 0xff) as u8;
        self.dram[index + 3] = ((value >> 24) & 0xff) as u8;
        proof {
            lemma_le_split(value);
            assert(self@ =~= le_update(old(self)@, addr - DRAM_BASE, 4, value));
        }
    }

    pub fn store64(&mut self, addr: u64, value: u64)
        requires
            in_dram(addr, 64),
        ensures
            final(self)@ == le_update(old(self)@, addr - DRAM_BASE, 8, value),
    {
        proof {
            use_type_invariant(&*self);
        }
        let index = (addr - DRAM_BASE) as usize;
        self.dram[index] = (value & 0xff) as u8;
        self.dram[index + 1] = ((value >> 8) & 0xff) as u8;
        self.dram[index + 2] = ((value >> 16) & 0xff) as u8;
        self.dram[index + 3] = ((value >> 24) & 0xff) as u8;
        self.dram[index + 4] = ((value >> 32) & 0xff) as u8;
        self.dram[index + 5] = ((value >> 40) & 0xff) as u8;
        self.dram[index + 6] = ((value >> 48) & 0xff) as u8;
        self.dram[index + 7] = ((value >> 56) & 0xff) as u8;
        proof {
            lemma_le_split(value);
            assert(self@ =~= le_update(old(self)@, addr - DRAM_BASE, 8, value));
        }
    }
}

} // verus!
