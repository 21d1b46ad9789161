//! The system bus: the one thing the hart talks to for memory. It decodes each
//! address to a device window or to DRAM.

use vstd::prelude::*;
use crate::clint::{Clint, ClintView};
use crate::dram::{
    dram_load, dram_store, dram_store_result, image, in_dram, is_width, low_bits, Dram, DRAM_BASE,
    DRAM_SIZE,
};
use crate::plic::{Plic, PlicView};
use crate::trap::Exception;

verus! {

pub const CLINT_BASE: u64 = 0x200_0000;

pub const CLINT_SIZE: u64 = 0x10000;

pub const PLIC_BASE: u64 = 0xc00_0000;

pub const PLIC_SIZE: u64 = 0x4000000;

/// A memory-mapped device: loads and stores of a width in bits at an address.
/// What a device holds and answers is its own affair; what it may report is
/// not: a load fails with a load access fault and nothing else, a store with a
/// store access fault and nothing else.
pub trait Device {
    fn load(&self, addr: u64, size: u64) -> (result: Result<u64, Exception>)
        ensures
            result matches Err(e) ==> e == Exception::LoadAccessFault,
    ;

    fn store(&mut self, addr: u64, size: u64, value: u64) -> (result: Result<(), Exception>)
        ensures
            result matches Err(e) ==> e == Exception::StoreAMOAccessFault,
    ;
}

/// `addr` falls in the window of the core-local interruptor.
pub open spec fn in_clint(addr: u64) -> bool {
    CLINT_BASE <= addr < CLINT_BASE + CLINT_SIZE
}

/// `addr` falls in the window of the interrupt controller.
pub open spec fn in_plic(addr: u64) -> bool {
    PLIC_BASE <= addr < PLIC_BASE + PLIC_SIZE
}

/// Everything behind the bus as plain values.
pub struct BusView {
    pub dram: Seq<u8>,
    pub plic: PlicView,
    pub clint: ClintView,
}

impl BusView {
    pub open spec fn wf(self) -> bool {
        self.dram.len() == DRAM_SIZE
    }

    /// The bus right after construction around a binary image.
    pub open spec fn reset(binary: Seq<u8>) -> BusView {
        BusView { dram: image(binary), plic: PlicView::reset(), clint: ClintView::reset() }
    }

    /// What a load returns. The device windows are looked at first, then DRAM;
    /// an address that nothing claims faults.
    pub open spec fn load(self, addr: u64, size: u64) -> Result<u64, Exception> {
        if in_clint(addr) {
            self.clint.load(addr, size)
        } else if in_plic(addr) {
            self.plic.load(addr, size)
        } else if addr >= DRAM_BASE {
            dram_load(self.dram, addr, size)
        } else {
            Err(Exception::LoadAccessFault)
        }
    }

    /// Whether a store is accepted, by the same decoding.
    pub open spec fn store_result(addr: u64, size: u64) -> Result<(), Exception> {
        if in_clint(addr) {
            ClintView::store_result(size)
        } else if in_plic(addr) {
            PlicView::store_result(size)
        } else if addr >= DRAM_BASE {
            dram_store_result(addr, size)
        } else {
            Err(Exception::StoreAMOAccessFault)
        }
    }

    /// The state behind the bus after a store; a refused store changes nothing.
    pub open spec fn store(self, addr: u64, size: u64, value: u64) -> BusView {
        if in_clint(addr) {
            BusView { clint: self.clint.store(addr, size, value), ..self }
        } else if in_plic(addr) {
            BusView { plic: self.plic.store(addr, size, value), ..self }
        } else if addr >= DRAM_BASE {
            BusView { dram: dram_store(self.dram, addr, size, value), ..self }
        } else {
            self
        }
    }
}

/// The two device windows do not meet, and both lie below DRAM: no address is
/// claimed twice.
pub proof fn lemma_windows_are_apart(addr: u64)
    ensures
        !(in_clint(addr) && in_plic(addr)),
        in_clint(addr) || in_plic(addr) ==> addr < DRAM_BASE,
{
}

/// Below DRAM and outside both device windows nothing answers: a load gives a
/// load access fault, a store a store access fault, and the state stays.
pub proof fn lemma_unmapped_faults(bus: BusView, addr: u64, size: u64, value: u64)
    requires
        addr < DRAM_BASE,
        !in_clint(addr),
        !in_plic(addr),
    ensures
        bus.load(addr, size) == Err::<u64, Exception>(Exception::LoadAccessFault),
        BusView::store_result(addr, size) == Err::<(), Exception>(Exception::StoreAMOAccessFault),
        bus.store(addr, size, value) == bus,
{
}

/// An access that reaches past the end of DRAM faults; it never wraps round or
/// lands on another byte.
pub proof fn lemma_past_dram_faults(bus: BusView, addr: u64, size: u64, value: u64)
    requires
        addr >= DRAM_BASE,
        !in_dram(addr, size),
    ensures
        bus.load(addr, size) == Err::<u64, Exception>(Exception::LoadAccessFault),
        BusView::store_result(addr, size) == Err::<(), Exception>(Exception::StoreAMOAccessFault),
        bus.store(addr, size, value) == bus,
{
}

/// What was stored in DRAM through the bus is what a load of the same width at
/// the same address gives, cut to that width.
pub proof fn lemma_load_after_store(bus: BusView, addr: u64, size: u64, value: u64)
    requires
        bus.wf(),
        is_width(size),
        in_dram(addr, size),
    ensures
        BusView::store_result(addr, size) is Ok,
        bus.store(addr, size, value).load(addr, size) == Ok::<u64, Exception>(
            low_bits(value, size),
        ),
{
    crate::dram::lemma_load_after_store(bus.dram, addr, size, value);
}

/// The bus reports a failed load as a load access fault and a failed store as
/// a store access fault, whatever lies behind the address.
pub proof fn lemma_faults_match_the_access(bus: BusView, addr: u64, size: u64, value: u64)
    ensures
        bus.load(addr, size) matches Err(e) ==> e == Exception::LoadAccessFault,
        BusView::store_result(addr, size) matches Err(e) ==> e == Exception::StoreAMOAccessFault
            && bus.store(addr, size, value) == bus,
{
}

/// A load succeeds exactly where a store of the same width would.
pub proof fn lemma_load_ok_iff_store_ok(bus: BusView, addr: u64, size: u64)
    ensures
        bus.load(addr, size) is Ok <==> BusView::store_result(addr, size) is Ok,
{
}

pub struct Bus {
    dram: Dram,
    plic: Plic,
    clint: Clint,
}

impl View for Bus {
    type V = BusView;

    closed spec fn view(&self) -> BusView {
        BusView { dram: self.dram@, plic: self.plic@, clint: self.clint@ }
    }
}

impl Bus {
    pub fn new(binary: Vec<u8>) -> (bus: Self)
        requires
            binary.len() <= DRAM_SIZE,
        ensures
            bus@ == BusView::reset(binary@),
    {
        Self { dram: Dram::new(binary), plic: Plic::new(), clint: Clint::new() }
    }

    pub fn load(&self, addr: u64, size: u64) -> (result: Result<u64, Exception>)
        ensures
            result == self@.load(addr, size),
    {
        if CLINT_BASE <= addr && addr < CLINT_BASE + CLINT_SIZE {
            return self.clint.load(addr, size);
        }
        if PLIC_BASE <= addr && addr < PLIC_BASE + PLIC_SIZE {
            return self.plic.load(addr, size);
        }
        if addr >= DRAM_BASE {
            return self.dram.load(addr, size);
        }
        Err(Exception::LoadAccessFault)
    }

    pub fn store(&mut self, addr: u64, size: u64, value: u64) -> (result: Result<(), Exception>)
        ensures
            result == BusView::store_result(addr, size),
            final(self)@ == old(self)@.store(addr, size, value),
    {
        if CLINT_BASE <= addr && addr < CLINT_BASE + CLINT_SIZE {
            return self.clint.store(addr, size, value);
        }
        if PLIC_BASE <= addr && addr < PLIC_BASE + PLIC_SIZE {
            return self.plic.store(addr, size, value);
        }
        if addr >= DRAM_BASE {
            return self.dram.store(addr, size, value);
        }
        Err(Exception::StoreAMOAccessFault)
    }
}

} // verus!
