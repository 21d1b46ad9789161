//! The platform-level interrupt controller: four 32-bit-accessed registers
//! behind a memory window.

use vstd::prelude::*;
use crate::bus::{Device, PLIC_BASE};
use crate::trap::Exception;

verus! {

pub const PLIC_PENDING: u64 = PLIC_BASE + 0x1000;

pub const PLIC_SENABLE: u64 = PLIC_BASE + 0x2080;

pub const PLIC_SPRIORITY: u64 = PLIC_BASE + 0x201000;

pub const PLIC_SCLAIM: u64 = PLIC_BASE + 0x201004;

/// The registers of the controller as plain values.
pub struct PlicView {
    pub pending: u64,
    pub senable: u64,
    pub spriority: u64,
    pub sclaim: u64,
}

impl PlicView {
    /// All registers zero.
    pub open spec fn reset() -> PlicView {
        PlicView { pending: 0, senable: 0, spriority: 0, sclaim: 0 }
    }

    /// What a load returns: a register at its address, zero elsewhere, and a
    /// fault at any width but 32.
    pub open spec fn load(self, addr: u64, size: u64) -> Result<u64, Exception> {
        if size != 32 {
            Err(Exception::LoadAccessFault)
        } else if addr == PLIC_PENDING {
            Ok(self.pending)
        } else if addr == PLIC_SENABLE {
            Ok(self.senable)
        } else if addr == PLIC_SPRIORITY {
            Ok(self.spriority)
        } else if addr == PLIC_SCLAIM {
            Ok(self.sclaim)
        } else {
            Ok(0)
        }
    }

    /// Whether a store is accepted: at width 32 only.
    pub open spec fn store_result(size: u64) -> Result<(), Exception> {
        if size == 32 {
            Ok(())
        } else {
            Err(Exception::StoreAMOAccessFault)
        }
    }

    /// The registers after a store; a refused store, or one to an address that
    /// names no register, changes nothing.
    pub open spec fn store(self, addr: u64, size: u64, value: u64) -> PlicView {
        if size != 32 {
            self
        } else if addr == PLIC_PENDING {
            PlicView { pending: value, ..self }
        } else if addr == PLIC_SENABLE {
            PlicView { senable: value, ..self }
        } else if addr == PLIC_SPRIORITY {
            PlicView { spriority: value, ..self }
        } else if addr == PLIC_SCLAIM {
            PlicView { sclaim: value, ..self }
        } else {
            self
        }
    }
}

pub struct Plic {
    pending: u64,
    senable: u64,
    spriority: u64,
    sclaim: u64,
}

impl View for Plic {
    type V = PlicView;

    closed spec fn view(&self) -> PlicView {
        PlicView {
            pending: self.pending,
            senable: self.senable,
            spriority: self.spriority,
            sclaim: self.sclaim,
        }
    }
}

impl Device for Plic {
    fn load(&self, addr: u64, size: u64) -> (result: Result<u64, Exception>)
        ensures
            result == self@.load(addr, size),
    {
        if size == 32 {
            if addr == PLIC_PENDING {
                return Ok(self.pending);
            } else if addr == PLIC_SENABLE {
                return Ok(self.senable);
            } else if addr == PLIC_SPRIORITY {
                return Ok(self.spriority);
            } else if addr == PLIC_SCLAIM {
                return Ok(self.sclaim);
            } else {
                return Ok(0);
            }
        }
        Err(Exception::LoadAccessFault)
    }

    fn store(&mut self, addr: u64, size: u64, value: u64) -> (result: Result<(), Exception>)
        ensures
            result == PlicView::store_result(size),
            final(self)@ == old(self)@.store(addr, size, value),
    {
        if size == 32 {
            if addr == PLIC_PENDING {
                self.pending = value;
            } else if addr == PLIC_SENABLE {
                self.senable = value;
            } else if addr == PLIC_SPRIORITY {
                self.spriority = value;
            } else if addr == PLIC_SCLAIM {
                self.sclaim = value;
            }
            return Ok(());
        }
        Err(Exception::StoreAMOAccessFault)
    }
}

impl Plic {
    pub fn new() -> (plic: Self)
        ensures
            plic@ == PlicView::reset(),
    {
        Self { pending: 0, senable: 0, spriority: 0, sclaim: 0 }
    }
}

} // verus!
