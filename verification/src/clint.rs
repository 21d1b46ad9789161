//! The core-local interruptor: two 64-bit timer registers behind a memory window.

use vstd::prelude::*;
use crate::bus::{Device, CLINT_BASE};
use crate::trap::Exception;

verus! {

pub const CLINT_MTIMECMP: u64 = CLINT_BASE + 0x4000;

pub const CLINT_MTIME: u64 = CLINT_BASE + 0xbff8;

/// The registers of the interruptor as plain values.
pub struct ClintView {
    pub mtime: u64,
    pub mtimecmp: u64,
}

impl ClintView {
    /// Both registers zero.
    pub open spec fn reset() -> ClintView {
        ClintView { mtime: 0, mtimecmp: 0 }
    }

    /// What a load returns: a register at its address, zero elsewhere, and a
    /// fault at any width but 64.
    pub open spec fn load(self, addr: u64, size: u64) -> Result<u64, Exception> {
        if size != 64 {
            Err(Exception::LoadAccessFault)
        } else if addr == CLINT_MTIMECMP {
            Ok(self.mtimecmp)
        } else if addr == CLINT_MTIME {
            Ok(self.mtime)
        } else {
            Ok(0)
        }
    }

    /// Whether a store is accepted: at width 64 only.
    pub open spec fn store_result(size: u64) -> Result<(), Exception> {
        if size == 64 {
            Ok(())
        } else {
            Err(Exception::StoreAMOAccessFault)
        }
    }

    /// The registers after a store; a refused store, or one to an address that
    /// names no register, changes nothing.
    pub open spec fn store(self, addr: u64, size: u64, value: u64) -> ClintView {
        if size != 64 {
            self
        } else if addr == CLINT_MTIMECMP {
            ClintView { mtimecmp: value, ..self }
        } else if addr == CLINT_MTIME {
            ClintView { mtime: value, ..self }
        } else {
            self
        }
    }
}

pub struct Clint {
    mtime: u64,
    mtimecmp: u64,
}

impl View for Clint {
    type V = ClintView;

    closed spec fn view(&self) -> ClintView {
        ClintView { mtime: self.mtime, mtimecmp: self.mtimecmp }
    }
}

impl Device for Clint {
    fn load(&self, addr: u64, size: u64) -> (result: Result<u64, Exception>)
        ensures
            result == self@.load(addr, size),
    {
        if size == 64 {
            if addr == CLINT_MTIMECMP {
                return Ok(self.mtimecmp);
            } else if addr == CLINT_MTIME {
                return Ok(self.mtime);
            } else {
                return Ok(0);
            }
        }
        Err(Exception::LoadAccessFault)
    }

    fn store(&mut self, addr: u64, size: u64, value: u64) -> (result: Result<(), Exception>)
        ensures
            result == ClintView::store_result(size),
            final(self)@ == old(self)@.store(addr, size, value),
    {
        if size == 64 {
            if addr == CLINT_MTIMECMP {
                self.mtimecmp = value;
            } else if addr == CLINT_MTIME {
                self.mtime = value;
            }
            return Ok(());
        }
        Err(Exception::StoreAMOAccessFault)
    }
}

impl Clint {
    pub fn new() -> (clint: Self)
        ensures
            clint@ == ClintView::reset(),
    {
        Self { mtime: 0, mtimecmp: 0 }
    }
}

} // verus!
