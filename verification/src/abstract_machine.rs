//! The interfaces between the execution engine, the memory fabric, the
//! debugger, and the trap machinery.
use vstd::prelude::*;

use crate::mem_model::{read16, read32, read64, read8, write16, write32, write64, write8, RegionModel};

verus! {

/// Anything the debugger can query registers from, by name.
pub trait RegInfo {
    /// The well-formedness the lookup relies on.
    spec fn reg_inv(&self) -> bool;

    /// The value the lookup yields for a register name.
    spec fn spec_reg_value(&self, name: Seq<char>) -> Option<u64>;

    fn get_reg_value(&self, i: &str) -> (r: Option<u64>)
        requires
            self.reg_inv(),
        ensures
            r == self.spec_reg_value(i@),
    ;
}

/// Anything whose contents are modeled as a sequence of byte regions.
pub trait MemModel {
    /// The regions the fabric is composed of, in base-address order.
    spec fn regions(&self) -> Seq<RegionModel>;
}

/// A byte length query.
pub trait LengthInfo {
    spec fn spec_length(&self) -> usize;

    fn get_length(&self) -> (r: usize)
        ensures
            r == self.spec_length(),
    ;
}

/// Width-aware, boundary-checked reads; multi-byte values are little-endian.
pub trait Readable: MemModel {
    fn read_u8(&self, addr: usize) -> (r: Option<u8>)
        ensures
            r == read8(self.regions(), addr),
    ;

    fn read_u16(&self, addr: usize) -> (r: Option<u16>)
        ensures
            r == read16(self.regions(), addr),
    ;

    fn read_u32(&self, addr: usize) -> (r: Option<u32>)
        ensures
            r == read32(self.regions(), addr),
    ;

    fn read_u64(&self, addr: usize) -> (r: Option<u64>)
        ensures
            r == read64(self.regions(), addr),
    ;
}

/// Width-aware, boundary-checked writes; an access that does not lie wholly
/// inside one region fails without any partial effect.
pub trait Writeable: MemModel {
    fn write_u8(&mut self, addr: usize, value: u8) -> (r: Option<()>)
        ensures
            match write8(old(self).regions(), addr, value) {
                Some(m2) => r == Some(()) && final(self).regions() == m2,
                None => r is None && final(self).regions() == old(self).regions(),
            },
    ;

    fn write_u16(&mut self, addr: usize, value: u16) -> (r: Option<()>)
        ensures
            match write16(old(self).regions(), addr, value) {
                Some(m2) => r == Some(()) && final(self).regions() == m2,
                None => r is None && final(self).regions() == old(self).regions(),
            },
    ;

    fn write_u32(&mut self, addr: usize, value: u32) -> (r: Option<()>)
        ensures
            match write32(old(self).regions(), addr, value) {
                Some(m2) => r == Some(()) && final(self).regions() == m2,
                None => r is None && final(self).regions() == old(self).regions(),
            },
    ;

    fn write_u64(&mut self, addr: usize, value: u64) -> (r: Option<()>)
        ensures
            match write64(old(self).regions(), addr, value) {
                Some(m2) => r == Some(()) && final(self).regions() == m2,
                None => r is None && final(self).regions() == old(self).regions(),
            },
    ;
}

/// Classification of a fault: a breakpoint is a debugger trap, everything
/// else is delivered as an ordinary CPU trap.
pub trait ExceptionAttr: Sized {
    spec fn spec_is_debugger_trap(&self) -> bool;

    fn is_debugger_trap(&self) -> (r: bool)
        ensures
            r == self.spec_is_debugger_trap(),
    ;
}

/// Delivery of a returned fault to the trap machinery.
pub trait ExceptionProcessable<E> {
    /// The well-formedness the processor maintains across delivery.
    spec fn proc_inv(&self) -> bool;

    fn process_exception(&mut self, e: Result<(), E>)
        requires
            old(self).proc_inv(),
        ensures
            final(self).proc_inv(),
    ;

    /// A hook for diagnostic logging of a fault; it must hand the fault back
    /// unchanged. The default logs nothing.
    fn exception_log<M: crate::abstract_machine::MMIODevice>(
        &self,
        memory: &M,
        e: Result<(), E>,
    ) -> (r: Result<(), E>)
        ensures
            r == e,
    {
        e
    }

    fn logged_process_exception<M: crate::abstract_machine::MMIODevice>(
        &mut self,
        memory: &M,
        e: Result<(), E>,
    )
        requires
            old(self).proc_inv(),
        ensures
            final(self).proc_inv(),
    {
        let e = self.exception_log(memory, e);
        self.process_exception(e);
    }
}

/// A complete memory-mapped device: length, reads, and writes.
pub trait MMIODevice: LengthInfo + Readable + Writeable {

}

/// The stepping interface the run loops and the debugger drive.
pub trait Execable<E: ExceptionAttr + Copy>: ExceptionProcessable<E> {
    /// Fetch, decode and execute one instruction.
    fn exec_once<M: MMIODevice>(&mut self, memory: &mut M) -> (r: Result<(), E>)
        requires
            old(self).proc_inv(),
        ensures
            final(self).proc_inv(),
    ;

    /// Step until the first fault, which is returned undelivered, giving up
    /// after `fuel` fault-free steps (`Ok` means the budget ran out).
    fn exec_catch_interrupt_loop<M: MMIODevice>(&mut self, memory: &mut M, fuel: usize) -> (r:
        Result<(), E>)
        requires
            old(self).proc_inv(),
        ensures
            final(self).proc_inv(),
    {
        let mut i: usize = 0;
        while i < fuel
            invariant
                i <= fuel,
                self.proc_inv(),
            decreases fuel - i,
        {
            let r = self.exec_once(memory);
            if let Err(e) = r {
                return Err(e);
            }
            i = i + 1;
        }
        Ok(())
    }

    /// Step on, delivering every fault as a trap, until a fault that is a
    /// debugger trap stops the loop; only such a fault is ever returned as
    /// an error. `Ok` means `fuel` steps passed without a debugger trap.
    fn exec_loop_otherwise_debugger_trap<M: MMIODevice>(
        &mut self,
        memory: &mut M,
        fuel: usize,
    ) -> (r: Result<(), E>)
        requires
            old(self).proc_inv(),
        ensures
            final(self).proc_inv(),
            r is Err ==> r->Err_0.spec_is_debugger_trap(),
    {
        let mut i: usize = 0;
        while i < fuel
            invariant
                i <= fuel,
                self.proc_inv(),
            decreases fuel - i,
        {
            let r = self.exec_once(memory);
            self.process_exception(r);
            if let Err(e) = r {
                if e.is_debugger_trap() {
                    return Err(e);
                }
            }
            i = i + 1;
        }
        Ok(())
    }

    /// Step at most `num` times, stopping early at the first fault, which is
    /// returned undelivered.
    fn setp_num<M: MMIODevice>(&mut self, memory: &mut M, num: usize) -> (r: Result<(), E>)
        requires
            old(self).proc_inv(),
        ensures
            final(self).proc_inv(),
    {
        let mut i: usize = 0;
        while i < num
            invariant
                i <= num,
                self.proc_inv(),
            decreases num - i,
        {
            let r = self.exec_once(memory);
            if let Err(e) = r {
                return Err(e);
            }
            i = i + 1;
        }
        Ok(())
    }
}

} // verus!
