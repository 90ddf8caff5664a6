//! The register file: general-purpose registers, the program counter, and
//! the control/status register bank.
use vstd::prelude::*;

verus! {

/// Which register bank a symbolic name refers to.
#[derive(Debug, Clone, Copy, PartialEq, Eq, Hash, Structural)]
pub enum RegType {
    Gpr,
    Fpr,
    Csr,
}

/// The number of slots in the CSR address space.
pub const CSR_SIZE: usize = 4096;

pub const MSTATUS: usize = 0x0300;
pub const MISA: usize = 0x0301;
pub const MIE: usize = 0x0304;
pub const MTVEC: usize = 0x0305;
pub const MSCRATCH: usize = 0x0340;
pub const MEPC: usize = 0x0341;
pub const MCAUSE: usize = 0x0342;
pub const MTVAL: usize = 0x0343;
pub const MIP: usize = 0x0344;
pub const MHARTID: usize = 0x0f14;
pub const SATP: usize = 0x0180;

/// A general-purpose register write: index 0 is hardwired to zero, so a
/// write there is discarded.
pub open spec fn gpr_upd(g: Seq<u64>, reg: int, v: u64) -> Seq<u64> {
    if reg == 0 {
        g
    } else {
        g.update(reg, v)
    }
}

/// A CSR write: address 0 is a no-op, every other address is plain storage.
pub open spec fn csr_upd(c: Seq<u64>, reg: int, v: u64) -> Seq<u64> {
    if reg == 0 {
        c
    } else {
        c.update(reg, v)
    }
}

/// The bank of 32 general-purpose registers; index 0 always reads zero.
pub struct GPR {
    regs: Vec<u64>,
}

impl GPR {
    /// The register values.
    pub closed spec fn regs(&self) -> Seq<u64> {
        self.regs@
    }

    /// 32 registers, and the zero register holds zero.
    pub open spec fn wf(&self) -> bool {
        self.regs().len() == 32 && self.regs()[0] == 0
    }

    /// All registers cleared.
    pub fn new() -> (r: GPR)
        ensures
            r.wf(),
            forall|i: int| 0 <= i < 32 ==> r.regs()[i] == 0,
    {
        GPR { regs: vec![0u64; 32] }
    }

    pub fn read(&self, reg: usize) -> (r: u64)
        requires
            self.wf(),
            reg < 32,
        ensures
            r == self.regs()[reg as int],
    {
        self.regs[reg]
    }

    /// Write a register; a write to index 0 is silently discarded.
    pub fn store(&mut self, reg: usize, value: u64)
        requires
            old(self).wf(),
            reg < 32,
        ensures
            final(self).wf(),
            final(self).regs() == gpr_upd(old(self).regs(), reg as int, value),
    {
        if reg != 0 {
            self.regs.set(reg, value);
        }
    }
}

/// The control/status register bank: 4096 64-bit slots of plain storage.
pub struct CSR {
    regs: Vec<u64>,
}

/// The base-ISA choices encodable in the two top bits of `misa`.
#[derive(Debug, Clone, Copy, PartialEq, Eq, Structural)]
pub enum BaseISA {
    RV32I,
    RV64I,
    RV128I,
}

/// The `misa` MXL field for a base ISA, placed in the top two bits.
pub open spec fn spec_base_misa(i: BaseISA) -> u64 {
    match i {
        BaseISA::RV32I => 1u64 << 62,
        BaseISA::RV64I => 2u64 << 62,
        BaseISA::RV128I => 3u64 << 62,
    }
}

pub fn base_misa(i: BaseISA) -> (r: u64)
    ensures
        r == spec_base_misa(i),
{
    match i {
        BaseISA::RV32I => 1u64 << 62u64,
        BaseISA::RV64I => 2u64 << 62u64,
        BaseISA::RV128I => 3u64 << 62u64,
    }
}

/// The `misa` extension bit for the letter `x` (an ASCII lower-case letter).
pub fn misa_flag(x: u8) -> (r: u64)
    requires
        97 <= x <= 122,
    ensures
        r == (1u64 << ((x - 97) as u64)),
{
    1u64 << ((x - 97) as u64)
}

impl CSR {
    /// The CSR values, indexed by CSR address.
    pub closed spec fn regs(&self) -> Seq<u64> {
        self.regs@
    }

    pub open spec fn wf(&self) -> bool {
        self.regs().len() == CSR_SIZE
    }

    /// A fresh bank: all slots zero but for the ISA description register
    /// and the hart ID register.
    pub fn new(misa: u64, hart_id: u64) -> (r: CSR)
        ensures
            r.wf(),
            r.regs() == Seq::new(CSR_SIZE as nat, |i: int| 0u64).update(
                MISA as int,
                misa,
            ).update(MHARTID as int, hart_id),
    {
        let mut regs: Vec<u64> = vec![0u64; CSR_SIZE];
        regs.set(MISA, misa);
        regs.set(MHARTID, hart_id);
        let r = CSR { regs };
        proof {
            assert(r.regs() =~= Seq::new(CSR_SIZE as nat, |i: int| 0u64).update(
                MISA as int,
                misa,
            ).update(MHARTID as int, hart_id));
        }
        r
    }

    pub fn read(&self, reg: usize) -> (r: u64)
        requires
            self.wf(),
            reg < CSR_SIZE,
        ensures
            r == self.regs()[reg as int],
    {
        self.regs[reg]
    }

    /// Write a CSR; a write to address 0 is a no-op.
    pub fn store(&mut self, reg: usize, value: u64)
        requires
            old(self).wf(),
            reg < CSR_SIZE,
        ensures
            final(self).wf(),
            final(self).regs() == csr_upd(old(self).regs(), reg as int, value),
    {
        if reg != 0 {
            self.regs.set(reg, value);
        }
    }
}

/// The program counter: the address of the next instruction to fetch.
pub struct PC {
    pc: u64,
}

impl PC {
    /// The held address.
    pub closed spec fn value(&self) -> u64 {
        self.pc
    }

    pub fn new(start_addr: usize) -> (r: PC)
        ensures
            r.value() == start_addr as u64,
    {
        PC { pc: start_addr as u64 }
    }

    pub fn store(&mut self, pc: u64)
        ensures
            final(self).value() == pc,
    {
        self.pc = pc;
    }

    pub fn read(&self) -> (r: u64)
        ensures
            r == self.value(),
    {
        self.pc
    }
}

} // verus!
