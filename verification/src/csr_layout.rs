//! The bit layouts of the architecturally meaningful CSRs, as accessor
//! functions over plain 64-bit integers, at the positions the privileged
//! architecture assigns.
use vstd::prelude::*;

verus! {

/// The machine privilege modes, in increasing order of privilege; the
/// hypervisor encoding is reserved.
#[derive(Debug, Clone, Copy, PartialEq, Eq, Structural)]
pub enum MachineMode {
    User,
    Supervisor,
    Hypervisor,
    Machine,
}

/// The privilege modes encodable in a one-bit field.
#[derive(Debug, Clone, Copy, PartialEq, Eq, Structural)]
pub enum SUMachineMode {
    User,
    Supervisor,
}

/// The two-bit encoding of a privilege mode.
pub open spec fn spec_mode_bits(m: MachineMode) -> u64 {
    match m {
        MachineMode::User => 0,
        MachineMode::Supervisor => 1,
        MachineMode::Hypervisor => 2,
        MachineMode::Machine => 3,
    }
}

/// The privilege mode a two-bit field denotes.
pub open spec fn spec_mode_from_bits(b: u64) -> MachineMode {
    if b == 0 {
        MachineMode::User
    } else if b == 1 {
        MachineMode::Supervisor
    } else if b == 2 {
        MachineMode::Hypervisor
    } else {
        MachineMode::Machine
    }
}

pub fn mode_bits(m: MachineMode) -> (r: u64)
    ensures
        r == spec_mode_bits(m),
{
    match m {
        MachineMode::User => 0,
        MachineMode::Supervisor => 1,
        MachineMode::Hypervisor => 2,
        MachineMode::Machine => 3,
    }
}

pub fn mode_from_bits(b: u64) -> (r: MachineMode)
    requires
        b < 4,
    ensures
        r == spec_mode_from_bits(b),
{
    if b == 0 {
        MachineMode::User
    } else if b == 1 {
        MachineMode::Supervisor
    } else if b == 2 {
        MachineMode::Hypervisor
    } else {
        MachineMode::Machine
    }
}

/// The machine-mode interrupt-enable bit of `mstatus` (bit 3).
pub open spec fn mstatus_mie(w: u64) -> u64 {
    (w >> 3) & 1
}

/// The previous-interrupt-enable bit of `mstatus` (bit 7).
pub open spec fn mstatus_mpie(w: u64) -> u64 {
    (w >> 7) & 1
}

/// The previous-privilege field of `mstatus` (bits 12..11).
pub open spec fn mstatus_mpp(w: u64) -> u64 {
    (w >> 11) & 3
}

/// `mstatus` with its MIE bit replaced.
pub open spec fn mstatus_with_mie(w: u64, v: u64) -> u64 {
    (w & !(1u64 << 3)) | ((v & 1) << 3)
}

/// `mstatus` with its MPIE bit replaced.
pub open spec fn mstatus_with_mpie(w: u64, v: u64) -> u64 {
    (w & !(1u64 << 7)) | ((v & 1) << 7)
}

/// `mstatus` with its MPP field replaced.
pub open spec fn mstatus_with_mpp(w: u64, m: MachineMode) -> u64 {
    (w & !(3u64 << 11)) | (spec_mode_bits(m) << 11)
}

/// A view of the `mstatus` register.
#[derive(Debug, Clone, Copy, PartialEq, Eq, Structural)]
pub struct MStatus {
    pub bits: u64,
}

impl MStatus {
    pub fn from_bits(bits: u64) -> (r: MStatus)
        ensures
            r.bits == bits,
    {
        MStatus { bits }
    }

    pub fn mie(&self) -> (r: u64)
        ensures
            r == mstatus_mie(self.bits),
    {
        (self.bits >> 3) & 1
    }

    pub fn mpie(&self) -> (r: u64)
        ensures
            r == mstatus_mpie(self.bits),
    {
        (self.bits >> 7) & 1
    }

    pub fn mpp(&self) -> (r: MachineMode)
        ensures
            r == spec_mode_from_bits(mstatus_mpp(self.bits)),
    {
        let b = (self.bits >> 11) & 3;
        proof {
            let w = self.bits;
            assert((w >> 11) & 3 < 4) by (bit_vector);
        }
        mode_from_bits(b)
    }

    pub fn set_mie(&mut self, v: u64)
        ensures
            final(self).bits == mstatus_with_mie(old(self).bits, v),
    {
        self.bits = (self.bits & !(1u64 << 3)) | ((v & 1) << 3);
    }

    pub fn set_mpie(&mut self, v: u64)
        ensures
            final(self).bits == mstatus_with_mpie(old(self).bits, v),
    {
        self.bits = (self.bits & !(1u64 << 7)) | ((v & 1) << 7);
    }

    pub fn set_mpp(&mut self, m: MachineMode)
        ensures
            final(self).bits == mstatus_with_mpp(old(self).bits, m),
    {
        let b = mode_bits(m);
        proof {
            assert(spec_mode_bits(m) < 4);
            assert(forall|v: u64| v < 4 ==> #[trigger] (v << 11) == v << 11u64);
        }
        self.bits = (self.bits & !(3u64 << 11)) | (b << 11);
    }
}

/// The machine-software-interrupt-enable bit (bit 3) of `mie`/`mip`.
pub open spec fn mie_msie(w: u64) -> u64 {
    (w >> 3) & 1
}

/// A view of the `mie` interrupt-enable register.
#[derive(Debug, Clone, Copy, PartialEq, Eq, Structural)]
pub struct Mie {
    pub bits: u64,
}

/// The `mip` interrupt-pending register shares the `mie` layout.
pub type Mip = Mie;

impl Mie {
    pub fn from_bits(bits: u64) -> (r: Mie)
        ensures
            r.bits == bits,
    {
        Mie { bits }
    }

    /// Supervisor software-interrupt enable (bit 1).
    pub fn ssie(&self) -> (r: u64)
        ensures
            r == (self.bits >> 1) & 1,
    {
        (self.bits >> 1) & 1
    }

    /// Machine software-interrupt enable (bit 3).
    pub fn msie(&self) -> (r: u64)
        ensures
            r == mie_msie(self.bits),
    {
        (self.bits >> 3) & 1
    }

    /// Supervisor timer-interrupt enable (bit 5).
    pub fn stie(&self) -> (r: u64)
        ensures
            r == (self.bits >> 5) & 1,
    {
        (self.bits >> 5) & 1
    }

    /// Machine timer-interrupt enable (bit 7).
    pub fn mtie(&self) -> (r: u64)
        ensures
            r == (self.bits >> 7) & 1,
    {
        (self.bits >> 7) & 1
    }

    /// Supervisor external-interrupt enable (bit 9).
    pub fn seie(&self) -> (r: u64)
        ensures
            r == (self.bits >> 9) & 1,
    {
        (self.bits >> 9) & 1
    }

    /// Machine external-interrupt enable (bit 11).
    pub fn meie(&self) -> (r: u64)
        ensures
            r == (self.bits >> 11) & 1,
    {
        (self.bits >> 11) & 1
    }
}

/// The trap-vector modes encodable in the low bits of `mtvec`.
#[derive(Debug, Clone, Copy, PartialEq, Eq, Structural)]
pub enum TVMode {
    Direct,
    Vectored,
}

/// The trap-vector base address held in `mtvec`: bits 63..2, shifted up.
pub open spec fn tvec_base(w: u64) -> u64 {
    (w >> 2) << 2
}

/// The trap-vector mode field of `mtvec` (bits 1..0); values above 1 are
/// reserved and read as direct mode.
pub open spec fn tvec_mode(w: u64) -> TVMode {
    if w & 3 == 1 {
        TVMode::Vectored
    } else {
        TVMode::Direct
    }
}

/// A view of the `mtvec` trap-vector register.
#[derive(Debug, Clone, Copy, PartialEq, Eq, Structural)]
pub struct Tvec {
    pub bits: u64,
}

impl Tvec {
    pub fn from_bits(bits: u64) -> (r: Tvec)
        ensures
            r.bits == bits,
    {
        Tvec { bits }
    }

    pub fn mode(&self) -> (r: TVMode)
        ensures
            r == tvec_mode(self.bits),
    {
        if self.bits & 3 == 1 {
            TVMode::Vectored
        } else {
            TVMode::Direct
        }
    }

    /// The vector base, aligned down to four bytes.
    pub fn base_addr(&self) -> (r: u64)
        ensures
            r == tvec_base(self.bits),
    {
        (self.bits >> 2) << 2
    }
}

/// The `mcause` layout: the interrupt flag in the top bit, the cause code
/// below it.
pub open spec fn mcause_value(is_interrupt: bool, code: u64) -> u64 {
    if is_interrupt {
        (1u64 << 63) | (code & !(1u64 << 63))
    } else {
        code & !(1u64 << 63)
    }
}

/// A view of the `mcause` trap-cause register.
#[derive(Debug, Clone, Copy, PartialEq, Eq, Structural)]
pub struct MCause {
    pub bits: u64,
}

impl MCause {
    pub fn from_bits(bits: u64) -> (r: MCause)
        ensures
            r.bits == bits,
    {
        MCause { bits }
    }

    /// The interrupt flag (bit 63).
    pub fn is_interrupt(&self) -> (r: u64)
        ensures
            r == (self.bits >> 63) & 1,
    {
        (self.bits >> 63) & 1
    }

    /// The cause code (bits 62..0).
    pub fn exception_code(&self) -> (r: u64)
        ensures
            r == self.bits & !(1u64 << 63),
    {
        self.bits & !(1u64 << 63)
    }
}

/// The translation schemes the `satp` mode field can select.
#[derive(Debug, Clone, Copy, PartialEq, Eq, Structural)]
pub enum SatpMode {
    Bare,
    Sv39,
    Sv48,
    Sv57,
    Sv64,
}

/// The `satp` mode field (bits 63..60), decoded; reserved patterns give
/// nothing.
pub open spec fn satp_mode(w: u64) -> Option<SatpMode> {
    let f = w >> 60;
    if f == 0 {
        Some(SatpMode::Bare)
    } else if f == 8 {
        Some(SatpMode::Sv39)
    } else if f == 9 {
        Some(SatpMode::Sv48)
    } else if f == 10 {
        Some(SatpMode::Sv57)
    } else if f == 11 {
        Some(SatpMode::Sv64)
    } else {
        None
    }
}

/// The address-space identifier field of `satp` (bits 59..44).
pub open spec fn satp_asid(w: u64) -> u64 {
    (w >> 44) & 0xffff
}

/// The root physical page number field of `satp` (bits 43..0).
pub open spec fn satp_ppn(w: u64) -> u64 {
    w & 0xfff_ffff_ffff
}

/// A view of the `satp` address-translation register.
#[derive(Debug, Clone, Copy, PartialEq, Eq, Structural)]
pub struct Satp {
    pub bits: u64,
}

impl Satp {
    pub fn from_bits(bits: u64) -> (r: Satp)
        ensures
            r.bits == bits,
    {
        Satp { bits }
    }

    pub fn mode(&self) -> (r: Option<SatpMode>)
        ensures
            r == satp_mode(self.bits),
    {
        let f = self.bits >> 60;
        if f == 0 {
            Some(SatpMode::Bare)
        } else if f == 8 {
            Some(SatpMode::Sv39)
        } else if f == 9 {
            Some(SatpMode::Sv48)
        } else if f == 10 {
            Some(SatpMode::Sv57)
        } else if f == 11 {
            Some(SatpMode::Sv64)
        } else {
            None
        }
    }

    pub fn asid(&self) -> (r: u64)
        ensures
            r == satp_asid(self.bits),
    {
        (self.bits >> 44) & 0xffff
    }

    pub fn ppn(&self) -> (r: u64)
        ensures
            r == satp_ppn(self.bits),
    {
        self.bits & 0xfff_ffff_ffff
    }

    /// The physical address of the root page table: the root page number
    /// shifted up by the page size.
    pub fn root_addr(&self) -> (r: u64)
        ensures
            r == satp_ppn(self.bits) << 12,
    {
        proof {
            let w = self.bits;
            assert((w & 0xfff_ffff_ffff) << 12 <= 0xffff_ffff_ffff_f000u64) by (bit_vector);
        }
        (self.bits & 0xfff_ffff_ffff) << 12
    }
}

} // verus!
