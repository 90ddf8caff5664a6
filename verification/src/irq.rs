//! Faults, their architectural cause codes, and the machine-level trap
//! entry and return machinery.
use vstd::prelude::*;

use crate::abstract_machine::ExceptionAttr;
use crate::csr_layout::{
    mcause_value, mie_msie, mstatus_mie, mstatus_mpie, mstatus_mpp, mstatus_with_mie,
    mstatus_with_mpie, mstatus_with_mpp, spec_mode_bits, spec_mode_from_bits, tvec_base, tvec_mode,
    MachineMode, Mie, Mip, MStatus, TVMode, Tvec,
};
use crate::machine::{MachineModel, MachineView};
use crate::regfile::{MCAUSE, MEPC, MIE, MIP, MSTATUS, MTVAL, MTVEC};

verus! {

/// Whether a trap is a synchronous exception or an interrupt.
#[derive(Debug, Clone, Copy, PartialEq, Eq, Structural)]
pub enum RawTrapType {
    Exception,
    Interrupt,
}

/// The standard interrupt causes.
#[derive(Debug, Clone, Copy, PartialEq, Eq, Structural)]
pub enum RawInstrrupt {
    SupervisorSoftwareInterrupt,
    MachineSoftwareInterrupt,
    SupervisorTimerInterrupt,
    MachineTimerInterrupt,
    SupervisorExternalInterrupt,
    MachineExternalInterrupt,
}

/// The standard synchronous exception causes.
#[derive(Debug, Clone, Copy, PartialEq, Eq, Structural)]
pub enum RawException {
    InstructionAddressMisaligned,
    InstructionAccessFault,
    IllegalInstruction,
    Breakpoint,
    LoadAddressMisaligned,
    LoadAccessFault,
    StoreAddressMisaligned,
    StoreAccessFault,
    EnvironmentCallFromUMode,
    EnvironmentCallFromSMode,
    EnvironmentCallFromMMode,
    InstructionPageFault,
    LoadPageFault,
    StorePageFault,
}

/// The cause code of an interrupt, as the privileged architecture
/// numbers them.
pub open spec fn spec_interrupt_code(i: RawInstrrupt) -> u64 {
    match i {
        RawInstrrupt::SupervisorSoftwareInterrupt => 1,
        RawInstrrupt::MachineSoftwareInterrupt => 3,
        RawInstrrupt::SupervisorTimerInterrupt => 5,
        RawInstrrupt::MachineTimerInterrupt => 7,
        RawInstrrupt::SupervisorExternalInterrupt => 9,
        RawInstrrupt::MachineExternalInterrupt => 11,
    }
}

/// The cause code of a synchronous exception, as the privileged
/// architecture numbers them.
pub open spec fn spec_exception_code(e: RawException) -> u64 {
    match e {
        RawException::InstructionAddressMisaligned => 0,
        RawException::InstructionAccessFault => 1,
        RawException::IllegalInstruction => 2,
        RawException::Breakpoint => 3,
        RawException::LoadAddressMisaligned => 4,
        RawException::LoadAccessFault => 5,
        RawException::StoreAddressMisaligned => 6,
        RawException::StoreAccessFault => 7,
        RawException::EnvironmentCallFromUMode => 8,
        RawException::EnvironmentCallFromSMode => 9,
        RawException::EnvironmentCallFromMMode => 11,
        RawException::InstructionPageFault => 12,
        RawException::LoadPageFault => 13,
        RawException::StorePageFault => 15,
    }
}

impl RawInstrrupt {
    pub fn cause_code(&self) -> (r: u64)
        ensures
            r == spec_interrupt_code(*self),
    {
        match self {
            RawInstrrupt::SupervisorSoftwareInterrupt => 1,
            RawInstrrupt::MachineSoftwareInterrupt => 3,
            RawInstrrupt::SupervisorTimerInterrupt => 5,
            RawInstrrupt::MachineTimerInterrupt => 7,
            RawInstrrupt::SupervisorExternalInterrupt => 9,
            RawInstrrupt::MachineExternalInterrupt => 11,
        }
    }
}

impl RawException {
    pub fn cause_code(&self) -> (r: u64)
        ensures
            r == spec_exception_code(*self),
    {
        match self {
            RawException::InstructionAddressMisaligned => 0,
            RawException::InstructionAccessFault => 1,
            RawException::IllegalInstruction => 2,
            RawException::Breakpoint => 3,
            RawException::LoadAddressMisaligned => 4,
            RawException::LoadAccessFault => 5,
            RawException::StoreAddressMisaligned => 6,
            RawException::StoreAccessFault => 7,
            RawException::EnvironmentCallFromUMode => 8,
            RawException::EnvironmentCallFromSMode => 9,
            RawException::EnvironmentCallFromMMode => 11,
            RawException::InstructionPageFault => 12,
            RawException::LoadPageFault => 13,
            RawException::StorePageFault => 15,
        }
    }
}

/// A fault raised by one execution step, carrying the faulting address
/// where the cause has one.
#[derive(Debug, Clone, Copy, PartialEq, Eq, Structural)]
pub enum Exception {
    InstructionAccessFault,
    IllegalInstruction,
    LoadAccessFault(u64),
    StoreAccessFault(u64),
    LoadAddressMisaligned(u64),
    StoreAddressMisaligned(u64),
    InstructionPageFault(u64),
    LoadPageFault(u64),
    StorePageFault(u64),
    UserEcall,
    SupervisorEcall,
    MachineEcall,
    Breakpoint,
}

/// The raw cause a fault maps to.
pub open spec fn spec_raw_of(e: Exception) -> RawException {
    match e {
        Exception::InstructionAccessFault => RawException::InstructionAccessFault,
        Exception::IllegalInstruction => RawException::IllegalInstruction,
        Exception::LoadAccessFault(_) => RawException::LoadAccessFault,
        Exception::StoreAccessFault(_) => RawException::StoreAccessFault,
        Exception::LoadAddressMisaligned(_) => RawException::LoadAddressMisaligned,
        Exception::StoreAddressMisaligned(_) => RawException::StoreAddressMisaligned,
        Exception::InstructionPageFault(_) => RawException::InstructionPageFault,
        Exception::LoadPageFault(_) => RawException::LoadPageFault,
        Exception::StorePageFault(_) => RawException::StorePageFault,
        Exception::UserEcall => RawException::EnvironmentCallFromUMode,
        Exception::SupervisorEcall => RawException::EnvironmentCallFromSMode,
        Exception::MachineEcall => RawException::EnvironmentCallFromMMode,
        Exception::Breakpoint => RawException::Breakpoint,
    }
}

/// The numeric cause code of a fault.
pub open spec fn spec_cause_of(e: Exception) -> u64 {
    spec_exception_code(spec_raw_of(e))
}

/// The trap value of a fault: the faulting address where the cause
/// carries one, zero otherwise.
pub open spec fn spec_tval_of(e: Exception) -> u64 {
    match e {
        Exception::LoadAccessFault(a) => a,
        Exception::StoreAccessFault(a) => a,
        Exception::LoadAddressMisaligned(a) => a,
        Exception::StoreAddressMisaligned(a) => a,
        Exception::InstructionPageFault(a) => a,
        Exception::LoadPageFault(a) => a,
        Exception::StorePageFault(a) => a,
        _ => 0,
    }
}

impl Exception {
    /// The raw cause and trap value this fault is delivered with.
    pub fn into_cause_tval(&self) -> (r: (RawException, u64))
        ensures
            r.0 == spec_raw_of(*self),
            r.1 == spec_tval_of(*self),
    {
        match self {
            Exception::InstructionAccessFault => (RawException::InstructionAccessFault, 0),
            Exception::IllegalInstruction => (RawException::IllegalInstruction, 0),
            Exception::LoadAccessFault(u) => (RawException::LoadAccessFault, *u),
            Exception::StoreAccessFault(u) => (RawException::StoreAccessFault, *u),
            Exception::LoadAddressMisaligned(u) => (RawException::LoadAddressMisaligned, *u),
            Exception::StoreAddressMisaligned(u) => (RawException::StoreAddressMisaligned, *u),
            Exception::InstructionPageFault(u) => (RawException::InstructionPageFault, *u),
            Exception::LoadPageFault(u) => (RawException::LoadPageFault, *u),
            Exception::StorePageFault(u) => (RawException::StorePageFault, *u),
            Exception::UserEcall => (RawException::EnvironmentCallFromUMode, 0),
            Exception::SupervisorEcall => (RawException::EnvironmentCallFromSMode, 0),
            Exception::MachineEcall => (RawException::EnvironmentCallFromMMode, 0),
            Exception::Breakpoint => (RawException::Breakpoint, 0),
        }
    }
}

impl ExceptionAttr for Exception {
    open spec fn spec_is_debugger_trap(&self) -> bool {
        *self is Breakpoint
    }

    fn is_debugger_trap(&self) -> (r: bool) {
        match self {
            Exception::Breakpoint => true,
            _ => false,
        }
    }
}

impl Tvec {
    /// The program counter a trap redirects to: exceptions and direct mode
    /// always target the base; vectored interrupts target
    /// `base + 4 * cause`, wrapping like the addition of a real adder.
    pub fn get_pc(&self, trap_type: RawTrapType, cause: u64) -> (r: u64)
        ensures
            (tvec_mode(self.bits) == TVMode::Direct || trap_type == RawTrapType::Exception)
                ==> r == tvec_base(self.bits),
            !(tvec_mode(self.bits) == TVMode::Direct || trap_type == RawTrapType::Exception)
                ==> r == vstd::wrapping::u64_specs::wrapping_add(
                tvec_base(self.bits),
                vstd::wrapping::u64_specs::wrapping_mul(4, cause),
            ),
    {
        let addr = self.base_addr();
        let is_exception = match trap_type {
            RawTrapType::Exception => true,
            RawTrapType::Interrupt => false,
        };
        let is_direct = match self.mode() {
            TVMode::Direct => true,
            TVMode::Vectored => false,
        };
        if is_direct || is_exception {
            addr
        } else {
            addr.wrapping_add(4u64.wrapping_mul(cause))
        }
    }
}

/// Whether the trap machinery delivers a fault at all: the machine-mode
/// interrupt-enable, machine-software-interrupt-enable and machine-
/// software-interrupt-pending bits must all be set.
pub open spec fn deliver_enabled(m: MachineView) -> bool {
    mstatus_mie(m.csr[MSTATUS as int]) == 1 && mie_msie(m.csr[MIE as int]) == 1 && mie_msie(
        m.csr[MIP as int],
    ) == 1
}

/// Trap entry: when delivery is enabled, save the program counter into
/// `mepc`, record the trap value and cause, save and clear the
/// interrupt-enable bit, record the privilege mode into the previous-
/// privilege field, and redirect the program counter to the trap vector
/// base; otherwise do nothing.
pub open spec fn deliver_spec(m: MachineView, e: Exception) -> MachineView {
    if deliver_enabled(m) {
        let mst = m.csr[MSTATUS as int];
        let mst2 = mstatus_with_mpp(
            mstatus_with_mie(mstatus_with_mpie(mst, mstatus_mie(mst)), 0),
            m.mode,
        );
        MachineView {
            csr: m.csr.update(MEPC as int, m.pc).update(
                MTVAL as int,
                spec_tval_of(e),
            ).update(MCAUSE as int, mcause_value(false, spec_cause_of(e))).update(
                MSTATUS as int,
                mst2,
            ),
            pc: tvec_base(m.csr[MTVEC as int]),
            ..m
        }
    } else {
        m
    }
}

/// Trap return: restore the interrupt-enable bit from the previous-
/// interrupt-enable bit, restore the privilege mode from the previous-
/// privilege field, and resume at `mepc`.
pub open spec fn mret_spec(m: MachineView) -> MachineView {
    let mst = m.csr[MSTATUS as int];
    MachineView {
        csr: m.csr.update(MSTATUS as int, mstatus_with_mie(mst, mstatus_mpie(mst))),
        mode: spec_mode_from_bits(mstatus_mpp(mst)),
        pc: m.csr[MEPC as int],
        ..m
    }
}

/// The fault an environment call raises, by the privilege mode it is made
/// from; the reserved hypervisor encoding has no environment-call cause,
/// so an environment call from it is treated as an illegal instruction.
pub open spec fn ecall_exception(m: MachineMode) -> Exception {
    match m {
        MachineMode::User => Exception::UserEcall,
        MachineMode::Supervisor => Exception::SupervisorEcall,
        MachineMode::Hypervisor => Exception::IllegalInstruction,
        MachineMode::Machine => Exception::MachineEcall,
    }
}

impl MachineModel {
    /// Deliver a fault as a machine trap, per [`deliver_spec`].
    pub fn exception_request(&mut self, e: Exception) -> (r: Option<()>)
        requires
            old(self).wf(),
        ensures
            final(self).wf(),
            final(self)@ == deliver_spec(old(self)@, e),
            final(self).reg_map == old(self).reg_map,
            r == Some(()),
    {
        let mut mstatus = MStatus::from_bits(self.csr.read(MSTATUS));
        let mie = Mie::from_bits(self.csr.read(MIE));
        let mip = Mip::from_bits(self.csr.read(MIP));
        let mie_b = mie.msie();
        let mip_b = mip.msie();

        let tvec = Tvec::from_bits(self.csr.read(MTVEC));

        let (cause, tval) = e.into_cause_tval();
        let cause = cause.cause_code();

        if mstatus.mie() == 1 && mie_b == 1 && mip_b == 1 {
            let pc_now = self.pc.read();
            self.csr.store(MEPC, pc_now);
            self.pc.store(tvec.get_pc(RawTrapType::Exception, cause));
            let old_mie = mstatus.mie();
            mstatus.set_mpie(old_mie);
            mstatus.set_mie(0);
            mstatus.set_mpp(self.mode);
            self.csr.store(MTVAL, tval);
            self.csr.store(MCAUSE, cause & !(1u64 << 63));
            self.csr.store(MSTATUS, mstatus.bits);
            proof {
                assert(self@ =~= deliver_spec(old(self)@, e));
            }
        } else {
            proof {
                assert(self@ =~= deliver_spec(old(self)@, e));
            }
        }
        Some(())
    }

    /// Trap return, per [`mret_spec`].
    pub fn mret(&mut self)
        requires
            old(self).wf(),
        ensures
            final(self).wf(),
            final(self)@ == mret_spec(old(self)@),
            final(self).reg_map == old(self).reg_map,
    {
        let mut mstatus = MStatus::from_bits(self.csr.read(MSTATUS));
        let mode_prev = mstatus.mpp();
        let mpie = mstatus.mpie();
        mstatus.set_mie(mpie);
        self.mode = mode_prev;
        self.csr.store(MSTATUS, mstatus.bits);
        let epc = self.csr.read(MEPC);
        self.pc.store(epc);
        proof {
            assert(self@ =~= mret_spec(old(self)@));
        }
    }

    /// Raise an instruction access fault when the current privilege mode
    /// is below the one required.
    pub fn check_inst_access(&mut self, mode: MachineMode)
        requires
            old(self).wf(),
        ensures
            final(self).wf(),
            final(self).reg_map == old(self).reg_map,
            final(self)@ == if spec_mode_bits(old(self)@.mode) < spec_mode_bits(mode) {
                deliver_spec(old(self)@, Exception::InstructionAccessFault)
            } else {
                old(self)@
            },
    {
        let here = crate::csr_layout::mode_bits(self.mode);
        let need = crate::csr_layout::mode_bits(mode);
        if here < need {
            self.exception_request(Exception::InstructionAccessFault);
        }
    }

    /// Request the environment-call trap for the current privilege mode.
    pub fn ecall(&mut self)
        requires
            old(self).wf(),
        ensures
            final(self).wf(),
            final(self).reg_map == old(self).reg_map,
            final(self)@ == deliver_spec(old(self)@, ecall_exception(old(self)@.mode)),
    {
        let e = match self.mode {
            MachineMode::User => Exception::UserEcall,
            MachineMode::Supervisor => Exception::SupervisorEcall,
            MachineMode::Hypervisor => Exception::IllegalInstruction,
            MachineMode::Machine => Exception::MachineEcall,
        };
        self.exception_request(e);
    }

    /// Request the breakpoint trap.
    pub fn ebreak(&mut self)
        requires
            old(self).wf(),
        ensures
            final(self).wf(),
            final(self).reg_map == old(self).reg_map,
            final(self)@ == deliver_spec(old(self)@, Exception::Breakpoint),
    {
        self.exception_request(Exception::Breakpoint);
    }
}

/// How a returned fault is processed: an error is delivered as a trap, a
/// success is ignored.
impl crate::abstract_machine::ExceptionProcessable<Exception> for MachineModel {
    open spec fn proc_inv(&self) -> bool {
        self.wf()
    }

    fn process_exception(&mut self, e: Result<(), Exception>)
        ensures
            final(self)@ == match e {
                Ok(()) => old(self)@,
                Err(x) => deliver_spec(old(self)@, x),
            },
            final(self).reg_map == old(self).reg_map,
    {
        if let Err(x) = e {
            self.exception_request(x);
        }
    }
}

} // verus!
