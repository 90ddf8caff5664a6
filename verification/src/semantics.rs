//! The architectural semantics of one execution step, as spec functions
//! over the machine view and the memory model.
//!
//! [`step_spec`] is the reference the executable engine is proved against:
//! fetch a word at the program counter, dispatch on its opcode, and either
//! produce the next machine state and memory, or leave both unchanged and
//! report the fault.
use vstd::prelude::*;

use crate::bits::{sext12, sext13, sext21, sext32, sext8, sext16};
use crate::inst_type::{
    spec_b_imm, spec_funct3, spec_funct7, spec_i_imm, spec_j_imm, spec_opcode, spec_rd, spec_rs1,
    spec_rs2, spec_s_imm, spec_u_imm,
};
use crate::irq::{deliver_spec, ecall_exception, Exception};
use crate::machine::MachineView;
use crate::mem_model::{read16, read32, read64, read8, write16, write32, write64, write8, RegionModel};
use crate::regfile::{csr_upd, gpr_upd};

verus! {

use vstd::wrapping::u64_specs;

/// The outcome of one step: the machine after it, the memory after it,
/// and the fault it raised, if any. A faulting step leaves machine and
/// memory exactly as they were.
pub struct StepOut {
    pub m: MachineView,
    pub mem: Seq<RegionModel>,
    pub trap: Option<Exception>,
}

/// The machine with the program counter advanced past one instruction.
pub open spec fn adv(m: MachineView) -> MachineView {
    MachineView { pc: u64_specs::wrapping_add(m.pc, 4), ..m }
}

/// The machine with `v` written to general-purpose register `rd`.
pub open spec fn wr(m: MachineView, rd: u32, v: u64) -> MachineView {
    MachineView { gpr: gpr_upd(m.gpr, rd as int, v), ..m }
}

/// A step that raises a fault: state and memory are untouched.
pub open spec fn faulted(pre: MachineView, mem: Seq<RegionModel>, e: Exception) -> StepOut {
    StepOut { m: pre, mem, trap: Some(e) }
}

/// A step that completes: the new machine, the same memory.
pub open spec fn stepped(m: MachineView, mem: Seq<RegionModel>) -> StepOut {
    StepOut { m, mem, trap: None }
}

/// Load upper immediate: `rd` receives the immediate shifted into the
/// upper bits, sign-extended to 64 bits.
pub open spec fn lui_spec(pre: MachineView, code: u32) -> MachineView {
    adv(wr(pre, spec_rd(code), sext32(spec_u_imm(code) << 12)))
}

/// Add upper immediate to `pc`.
pub open spec fn auipc_spec(pre: MachineView, code: u32) -> MachineView {
    adv(wr(pre, spec_rd(code), u64_specs::wrapping_add(pre.pc, sext32(spec_u_imm(code) << 12))))
}

/// Jump and link: `rd` receives the return address, `pc` the jump target.
pub open spec fn jal_spec(pre: MachineView, code: u32) -> MachineView {
    let linked = wr(pre, spec_rd(code), u64_specs::wrapping_add(pre.pc, 4));
    MachineView {
        pc: u64_specs::wrapping_add(pre.pc, sext21(spec_j_imm(code))),
        ..linked
    }
}

/// Jump and link register: the target is `rs1` plus the sign-extended
/// immediate. The link register is written first, so a jump linking to
/// its own base register uses the old base value.
pub open spec fn jalr_spec(pre: MachineView, code: u32) -> MachineView {
    let base = pre.gpr[spec_rs1(code) as int];
    let linked = wr(pre, spec_rd(code), u64_specs::wrapping_add(pre.pc, 4));
    MachineView { pc: u64_specs::wrapping_add(base, sext12(spec_i_imm(code))), ..linked }
}

/// The condition a branch instruction tests, or nothing for an
/// unassigned funct3 value.
pub open spec fn branch_cond(rs1: u64, rs2: u64, funct3: u32) -> Option<bool> {
    if funct3 == 0 {
        Some(rs1 == rs2)
    } else if funct3 == 1 {
        Some(rs1 != rs2)
    } else if funct3 == 4 {
        Some((rs1 as i64) < (rs2 as i64))
    } else if funct3 == 5 {
        Some((rs1 as i64) >= (rs2 as i64))
    } else if funct3 == 6 {
        Some(rs1 < rs2)
    } else if funct3 == 7 {
        Some(rs1 >= rs2)
    } else {
        None
    }
}

/// Conditional branch: a taken branch redirects `pc` by the sign-extended
/// offset, an untaken one advances it by four.
pub open spec fn branch_spec(pre: MachineView, mem: Seq<RegionModel>, code: u32) -> StepOut {
    match branch_cond(
        pre.gpr[spec_rs1(code) as int],
        pre.gpr[spec_rs2(code) as int],
        spec_funct3(code),
    ) {
        Some(cond) => stepped(
            MachineView {
                pc: if cond {
                    u64_specs::wrapping_add(pre.pc, sext13(spec_b_imm(code)))
                } else {
                    u64_specs::wrapping_add(pre.pc, 4)
                },
                ..pre
            },
            mem,
        ),
        None => faulted(pre, mem, Exception::IllegalInstruction),
    }
}

/// The value a load produces at `addr` for a funct3 selector, or the
/// inner `None` when the fabric rejects the access; the outer `None`
/// marks an unassigned selector.
pub open spec fn load_value(mem: Seq<RegionModel>, addr: u64, funct3: u32) -> Option<Option<u64>> {
    let a = addr as usize;
    if funct3 == 0 {
        Some(match read8(mem, a) {
            Some(x) => Some(sext8(x)),
            None => None,
        })
    } else if funct3 == 1 {
        Some(match read16(mem, a) {
            Some(x) => Some(sext16(x)),
            None => None,
        })
    } else if funct3 == 2 {
        Some(match read32(mem, a) {
            Some(x) => Some(sext32(x)),
            None => None,
        })
    } else if funct3 == 3 {
        Some(read64(mem, a))
    } else if funct3 == 4 {
        Some(match read8(mem, a) {
            Some(x) => Some(x as u64),
            None => None,
        })
    } else if funct3 == 5 {
        Some(match read16(mem, a) {
            Some(x) => Some(x as u64),
            None => None,
        })
    } else if funct3 == 6 {
        Some(match read32(mem, a) {
            Some(x) => Some(x as u64),
            None => None,
        })
    } else {
        None
    }
}

/// Loads: the address is `rs1` plus the sign-extended immediate; a fabric
/// miss faults with that address, an unassigned width is illegal.
pub open spec fn load_spec(pre: MachineView, mem: Seq<RegionModel>, code: u32) -> StepOut {
    let addr = u64_specs::wrapping_add(pre.gpr[spec_rs1(code) as int], sext12(spec_i_imm(code)));
    match load_value(mem, addr, spec_funct3(code)) {
        Some(loaded) => match loaded {
            Some(v) => stepped(adv(wr(pre, spec_rd(code), v)), mem),
            None => faulted(pre, mem, Exception::LoadAccessFault(addr)),
        },
        None => faulted(pre, mem, Exception::IllegalInstruction),
    }
}

/// The memory after a store at `addr` for a funct3 selector, or the
/// inner `None` when the fabric rejects the access; the outer `None`
/// marks an unassigned selector.
pub open spec fn store_memory(
    mem: Seq<RegionModel>,
    addr: u64,
    v: u64,
    funct3: u32,
) -> Option<Option<Seq<RegionModel>>> {
    let a = addr as usize;
    if funct3 == 0 {
        Some(write8(mem, a, v as u8))
    } else if funct3 == 1 {
        Some(write16(mem, a, v as u16))
    } else if funct3 == 2 {
        Some(write32(mem, a, v as u32))
    } else if funct3 == 3 {
        Some(write64(mem, a, v))
    } else {
        None
    }
}

/// Stores: the address is `rs1` plus the sign-extended store immediate,
/// the stored value the low bytes of `rs2`.
pub open spec fn store_spec(pre: MachineView, mem: Seq<RegionModel>, code: u32) -> StepOut {
    let addr = u64_specs::wrapping_add(pre.gpr[spec_rs1(code) as int], sext12(spec_s_imm(code)));
    match store_memory(mem, addr, pre.gpr[spec_rs2(code) as int], spec_funct3(code)) {
        Some(written) => match written {
            Some(m2) => StepOut { m: adv(pre), mem: m2, trap: None },
            None => faulted(pre, mem, Exception::StoreAccessFault(addr)),
        },
        None => faulted(pre, mem, Exception::IllegalInstruction),
    }
}

/// The result of a register-immediate operation, or nothing for an
/// unassigned selector combination. Shift amounts come from the low six
/// immediate bits, with the rest of the immediate acting as a selector.
pub open spec fn op_imm_value(rs1: u64, funct3: u32, imm: u32) -> Option<u64> {
    let simm = sext12(imm);
    if funct3 == 0 {
        Some(u64_specs::wrapping_add(rs1, simm))
    } else if funct3 == 2 {
        Some(if (rs1 as i64) < (simm as i64) { 1u64 } else { 0u64 })
    } else if funct3 == 3 {
        Some(if rs1 < simm { 1u64 } else { 0u64 })
    } else if funct3 == 4 {
        Some(rs1 ^ simm)
    } else if funct3 == 6 {
        Some(rs1 | simm)
    } else if funct3 == 7 {
        Some(rs1 & simm)
    } else if funct3 == 1 {
        if imm >> 6 == 0 {
            Some(rs1 << ((imm & 0x3f) as u64))
        } else {
            None
        }
    } else {
        if imm >> 6 == 0 {
            Some(rs1 >> ((imm & 0x3f) as u64))
        } else if imm >> 6 == 0x10 {
            Some(((rs1 as i64) >> ((imm & 0x3f) as u64)) as u64)
        } else {
            None
        }
    }
}

/// The result of a register-immediate word operation: computed on the low
/// 32 bits and sign-extended back to 64.
pub open spec fn op_imm_w_value(rs1: u64, funct3: u32, imm: u32) -> Option<u64> {
    if funct3 == 0 {
        Some(sext32(u64_specs::wrapping_add(rs1, sext12(imm)) as u32))
    } else if funct3 == 1 {
        if imm >> 5 == 0 {
            Some(sext32((rs1 as u32) << ((imm & 0x1f) as u32)))
        } else {
            None
        }
    } else if funct3 == 5 {
        if imm >> 5 == 0 {
            Some(sext32((rs1 as u32) >> ((imm & 0x1f) as u32)))
        } else if imm >> 5 == 0x20 {
            Some(sext32((((rs1 as u32) as i32) >> ((imm & 0x1f) as u32)) as u32))
        } else {
            None
        }
    } else {
        None
    }
}

/// The result of a register-register operation, or nothing for an
/// unassigned selector combination. Shift amounts are the low six bits
/// of `rs2`.
pub open spec fn op_value(rs1: u64, rs2: u64, funct3: u32, funct7: u32) -> Option<u64> {
    if funct3 == 0 {
        if funct7 == 0 {
            Some(u64_specs::wrapping_add(rs1, rs2))
        } else if funct7 == 0x20 {
            Some(u64_specs::wrapping_sub(rs1, rs2))
        } else {
            None
        }
    } else if funct3 == 1 {
        Some(rs1 << (rs2 & 0x3f))
    } else if funct3 == 2 {
        Some(if (rs1 as i64) < (rs2 as i64) { 1u64 } else { 0u64 })
    } else if funct3 == 3 {
        Some(if rs1 < rs2 { 1u64 } else { 0u64 })
    } else if funct3 == 4 {
        Some(rs1 ^ rs2)
    } else if funct3 == 5 {
        if funct7 == 0 {
            Some(rs1 >> (rs2 & 0x3f))
        } else if funct7 == 0x20 {
            Some(((rs1 as i64) >> (rs2 & 0x3f)) as u64)
        } else {
            None
        }
    } else if funct3 == 6 {
        Some(rs1 | rs2)
    } else {
        Some(rs1 & rs2)
    }
}

/// The result of a register-register word operation: computed on the low
/// 32 bits with five-bit shift amounts, sign-extended back to 64.
pub open spec fn op_w_value(rs1: u64, rs2: u64, funct3: u32, funct7: u32) -> Option<u64> {
    if funct3 == 0 {
        if funct7 == 0 {
            Some(sext32(u64_specs::wrapping_add(rs1, rs2) as u32))
        } else if funct7 == 0x20 {
            Some(sext32(u64_specs::wrapping_sub(rs1, rs2) as u32))
        } else {
            None
        }
    } else if funct3 == 1 {
        Some(sext32((rs1 as u32) << ((rs2 & 0x1f) as u32)))
    } else if funct3 == 5 {
        if funct7 == 0 {
            Some(sext32((rs1 as u32) >> ((rs2 & 0x1f) as u32)))
        } else if funct7 == 0x20 {
            Some(sext32((((rs1 as u32) as i32) >> ((rs2 & 0x1f) as u32)) as u32))
        } else {
            None
        }
    } else {
        None
    }
}

/// A computed register result commits and the machine advances; a missing
/// one is an illegal instruction.
pub open spec fn commit_value(
    pre: MachineView,
    mem: Seq<RegionModel>,
    rd: u32,
    v: Option<u64>,
) -> StepOut {
    match v {
        Some(x) => stepped(adv(wr(pre, rd, x)), mem),
        None => faulted(pre, mem, Exception::IllegalInstruction),
    }
}

/// The system opcode: environment calls, breakpoints, and the six CSR
/// operations. Each CSR operation hands the old CSR value to `rd`.
pub open spec fn system_spec(pre: MachineView, mem: Seq<RegionModel>, code: u32) -> StepOut {
    let funct3 = spec_funct3(code);
    let imm = spec_i_imm(code);
    let rd = spec_rd(code);
    let rs1 = spec_rs1(code);
    let t = pre.csr[imm as int];
    let zimm = rs1 as u64;
    let rs1v = pre.gpr[rs1 as int];
    if funct3 == 0 {
        if imm == 0 {
            faulted(pre, mem, ecall_exception(pre.mode))
        } else if imm == 1 {
            faulted(pre, mem, Exception::Breakpoint)
        } else {
            faulted(pre, mem, Exception::IllegalInstruction)
        }
    } else if funct3 == 1 {
        stepped(
            adv(MachineView { csr: csr_upd(pre.csr, imm as int, rs1v), ..wr(pre, rd, t) }),
            mem,
        )
    } else if funct3 == 2 {
        stepped(
            adv(MachineView { csr: csr_upd(pre.csr, imm as int, t | rs1v), ..wr(pre, rd, t) }),
            mem,
        )
    } else if funct3 == 3 {
        stepped(
            adv(MachineView { csr: csr_upd(pre.csr, imm as int, t & !rs1v), ..wr(pre, rd, t) }),
            mem,
        )
    } else if funct3 == 5 {
        stepped(
            adv(MachineView { csr: csr_upd(pre.csr, imm as int, zimm), ..wr(pre, rd, t) }),
            mem,
        )
    } else if funct3 == 6 {
        stepped(
            adv(MachineView { csr: csr_upd(pre.csr, imm as int, t | zimm), ..wr(pre, rd, t) }),
            mem,
        )
    } else if funct3 == 7 {
        stepped(
            adv(MachineView { csr: csr_upd(pre.csr, imm as int, t & !zimm), ..wr(pre, rd, t) }),
            mem,
        )
    } else {
        faulted(pre, mem, Exception::IllegalInstruction)
    }
}

/// Dispatch of a fetched instruction word on its opcode field.
pub open spec fn exec_spec(pre: MachineView, mem: Seq<RegionModel>, code: u32) -> StepOut {
    let op = spec_opcode(code);
    if op == 0x37 {
        stepped(lui_spec(pre, code), mem)
    } else if op == 0x17 {
        stepped(auipc_spec(pre, code), mem)
    } else if op == 0x6f {
        stepped(jal_spec(pre, code), mem)
    } else if op == 0x67 {
        stepped(jalr_spec(pre, code), mem)
    } else if op == 0x63 {
        branch_spec(pre, mem, code)
    } else if op == 0x03 {
        load_spec(pre, mem, code)
    } else if op == 0x23 {
        store_spec(pre, mem, code)
    } else if op == 0x13 {
        commit_value(
            pre,
            mem,
            spec_rd(code),
            op_imm_value(pre.gpr[spec_rs1(code) as int], spec_funct3(code), spec_i_imm(code)),
        )
    } else if op == 0x1b {
        commit_value(
            pre,
            mem,
            spec_rd(code),
            op_imm_w_value(pre.gpr[spec_rs1(code) as int], spec_funct3(code), spec_i_imm(code)),
        )
    } else if op == 0x33 {
        commit_value(
            pre,
            mem,
            spec_rd(code),
            op_value(
                pre.gpr[spec_rs1(code) as int],
                pre.gpr[spec_rs2(code) as int],
                spec_funct3(code),
                spec_funct7(code),
            ),
        )
    } else if op == 0x3b {
        commit_value(
            pre,
            mem,
            spec_rd(code),
            op_w_value(
                pre.gpr[spec_rs1(code) as int],
                pre.gpr[spec_rs2(code) as int],
                spec_funct3(code),
                spec_funct7(code),
            ),
        )
    } else if op == 0x0f {
        stepped(adv(pre), mem)
    } else if op == 0x73 {
        system_spec(pre, mem, code)
    } else {
        faulted(pre, mem, Exception::IllegalInstruction)
    }
}

/// One full step: fetch the word at `pc` and execute it; a failed fetch
/// is an access fault carrying the fetch address.
pub open spec fn step_spec(pre: MachineView, mem: Seq<RegionModel>) -> StepOut {
    match read32(mem, pre.pc as usize) {
        None => faulted(pre, mem, Exception::LoadAccessFault(pre.pc)),
        Some(code) => exec_spec(pre, mem, code),
    }
}

/// Up to `n` steps, stopping early at the first fault, which is left
/// undelivered in the outcome.
pub open spec fn run_upto(pre: MachineView, mem: Seq<RegionModel>, n: nat) -> StepOut
    decreases n,
{
    if n == 0 {
        StepOut { m: pre, mem, trap: None }
    } else {
        let s = step_spec(pre, mem);
        match s.trap {
            Some(_) => s,
            None => run_upto(s.m, s.mem, (n - 1) as nat),
        }
    }
}

/// One step followed by trap delivery of whatever fault it raised.
pub open spec fn step_deliver(pre: MachineView, mem: Seq<RegionModel>) -> StepOut {
    let s = step_spec(pre, mem);
    match s.trap {
        None => s,
        Some(e) => StepOut { m: deliver_spec(s.m, e), mem: s.mem, trap: Some(e) },
    }
}

/// Up to `n` delivered steps, stopping early only at a debugger trap;
/// every other fault is delivered and the run continues.
pub open spec fn run_dbg(pre: MachineView, mem: Seq<RegionModel>, n: nat) -> StepOut
    decreases n,
{
    if n == 0 {
        StepOut { m: pre, mem, trap: None }
    } else {
        let s = step_deliver(pre, mem);
        match s.trap {
            Some(e) => if e is Breakpoint {
                s
            } else {
                run_dbg(s.m, s.mem, (n - 1) as nat)
            },
            None => run_dbg(s.m, s.mem, (n - 1) as nat),
        }
    }
}

/// One more budgeted step extends a fault-free run by one step and
/// leaves a faulted run as it is.
pub proof fn lemma_run_upto_unfold(pre: MachineView, mem: Seq<RegionModel>, i: nat)
    ensures
        run_upto(pre, mem, i + 1) == ({
            let c = run_upto(pre, mem, i);
            if c.trap is Some {
                c
            } else {
                step_spec(c.m, c.mem)
            }
        }),
    decreases i,
{
    reveal_with_fuel(run_upto, 3);
    if i > 0 {
        let s = step_spec(pre, mem);
        if s.trap is None {
            lemma_run_upto_unfold(s.m, s.mem, (i - 1) as nat);
        }
    }
}

/// A run that has faulted stays at the fault however much budget is left.
pub proof fn lemma_run_upto_stable(pre: MachineView, mem: Seq<RegionModel>, i: nat, n: nat)
    requires
        i <= n,
        run_upto(pre, mem, i).trap is Some,
    ensures
        run_upto(pre, mem, n) == run_upto(pre, mem, i),
    decreases n,
{
    if i > 0 && n > 0 {
        let s = step_spec(pre, mem);
        if s.trap is None {
            lemma_run_upto_stable(s.m, s.mem, (i - 1) as nat, (n - 1) as nat);
        }
    }
}

/// One more delivered step extends a running debugger loop by one
/// iteration and leaves a stopped one as it is.
pub proof fn lemma_run_dbg_unfold(pre: MachineView, mem: Seq<RegionModel>, i: nat)
    ensures
        run_dbg(pre, mem, i + 1) == ({
            let c = run_dbg(pre, mem, i);
            if c.trap is Some {
                c
            } else {
                let s = step_deliver(c.m, c.mem);
                match s.trap {
                    Some(e) => if e is Breakpoint {
                        s
                    } else {
                        StepOut { m: s.m, mem: s.mem, trap: None }
                    },
                    None => StepOut { m: s.m, mem: s.mem, trap: None },
                }
            }
        }),
    decreases i,
{
    reveal_with_fuel(run_dbg, 3);
    if i > 0 {
        let s = step_deliver(pre, mem);
        match s.trap {
            Some(e) => {
                if !(e is Breakpoint) {
                    lemma_run_dbg_unfold(s.m, s.mem, (i - 1) as nat);
                }
            },
            None => {
                lemma_run_dbg_unfold(s.m, s.mem, (i - 1) as nat);
            },
        }
    }
}

/// A debugger loop stopped at a breakpoint stays stopped however much
/// budget is left.
pub proof fn lemma_run_dbg_stable(pre: MachineView, mem: Seq<RegionModel>, i: nat, n: nat)
    requires
        i <= n,
        run_dbg(pre, mem, i).trap is Some,
    ensures
        run_dbg(pre, mem, n) == run_dbg(pre, mem, i),
    decreases n,
{
    if i > 0 && n > 0 {
        let s = step_deliver(pre, mem);
        match s.trap {
            Some(e) => {
                if !(e is Breakpoint) {
                    lemma_run_dbg_stable(s.m, s.mem, (i - 1) as nat, (n - 1) as nat);
                }
            },
            None => {
                lemma_run_dbg_stable(s.m, s.mem, (i - 1) as nat, (n - 1) as nat);
            },
        }
    }
}

} // verus!
