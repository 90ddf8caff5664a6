//! The general laws of the machine, stated and proved over the same
//! models the executable contracts use.
use vstd::prelude::*;

use crate::inst_type::{spec_b_imm, spec_funct3, spec_opcode, spec_rs1, spec_rs2};
use crate::irq::Exception;
use crate::machine::MachineView;
use crate::mem_model::{read64, RegionModel};
use crate::mmu::{mmu_spec, pte_ppn, pte_r, pte_v, pte_w, pte_x, spec_pte_addr, walk_spec};
use crate::regfile::gpr_upd;
use crate::semantics::{branch_cond, branch_spec, exec_spec, run_dbg, step_deliver};
use crate::bits::sext13;

verus! {

use vstd::wrapping::u64_specs;

/// Writing a register then reading it back returns the written value for
/// every index but zero; the zero register reads zero whatever was
/// written, and no other register is disturbed.
pub proof fn lemma_gpr_write_read(g: Seq<u64>, i: int, v: u64)
    requires
        g.len() == 32,
        g[0] == 0,
        0 <= i < 32,
    ensures
        i != 0 ==> gpr_upd(g, i, v)[i] == v,
        i == 0 ==> gpr_upd(g, i, v)[i] == 0,
        forall|j: int| 0 <= j < 32 && j != i ==> gpr_upd(g, i, v)[j] == g[j],
{
}

/// A recognized branch never faults; taken, it moves the program counter
/// by the sign-extended offset, untaken it advances it by exactly four;
/// registers, CSRs, mode and memory are untouched either way.
pub proof fn lemma_branch_pc(pre: MachineView, mem: Seq<RegionModel>, code: u32)
    requires
        branch_cond(
            pre.gpr[spec_rs1(code) as int],
            pre.gpr[spec_rs2(code) as int],
            spec_funct3(code),
        ) is Some,
    ensures
        ({
            let cond = branch_cond(
                pre.gpr[spec_rs1(code) as int],
                pre.gpr[spec_rs2(code) as int],
                spec_funct3(code),
            )->Some_0;
            let out = branch_spec(pre, mem, code);
            &&& out.trap is None
            &&& cond ==> out.m.pc == u64_specs::wrapping_add(pre.pc, sext13(spec_b_imm(code)))
            &&& !cond ==> out.m.pc == u64_specs::wrapping_add(pre.pc, 4)
            &&& out.m.gpr == pre.gpr
            &&& out.m.csr == pre.csr
            &&& out.m.mode == pre.mode
            &&& out.mem == mem
        }),
{
}

/// Bare-mode translation is the identity map with full permissions, for
/// every virtual address and every memory.
pub proof fn lemma_bare_translation(mem: Seq<RegionModel>, satp: u64, vaddr: u64)
    requires
        satp >> 60 == 0,
    ensures
        mmu_spec(mem, satp, vaddr) == Some((vaddr, true, true, true)),
{
}

/// A well-formed three-level walk — both upper entries valid pointers,
/// the last entry a valid leaf — translates to the leaf's physical page
/// number over the untouched page offset, with the leaf's permission
/// bits.
pub proof fn lemma_sv39_walk_leaf(
    mem: Seq<RegionModel>,
    root_ppn: u64,
    vaddr: u64,
    p2: u64,
    p1: u64,
    p0: u64,
)
    requires
        read64(mem, spec_pte_addr(root_ppn, vaddr, 2) as usize) == Some(p2),
        pte_v(p2),
        !pte_r(p2) && !pte_w(p2) && !pte_x(p2),
        read64(mem, spec_pte_addr(pte_ppn(p2), vaddr, 1) as usize) == Some(p1),
        pte_v(p1),
        !pte_r(p1) && !pte_w(p1) && !pte_x(p1),
        read64(mem, spec_pte_addr(pte_ppn(p1), vaddr, 0) as usize) == Some(p0),
        pte_v(p0),
        pte_r(p0) || pte_w(p0) || pte_x(p0),
    ensures
        walk_spec(mem, root_ppn, vaddr, 3) == Some(
            ((pte_ppn(p0) << 12) | (vaddr & 0xfff), pte_r(p0), pte_w(p0), pte_x(p0)),
        ),
{
    reveal_with_fuel(walk_spec, 4);
}

/// An invalid entry at the root level fails the three-level walk.
pub proof fn lemma_sv39_walk_invalid_root(
    mem: Seq<RegionModel>,
    root_ppn: u64,
    vaddr: u64,
    p2: u64,
)
    requires
        read64(mem, spec_pte_addr(root_ppn, vaddr, 2) as usize) == Some(p2),
        !pte_v(p2),
    ensures
        walk_spec(mem, root_ppn, vaddr, 3) is None,
{
}

/// An invalid entry at the middle level fails the three-level walk.
pub proof fn lemma_sv39_walk_invalid_mid(
    mem: Seq<RegionModel>,
    root_ppn: u64,
    vaddr: u64,
    p2: u64,
    p1: u64,
)
    requires
        read64(mem, spec_pte_addr(root_ppn, vaddr, 2) as usize) == Some(p2),
        pte_v(p2),
        !pte_r(p2) && !pte_w(p2) && !pte_x(p2),
        read64(mem, spec_pte_addr(pte_ppn(p2), vaddr, 1) as usize) == Some(p1),
        !pte_v(p1),
    ensures
        walk_spec(mem, root_ppn, vaddr, 3) is None,
{
    reveal_with_fuel(walk_spec, 3);
}

/// An invalid entry at the leaf level fails the three-level walk.
pub proof fn lemma_sv39_walk_invalid_leaf(
    mem: Seq<RegionModel>,
    root_ppn: u64,
    vaddr: u64,
    p2: u64,
    p1: u64,
    p0: u64,
)
    requires
        read64(mem, spec_pte_addr(root_ppn, vaddr, 2) as usize) == Some(p2),
        pte_v(p2),
        !pte_r(p2) && !pte_w(p2) && !pte_x(p2),
        read64(mem, spec_pte_addr(pte_ppn(p2), vaddr, 1) as usize) == Some(p1),
        pte_v(p1),
        !pte_r(p1) && !pte_w(p1) && !pte_x(p1),
        read64(mem, spec_pte_addr(pte_ppn(p1), vaddr, 0) as usize) == Some(p0),
        !pte_v(p0),
    ensures
        walk_spec(mem, root_ppn, vaddr, 3) is None,
{
    reveal_with_fuel(walk_spec, 4);
}

/// An unrecognized opcode is an illegal instruction and perturbs nothing:
/// registers, CSRs, mode, program counter and memory all stay exactly as
/// they were.
pub proof fn lemma_illegal_opcode(pre: MachineView, mem: Seq<RegionModel>, code: u32)
    requires
        spec_opcode(code) != 0x37,
        spec_opcode(code) != 0x17,
        spec_opcode(code) != 0x6f,
        spec_opcode(code) != 0x67,
        spec_opcode(code) != 0x63,
        spec_opcode(code) != 0x03,
        spec_opcode(code) != 0x23,
        spec_opcode(code) != 0x13,
        spec_opcode(code) != 0x1b,
        spec_opcode(code) != 0x33,
        spec_opcode(code) != 0x3b,
        spec_opcode(code) != 0x0f,
        spec_opcode(code) != 0x73,
    ensures
        exec_spec(pre, mem, code).m == pre,
        exec_spec(pre, mem, code).mem == mem,
        exec_spec(pre, mem, code).trap == Some(Exception::IllegalInstruction),
{
}

/// The run-until-debugger-trap operation only ever stops at a
/// breakpoint: every other fault is delivered as a trap and the run
/// continues.
pub proof fn lemma_run_dbg_trap_shape(pre: MachineView, mem: Seq<RegionModel>, n: nat)
    ensures
        match run_dbg(pre, mem, n).trap {
            Some(e) => e is Breakpoint,
            None => true,
        },
    decreases n,
{
    if n > 0 {
        let s = step_deliver(pre, mem);
        match s.trap {
            Some(e) => {
                if !(e is Breakpoint) {
                    lemma_run_dbg_trap_shape(s.m, s.mem, (n - 1) as nat);
                }
            },
            None => {
                lemma_run_dbg_trap_shape(s.m, s.mem, (n - 1) as nat);
            },
        }
    }
}

} // verus!
