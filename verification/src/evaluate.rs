//! The fetch-decode-execute engine, proved to implement the architectural
//! step semantics of [`crate::semantics::step_spec`].
use vstd::prelude::*;

use crate::abstract_machine::{Execable, ExceptionAttr, ExceptionProcessable, MMIODevice, MemModel, Readable, Writeable};
use crate::bits::lemma_shift_mask_bounds;
use crate::inst_type::{lemma_field_bounds, BType, IType, JType, RType, SType, UType};
use crate::irq::Exception;
use crate::machine::MachineModel;
use crate::mem_model::RegionModel;
use crate::semantics::{
    adv, auipc_spec, branch_spec, commit_value, jal_spec, jalr_spec, lemma_run_dbg_stable,
    lemma_run_dbg_unfold, lemma_run_upto_stable, lemma_run_upto_unfold, load_spec, lui_spec,
    op_imm_value, op_imm_w_value, op_value, op_w_value, run_dbg, run_upto, step_spec,
    store_spec, system_spec, wr,
};

verus! {

impl MachineModel {
    /// Load upper immediate.
    fn inst_0110111(&mut self, inst: &UType)
        requires
            old(self).wf(),
        ensures
            final(self).wf(),
            final(self).reg_map == old(self).reg_map,
            final(self)@ == lui_spec(old(self)@, inst.word),
    {
        proof {
            lemma_field_bounds();
        }
        let imm = ((inst.imm() << 12) as i32) as i64 as u64;
        self.gpr.store(inst.rd() as usize, imm);
        let pc = self.pc.read();
        self.pc.store(pc.wrapping_add(4));
        proof {
            assert(self@ =~= lui_spec(old(self)@, inst.word));
        }
    }

    /// Add upper immediate to `pc`.
    fn inst_0010111(&mut self, inst: &UType)
        requires
            old(self).wf(),
        ensures
            final(self).wf(),
            final(self).reg_map == old(self).reg_map,
            final(self)@ == auipc_spec(old(self)@, inst.word),
    {
        proof {
            lemma_field_bounds();
        }
        let imm = ((inst.imm() << 12) as i32) as i64 as u64;
        let pc = self.pc.read();
        self.gpr.store(inst.rd() as usize, pc.wrapping_add(imm));
        self.pc.store(pc.wrapping_add(4));
        proof {
            assert(self@ =~= auipc_spec(old(self)@, inst.word));
        }
    }

    /// Jump and link.
    fn inst_1101111(&mut self, inst: &JType)
        requires
            old(self).wf(),
        ensures
            final(self).wf(),
            final(self).reg_map == old(self).reg_map,
            final(self)@ == jal_spec(old(self)@, inst.word),
    {
        proof {
            lemma_field_bounds();
        }
        let pc = self.pc.read();
        self.gpr.store(inst.rd() as usize, pc.wrapping_add(4));
        let imm = inst.get_offset() as u64;
        self.pc.store(pc.wrapping_add(imm));
        proof {
            assert(self@ =~= jal_spec(old(self)@, inst.word));
        }
    }

    /// Jump and link register.
    fn inst_1100111(&mut self, inst: &IType)
        requires
            old(self).wf(),
        ensures
            final(self).wf(),
            final(self).reg_map == old(self).reg_map,
            final(self)@ == jalr_spec(old(self)@, inst.word),
    {
        proof {
            lemma_field_bounds();
        }
        let pc = self.pc.read();
        let base = self.gpr.read(inst.rs1() as usize);
        self.gpr.store(inst.rd() as usize, pc.wrapping_add(4));
        let off = inst.sext_imm() as u64;
        self.pc.store(base.wrapping_add(off));
        proof {
            assert(self@ =~= jalr_spec(old(self)@, inst.word));
        }
    }

    /// Conditional branches.
    fn inst_1100011(&mut self, inst: &BType, Ghost(mem): Ghost<Seq<RegionModel>>) -> (r: Result<
        (),
        Exception,
    >)
        requires
            old(self).wf(),
        ensures
            final(self).wf(),
            final(self).reg_map == old(self).reg_map,
            ({
                let out = branch_spec(old(self)@, mem, inst.word);
                final(self)@ == out.m && (match out.trap {
                    None => r == Ok::<(), Exception>(()),
                    Some(e) => r == Err::<(), Exception>(e),
                })
            }),
    {
        proof {
            lemma_field_bounds();
        }
        let rs1 = self.gpr.read(inst.rs1() as usize);
        let rs2 = self.gpr.read(inst.rs2() as usize);
        let cond = match inst.funct3() {
            0b000 => rs1 == rs2,  // beq
            0b001 => rs1 != rs2,  // bne
            0b100 => (rs1 as i64) < (rs2 as i64),  // blt
            0b101 => (rs1 as i64) >= (rs2 as i64),  // bge
            0b110 => rs1 < rs2,  // bltu
            0b111 => rs1 >= rs2,  // bgeu
            _ => {
                return Err(Exception::IllegalInstruction);
            },
        };
        let pc = self.pc.read();
        if cond {
            let off = inst.sext_offset() as u64;
            self.pc.store(pc.wrapping_add(off));
        } else {
            self.pc.store(pc.wrapping_add(4));
        }
        proof {
            assert(self@ =~= branch_spec(old(self)@, mem, inst.word).m);
        }
        Ok(())
    }

    /// Loads.
    fn inst_0000011<M: MMIODevice>(&mut self, inst: &IType, memory: &M) -> (r: Result<
        (),
        Exception,
    >)
        requires
            old(self).wf(),
        ensures
            final(self).wf(),
            final(self).reg_map == old(self).reg_map,
            ({
                let out = load_spec(old(self)@, memory.regions(), inst.word);
                final(self)@ == out.m && (match out.trap {
                    None => r == Ok::<(), Exception>(()),
                    Some(e) => r == Err::<(), Exception>(e),
                })
            }),
    {
        proof {
            lemma_field_bounds();
        }
        let base = self.gpr.read(inst.rs1() as usize);
        let off = inst.sext_imm() as u64;
        let addr = base.wrapping_add(off);
        let naddr = addr as usize;
        let loaded: Option<u64> = match inst.funct3() {
            0b000 => match memory.read_u8(naddr) {
                Some(x) => Some(x as i8 as i64 as u64),  // lb
                None => None,
            },
            0b001 => match memory.read_u16(naddr) {
                Some(x) => Some(x as i16 as i64 as u64),  // lh
                None => None,
            },
            0b010 => match memory.read_u32(naddr) {
                Some(x) => Some(x as i32 as i64 as u64),  // lw
                None => None,
            },
            0b011 => memory.read_u64(naddr),  // ld
            0b100 => match memory.read_u8(naddr) {
                Some(x) => Some(x as u64),  // lbu
                None => None,
            },
            0b101 => match memory.read_u16(naddr) {
                Some(x) => Some(x as u64),  // lhu
                None => None,
            },
            0b110 => match memory.read_u32(naddr) {
                Some(x) => Some(x as u64),  // lwu
                None => None,
            },
            _ => {
                return Err(Exception::IllegalInstruction);
            },
        };
        let v = match loaded {
            Some(v) => v,
            None => {
                return Err(Exception::LoadAccessFault(addr));
            },
        };
        self.gpr.store(inst.rd() as usize, v);
        let pc = self.pc.read();
        self.pc.store(pc.wrapping_add(4));
        proof {
            assert(self@ =~= load_spec(old(self)@, memory.regions(), inst.word).m);
        }
        Ok(())
    }

    /// Stores.
    fn inst_0100011<M: MMIODevice>(&mut self, inst: &SType, memory: &mut M) -> (r: Result<
        (),
        Exception,
    >)
        requires
            old(self).wf(),
        ensures
            final(self).wf(),
            final(self).reg_map == old(self).reg_map,
            ({
                let out = store_spec(old(self)@, old(memory).regions(), inst.word);
                final(self)@ == out.m && final(memory).regions() == out.mem && (match out.trap {
                    None => r == Ok::<(), Exception>(()),
                    Some(e) => r == Err::<(), Exception>(e),
                })
            }),
    {
        proof {
            lemma_field_bounds();
        }
        let base = self.gpr.read(inst.rs1() as usize);
        let off = inst.sext_imm() as u64;
        let addr = base.wrapping_add(off);
        let naddr = addr as usize;
        let v = self.gpr.read(inst.rs2() as usize);
        let written: Option<()> = match inst.funct3() {
            0b000 => memory.write_u8(naddr, v as u8),  // sb
            0b001 => memory.write_u16(naddr, v as u16),  // sh
            0b010 => memory.write_u32(naddr, v as u32),  // sw
            0b011 => memory.write_u64(naddr, v),  // sd
            _ => {
                return Err(Exception::IllegalInstruction);
            },
        };
        if written.is_none() {
            return Err(Exception::StoreAccessFault(addr));
        }
        let pc = self.pc.read();
        self.pc.store(pc.wrapping_add(4));
        proof {
            assert(self@ =~= store_spec(old(self)@, old(memory).regions(), inst.word).m);
        }
        Ok(())
    }

    /// Register-immediate operations.
    fn inst_0010011(&mut self, inst: &IType, Ghost(mem): Ghost<Seq<RegionModel>>) -> (r: Result<
        (),
        Exception,
    >)
        requires
            old(self).wf(),
        ensures
            final(self).wf(),
            final(self).reg_map == old(self).reg_map,
            ({
                let out = commit_value(
                    old(self)@,
                    mem,
                    crate::inst_type::spec_rd(inst.word),
                    op_imm_value(
                        old(self)@.gpr[crate::inst_type::spec_rs1(inst.word) as int],
                        crate::inst_type::spec_funct3(inst.word),
                        crate::inst_type::spec_i_imm(inst.word),
                    ),
                );
                final(self)@ == out.m && (match out.trap {
                    None => r == Ok::<(), Exception>(()),
                    Some(e) => r == Err::<(), Exception>(e),
                })
            }),
    {
        proof {
            lemma_field_bounds();
            lemma_shift_mask_bounds();
        }
        let rs1 = self.gpr.read(inst.rs1() as usize);
        let imm = inst.imm();
        let simm = inst.sext_imm() as u64;
        let value: u64 = match inst.funct3() {
            0b000 => rs1.wrapping_add(simm),  // addi
            0b010 => if (rs1 as i64) < (simm as i64) {
                1u64
            } else {
                0u64
            },  // slti
            0b011 => if rs1 < simm {
                1u64
            } else {
                0u64
            },  // sltiu
            0b100 => rs1 ^ simm,  // xori
            0b110 => rs1 | simm,  // ori
            0b111 => rs1 & simm,  // andi
            0b001 => {
                if imm >> 6 == 0 {
                    rs1 << ((imm & 0x3f) as u64)  // slli
                } else {
                    return Err(Exception::IllegalInstruction);
                }
            },
            _ => {
                if imm >> 6 == 0 {
                    rs1 >> ((imm & 0x3f) as u64)  // srli
                } else if imm >> 6 == 0x10 {
                    ((rs1 as i64) >> ((imm & 0x3f) as u64)) as u64  // srai
                } else {
                    return Err(Exception::IllegalInstruction);
                }
            },
        };
        self.gpr.store(inst.rd() as usize, value);
        let pc = self.pc.read();
        self.pc.store(pc.wrapping_add(4));
        proof {
            assert(self@ =~= adv(
                wr(old(self)@, crate::inst_type::spec_rd(inst.word), value),
            ));
        }
        Ok(())
    }

    /// Register-immediate word operations.
    fn inst_0011011(&mut self, inst: &IType, Ghost(mem): Ghost<Seq<RegionModel>>) -> (r: Result<
        (),
        Exception,
    >)
        requires
            old(self).wf(),
        ensures
            final(self).wf(),
            final(self).reg_map == old(self).reg_map,
            ({
                let out = commit_value(
                    old(self)@,
                    mem,
                    crate::inst_type::spec_rd(inst.word),
                    op_imm_w_value(
                        old(self)@.gpr[crate::inst_type::spec_rs1(inst.word) as int],
                        crate::inst_type::spec_funct3(inst.word),
                        crate::inst_type::spec_i_imm(inst.word),
                    ),
                );
                final(self)@ == out.m && (match out.trap {
                    None => r == Ok::<(), Exception>(()),
                    Some(e) => r == Err::<(), Exception>(e),
                })
            }),
    {
        proof {
            lemma_field_bounds();
            lemma_shift_mask_bounds();
        }
        let rs1 = self.gpr.read(inst.rs1() as usize);
        let imm = inst.imm();
        let value: u64 = match inst.funct3() {
            0b000 => {
                let simm = inst.sext_imm() as u64;
                ((rs1.wrapping_add(simm) as u32) as i32) as i64 as u64  // addiw
            },
            0b001 => {
                if imm >> 5 == 0 {
                    ((((rs1 as u32) << ((imm & 0x1f) as u32)) as i32) as i64) as u64  // slliw
                } else {
                    return Err(Exception::IllegalInstruction);
                }
            },
            0b101 => {
                if imm >> 5 == 0 {
                    ((((rs1 as u32) >> ((imm & 0x1f) as u32)) as i32) as i64) as u64  // srliw
                } else if imm >> 5 == 0x20 {
                    (((((rs1 as u32) as i32) >> ((imm & 0x1f) as u32)) as u32) as i32) as i64
                        as u64  // sraiw
                } else {
                    return Err(Exception::IllegalInstruction);
                }
            },
            _ => {
                return Err(Exception::IllegalInstruction);
            },
        };
        self.gpr.store(inst.rd() as usize, value);
        let pc = self.pc.read();
        self.pc.store(pc.wrapping_add(4));
        proof {
            assert(self@ =~= adv(
                wr(old(self)@, crate::inst_type::spec_rd(inst.word), value),
            ));
        }
        Ok(())
    }

    /// Register-register operations.
    fn inst_0110011(&mut self, inst: &RType, Ghost(mem): Ghost<Seq<RegionModel>>) -> (r: Result<
        (),
        Exception,
    >)
        requires
            old(self).wf(),
        ensures
            final(self).wf(),
            final(self).reg_map == old(self).reg_map,
            ({
                let out = commit_value(
                    old(self)@,
                    mem,
                    crate::inst_type::spec_rd(inst.word),
                    op_value(
                        old(self)@.gpr[crate::inst_type::spec_rs1(inst.word) as int],
                        old(self)@.gpr[crate::inst_type::spec_rs2(inst.word) as int],
                        crate::inst_type::spec_funct3(inst.word),
                        crate::inst_type::spec_funct7(inst.word),
                    ),
                );
                final(self)@ == out.m && (match out.trap {
                    None => r == Ok::<(), Exception>(()),
                    Some(e) => r == Err::<(), Exception>(e),
                })
            }),
    {
        proof {
            lemma_field_bounds();
            lemma_shift_mask_bounds();
        }
        let rs1 = self.gpr.read(inst.rs1() as usize);
        let rs2 = self.gpr.read(inst.rs2() as usize);
        let value: u64 = match inst.funct3() {
            0b000 => match inst.funct7() {
                0b0000000 => rs1.wrapping_add(rs2),  // add
                0b0100000 => rs1.wrapping_sub(rs2),  // sub
                _ => {
                    return Err(Exception::IllegalInstruction);
                },
            },
            0b001 => rs1 << (rs2 & 0x3f),  // sll
            0b010 => if (rs1 as i64) < (rs2 as i64) {
                1u64
            } else {
                0u64
            },  // slt
            0b011 => if rs1 < rs2 {
                1u64
            } else {
                0u64
            },  // sltu
            0b100 => rs1 ^ rs2,  // xor
            0b101 => match inst.funct7() {
                0b0000000 => rs1 >> (rs2 & 0x3f),  // srl
                0b0100000 => ((rs1 as i64) >> (rs2 & 0x3f)) as u64,  // sra
                _ => {
                    return Err(Exception::IllegalInstruction);
                },
            },
            0b110 => rs1 | rs2,  // or
            _ => rs1 & rs2,  // and
        };
        self.gpr.store(inst.rd() as usize, value);
        let pc = self.pc.read();
        self.pc.store(pc.wrapping_add(4));
        proof {
            assert(self@ =~= adv(
                wr(old(self)@, crate::inst_type::spec_rd(inst.word), value),
            ));
        }
        Ok(())
    }

    /// Register-register word operations.
    fn inst_0111011(&mut self, inst: &RType, Ghost(mem): Ghost<Seq<RegionModel>>) -> (r: Result<
        (),
        Exception,
    >)
        requires
            old(self).wf(),
        ensures
            final(self).wf(),
            final(self).reg_map == old(self).reg_map,
            ({
                let out = commit_value(
                    old(self)@,
                    mem,
                    crate::inst_type::spec_rd(inst.word),
                    op_w_value(
                        old(self)@.gpr[crate::inst_type::spec_rs1(inst.word) as int],
                        old(self)@.gpr[crate::inst_type::spec_rs2(inst.word) as int],
                        crate::inst_type::spec_funct3(inst.word),
                        crate::inst_type::spec_funct7(inst.word),
                    ),
                );
                final(self)@ == out.m && (match out.trap {
                    None => r == Ok::<(), Exception>(()),
                    Some(e) => r == Err::<(), Exception>(e),
                })
            }),
    {
        proof {
            lemma_field_bounds();
            lemma_shift_mask_bounds();
        }
        let rs1 = self.gpr.read(inst.rs1() as usize);
        let rs2 = self.gpr.read(inst.rs2() as usize);
        let value: u64 = match inst.funct3() {
            0b000 => match inst.funct7() {
                0b0000000 => (((rs1.wrapping_add(rs2) as u32) as i32) as i64) as u64,  // addw
                0b0100000 => (((rs1.wrapping_sub(rs2) as u32) as i32) as i64) as u64,  // subw
                _ => {
                    return Err(Exception::IllegalInstruction);
                },
            },
            0b001 => ((((rs1 as u32) << (((rs2 & 0x1f) as u64) as u32)) as i32) as i64) as u64,  // sllw
            0b101 => match inst.funct7() {
                0b0000000 => ((((rs1 as u32) >> (((rs2 & 0x1f) as u64) as u32)) as i32) as i64)
                    as u64,  // srlw
                0b0100000 => (((((rs1 as u32) as i32) >> (((rs2 & 0x1f) as u64) as u32)) as u32)
                    as i32) as i64 as u64,  // sraw
                _ => {
                    return Err(Exception::IllegalInstruction);
                },
            },
            _ => {
                return Err(Exception::IllegalInstruction);
            },
        };
        self.gpr.store(inst.rd() as usize, value);
        let pc = self.pc.read();
        self.pc.store(pc.wrapping_add(4));
        proof {
            assert(self@ =~= adv(
                wr(old(self)@, crate::inst_type::spec_rd(inst.word), value),
            ));
        }
        Ok(())
    }

    /// Memory ordering: a no-op on a single in-order hart.
    fn inst_0001111(&mut self, inst: &IType)
        requires
            old(self).wf(),
        ensures
            final(self).wf(),
            final(self).reg_map == old(self).reg_map,
            final(self)@ == adv(old(self)@),
    {
        let pc = self.pc.read();
        self.pc.store(pc.wrapping_add(4));
        proof {
            assert(self@ =~= adv(old(self)@));
        }
    }

    /// The system opcode: environment calls, breakpoints, and CSR
    /// operations.
    fn inst_1110011(&mut self, inst: &IType, Ghost(mem): Ghost<Seq<RegionModel>>) -> (r: Result<
        (),
        Exception,
    >)
        requires
            old(self).wf(),
        ensures
            final(self).wf(),
            final(self).reg_map == old(self).reg_map,
            ({
                let out = system_spec(old(self)@, mem, inst.word);
                final(self)@ == out.m && (match out.trap {
                    None => r == Ok::<(), Exception>(()),
                    Some(e) => r == Err::<(), Exception>(e),
                })
            }),
    {
        proof {
            lemma_field_bounds();
        }
        let funct3 = inst.funct3();
        let csr = inst.csr() as usize;
        if funct3 == 0b000 {
            let imm = inst.imm();
            if imm == 0 {
                // ecall: the fault for the current privilege mode
                let e = match self.mode {
                    crate::csr_layout::MachineMode::User => Exception::UserEcall,
                    crate::csr_layout::MachineMode::Supervisor => Exception::SupervisorEcall,
                    crate::csr_layout::MachineMode::Hypervisor => Exception::IllegalInstruction,
                    crate::csr_layout::MachineMode::Machine => Exception::MachineEcall,
                };
                return Err(e);
            } else if imm == 1 {
                // ebreak
                return Err(Exception::Breakpoint);
            } else {
                return Err(Exception::IllegalInstruction);
            }
        }
        if funct3 == 0b100 {
            return Err(Exception::IllegalInstruction);
        }
        let t = self.csr.read(csr);
        let rd = inst.rd() as usize;
        let rs1 = inst.rs1();
        match funct3 {
            0b001 => {
                // csrrw
                let v = self.gpr.read(rs1 as usize);
                self.csr.store(csr, v);
                self.gpr.store(rd, t);
            },
            0b010 => {
                // csrrs
                let v = self.gpr.read(rs1 as usize);
                self.csr.store(csr, t | v);
                self.gpr.store(rd, t);
            },
            0b011 => {
                // csrrc
                let v = self.gpr.read(rs1 as usize);
                self.csr.store(csr, t & !v);
                self.gpr.store(rd, t);
            },
            0b101 => {
                // csrrwi
                self.csr.store(csr, rs1 as u64);
                self.gpr.store(rd, t);
            },
            0b110 => {
                // csrrsi
                self.csr.store(csr, t | (rs1 as u64));
                self.gpr.store(rd, t);
            },
            _ => {
                // csrrci
                self.csr.store(csr, t & !(rs1 as u64));
                self.gpr.store(rd, t);
            },
        }
        let pc = self.pc.read();
        self.pc.store(pc.wrapping_add(4));
        proof {
            assert(self@ =~= system_spec(old(self)@, mem, inst.word).m);
        }
        Ok(())
    }
}

impl Execable<Exception> for MachineModel {
    /// One full architectural step: fetch the word at the program counter
    /// through the fabric, decode it and execute it, per [`step_spec`].
    fn exec_once<M: MMIODevice>(&mut self, memory: &mut M) -> (r: Result<(), Exception>)
        ensures
            final(self).wf(),
            final(self).reg_map == old(self).reg_map,
            ({
                let out = step_spec(old(self)@, old(memory).regions());
                final(self)@ == out.m && final(memory).regions() == out.mem && (match out.trap {
                    None => r == Ok::<(), Exception>(()),
                    Some(e) => r == Err::<(), Exception>(e),
                })
            }),
    {
        let pc = self.pc.read();
        let code = match memory.read_u32(pc as usize) {
            Some(c) => c,
            None => {
                return Err(Exception::LoadAccessFault(pc));
            },
        };
        let ghost mem0 = memory.regions();
        let op = code & 0x7f;
        if op == 0b0110111 {
            self.inst_0110111(&UType { word: code });
            Ok(())
        } else if op == 0b0010111 {
            self.inst_0010111(&UType { word: code });
            Ok(())
        } else if op == 0b1101111 {
            self.inst_1101111(&JType { word: code });
            Ok(())
        } else if op == 0b1100111 {
            self.inst_1100111(&IType { word: code });
            Ok(())
        } else if op == 0b1100011 {
            self.inst_1100011(&BType { word: code }, Ghost(mem0))
        } else if op == 0b0000011 {
            self.inst_0000011(&IType { word: code }, memory)
        } else if op == 0b0100011 {
            self.inst_0100011(&SType { word: code }, memory)
        } else if op == 0b0010011 {
            self.inst_0010011(&IType { word: code }, Ghost(mem0))
        } else if op == 0b0011011 {
            self.inst_0011011(&IType { word: code }, Ghost(mem0))
        } else if op == 0b0110011 {
            self.inst_0110011(&RType { word: code }, Ghost(mem0))
        } else if op == 0b0111011 {
            self.inst_0111011(&RType { word: code }, Ghost(mem0))
        } else if op == 0b0001111 {
            self.inst_0001111(&IType { word: code });
            Ok(())
        } else if op == 0b1110011 {
            self.inst_1110011(&IType { word: code }, Ghost(mem0))
        } else {
            Err(Exception::IllegalInstruction)
        }
    }

    /// Step up to `fuel` times, stopping at the first fault, which is
    /// returned undelivered; per [`run_upto`].
    fn exec_catch_interrupt_loop<M: MMIODevice>(&mut self, memory: &mut M, fuel: usize) -> (r:
        Result<(), Exception>)
        ensures
            final(self).wf(),
            final(self).reg_map == old(self).reg_map,
            ({
                let out = run_upto(old(self)@, old(memory).regions(), fuel as nat);
                final(self)@ == out.m && final(memory).regions() == out.mem && (match out.trap {
                    None => r == Ok::<(), Exception>(()),
                    Some(e) => r == Err::<(), Exception>(e),
                })
            }),
    {
        let ghost pre0 = self@;
        let ghost mem0 = memory.regions();
        let mut i: usize = 0;
        while i < fuel
            invariant
                i <= fuel,
                pre0 == old(self)@,
                mem0 == old(memory).regions(),
                self.wf(),
                self.reg_map == old(self).reg_map,
                run_upto(pre0, mem0, i as nat).trap is None,
                self@ == run_upto(pre0, mem0, i as nat).m,
                memory.regions() == run_upto(pre0, mem0, i as nat).mem,
            decreases fuel - i,
        {
            let r = self.exec_once(memory);
            proof {
                lemma_run_upto_unfold(pre0, mem0, i as nat);
            }
            if let Err(e) = r {
                proof {
                    lemma_run_upto_stable(pre0, mem0, (i as nat) + 1, fuel as nat);
                }
                return Err(e);
            }
            i = i + 1;
        }
        Ok(())
    }

    /// Step up to `fuel` times, delivering every fault as a trap, and stop
    /// only at a breakpoint, which alone is returned; per [`run_dbg`].
    fn exec_loop_otherwise_debugger_trap<M: MMIODevice>(
        &mut self,
        memory: &mut M,
        fuel: usize,
    ) -> (r: Result<(), Exception>)
        ensures
            final(self).wf(),
            final(self).reg_map == old(self).reg_map,
            ({
                let out = run_dbg(old(self)@, old(memory).regions(), fuel as nat);
                final(self)@ == out.m && final(memory).regions() == out.mem && (match out.trap {
                    None => r == Ok::<(), Exception>(()),
                    Some(e) => r == Err::<(), Exception>(e),
                })
            }),
    {
        let ghost pre0 = self@;
        let ghost mem0 = memory.regions();
        let mut i: usize = 0;
        while i < fuel
            invariant
                i <= fuel,
                pre0 == old(self)@,
                mem0 == old(memory).regions(),
                self.wf(),
                self.reg_map == old(self).reg_map,
                run_dbg(pre0, mem0, i as nat).trap is None,
                self@ == run_dbg(pre0, mem0, i as nat).m,
                memory.regions() == run_dbg(pre0, mem0, i as nat).mem,
            decreases fuel - i,
        {
            let r = self.exec_once(memory);
            self.process_exception(r);
            proof {
                lemma_run_dbg_unfold(pre0, mem0, i as nat);
            }
            if let Err(e) = r {
                if e.is_debugger_trap() {
                    proof {
                        lemma_run_dbg_stable(pre0, mem0, (i as nat) + 1, fuel as nat);
                    }
                    return Err(e);
                }
            }
            i = i + 1;
        }
        Ok(())
    }

    /// Execute exactly `num` steps, stopping early at the first fault,
    /// which is returned undelivered; per [`run_upto`].
    fn setp_num<M: MMIODevice>(&mut self, memory: &mut M, num: usize) -> (r: Result<(), Exception>)
        ensures
            final(self).wf(),
            final(self).reg_map == old(self).reg_map,
            ({
                let out = run_upto(old(self)@, old(memory).regions(), num as nat);
                final(self)@ == out.m && final(memory).regions() == out.mem && (match out.trap {
                    None => r == Ok::<(), Exception>(()),
                    Some(e) => r == Err::<(), Exception>(e),
                })
            }),
    {
        let ghost pre0 = self@;
        let ghost mem0 = memory.regions();
        let mut i: usize = 0;
        while i < num
            invariant
                i <= num,
                pre0 == old(self)@,
                mem0 == old(memory).regions(),
                self.wf(),
                self.reg_map == old(self).reg_map,
                run_upto(pre0, mem0, i as nat).trap is None,
                self@ == run_upto(pre0, mem0, i as nat).m,
                memory.regions() == run_upto(pre0, mem0, i as nat).mem,
            decreases num - i,
        {
            let r = self.exec_once(memory);
            proof {
                lemma_run_upto_unfold(pre0, mem0, i as nat);
            }
            if let Err(e) = r {
                proof {
                    lemma_run_upto_stable(pre0, mem0, (i as nat) + 1, num as nat);
                }
                return Err(e);
            }
            i = i + 1;
        }
        Ok(())
    }
}

} // verus!
