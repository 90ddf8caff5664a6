// Arithmetic, logic, shift and privilege-path tests of the engine.
use lemu::abstract_machine::{Execable, Writeable};
use lemu::csr_layout::MachineMode;
use lemu::irq::Exception;
use lemu::machine::MachineModel;
use lemu::memory::Memory;

fn program(words: &[u32]) -> Memory {
    let bytes: Vec<u8> = words.iter().flat_map(|x| x.to_le_bytes()).collect();
    Memory::from(bytes.as_ref())
}

fn run(mm: &mut MachineModel, words: &[u32]) {
    let mut mem = program(words);
    for _ in 0..words.len() {
        let r = mm.exec_once(&mut mem);
        assert_eq!(r, Ok(()));
    }
}

// addi x[rd], x[rs1], imm
fn addi(rd: u32, rs1: u32, imm: u32) -> u32 {
    ((imm & 0xfff) << 20) | (rs1 << 15) | (rd << 7) | 0x13
}

// an op-imm word with an arbitrary funct3
fn op_imm(f3: u32, rd: u32, rs1: u32, imm: u32) -> u32 {
    ((imm & 0xfff) << 20) | (rs1 << 15) | (f3 << 12) | (rd << 7) | 0x13
}

// a register-register op
fn op(f7: u32, f3: u32, rd: u32, rs1: u32, rs2: u32) -> u32 {
    (f7 << 25) | (rs2 << 20) | (rs1 << 15) | (f3 << 12) | (rd << 7) | 0x33
}

// a register-register word op
fn op_w(f7: u32, f3: u32, rd: u32, rs1: u32, rs2: u32) -> u32 {
    (f7 << 25) | (rs2 << 20) | (rs1 << 15) | (f3 << 12) | (rd << 7) | 0x3b
}

#[test]
fn immediate_alu_ops() {
    let mut mm = MachineModel::new(0);
    run(
        &mut mm,
        &[
            addi(1, 0, 0xfff), // x1 = -1
            op_imm(2, 2, 1, 5), // slti x2, x1, 5 -> 1 (signed)
            op_imm(3, 3, 1, 5), // sltiu x3, x1, 5 -> 0 (unsigned max)
            op_imm(4, 4, 1, 0x0f0), // xori x4, x1, 0xf0
            op_imm(6, 5, 0, 0x0f0), // ori x5, x0, 0xf0
            op_imm(7, 6, 1, 0x0f0), // andi x6, x1, 0xf0
        ],
    );
    assert_eq!(mm.gpr.read(1), u64::MAX);
    assert_eq!(mm.gpr.read(2), 1);
    assert_eq!(mm.gpr.read(3), 0);
    assert_eq!(mm.gpr.read(4), !0xf0u64);
    assert_eq!(mm.gpr.read(5), 0xf0);
    assert_eq!(mm.gpr.read(6), 0xf0);
    assert_eq!(mm.pc.read(), 24);
}

#[test]
fn immediate_shifts() {
    let mut mm = MachineModel::new(0);
    run(
        &mut mm,
        &[
            addi(1, 0, 0xfff), // x1 = -1
            op_imm(1, 2, 1, 8), // slli x2, x1, 8
            op_imm(5, 3, 1, 8), // srli x3, x1, 8
            op_imm(5, 4, 1, (0x10 << 6) | 8), // srai x4, x1, 8
        ],
    );
    assert_eq!(mm.gpr.read(2), u64::MAX << 8);
    assert_eq!(mm.gpr.read(3), u64::MAX >> 8);
    assert_eq!(mm.gpr.read(4), u64::MAX);
}

#[test]
fn register_alu_ops() {
    let mut mm = MachineModel::new(0);
    run(
        &mut mm,
        &[
            addi(1, 0, 0xfff), // x1 = -1
            addi(2, 0, 68), // x2 = 68 (low six bits: 4)
            op(0, 1, 3, 1, 2), // sll x3, x1, x2 -> shift by 68 & 63 = 4
            op(0, 5, 4, 1, 2), // srl x4, x1, x2
            op(0x20, 5, 5, 1, 2), // sra x5, x1, x2
            op(0, 2, 6, 1, 2), // slt x6, x1, x2 -> 1
            op(0, 3, 7, 1, 2), // sltu x7, x1, x2 -> 0
            op(0, 4, 8, 1, 2), // xor
            op(0, 6, 9, 1, 2), // or
            op(0, 7, 10, 1, 2), // and
            op(0x20, 0, 11, 0, 2), // sub x11, x0, x2 -> -68
        ],
    );
    assert_eq!(mm.gpr.read(3), u64::MAX << 4);
    assert_eq!(mm.gpr.read(4), u64::MAX >> 4);
    assert_eq!(mm.gpr.read(5), u64::MAX);
    assert_eq!(mm.gpr.read(6), 1);
    assert_eq!(mm.gpr.read(7), 0);
    assert_eq!(mm.gpr.read(8), u64::MAX ^ 68);
    assert_eq!(mm.gpr.read(9), u64::MAX);
    assert_eq!(mm.gpr.read(10), 68);
    assert_eq!(mm.gpr.read(11), (-68i64) as u64);
}

// The word family computes on the low 32 bits with five-bit shift
// amounts and sign-extends the 32-bit result.
#[test]
fn word_family_low_bits() {
    let mut mm = MachineModel::new(0);
    let lui_neg: u32 = (0x80000 << 12) | (1 << 7) | 0x37; // x1 = sext(0x8000_0000)
    run(
        &mut mm,
        &[
            lui_neg,
            addi(2, 0, 4), // x2 = 4
            op_w(0, 5, 3, 1, 2), // srlw x3, x1, x2: 0x8000_0000 >> 4, zero-filled
            op_w(0x20, 5, 4, 1, 2), // sraw x4, x1, x2: sign-filled
            op_w(0, 1, 5, 1, 2), // sllw x5, x1, x2: low bits shift out
            op_w(0, 0, 6, 1, 1), // addw x6, x1, x1: wraps in 32 bits
            op_w(0x20, 0, 7, 1, 2), // subw x7, x1, x2
            ((4 << 20) | (1 << 15) | (5 << 12) | (8 << 7) | 0x1b), // srliw x8, x1, 4
            (((0x400 | 4) << 20) | (1 << 15) | (5 << 12) | (9 << 7) | 0x1b), // sraiw x9, x1, 4
            ((4 << 20) | (1 << 15) | (1 << 12) | (10 << 7) | 0x1b), // slliw x10, x1, 4
        ],
    );
    assert_eq!(mm.gpr.read(1), 0xffff_ffff_8000_0000);
    assert_eq!(mm.gpr.read(3), 0x0800_0000);
    assert_eq!(mm.gpr.read(4), 0xffff_ffff_f800_0000);
    assert_eq!(mm.gpr.read(5), 0);
    assert_eq!(mm.gpr.read(6), 0);
    assert_eq!(mm.gpr.read(7), 0x7fff_fffc);
    assert_eq!(mm.gpr.read(8), 0x0800_0000);
    assert_eq!(mm.gpr.read(9), 0xffff_ffff_f800_0000);
    assert_eq!(mm.gpr.read(10), 0);
}

#[test]
fn auipc_adds_to_pc() {
    let mut mm = MachineModel::new(0);
    let nop = addi(0, 0, 0);
    let auipc: u32 = (1 << 12) | (1 << 7) | 0x17; // auipc x1, 1
    run(&mut mm, &[nop, auipc]);
    assert_eq!(mm.gpr.read(1), 4 + (1 << 12));
}

// Narrow loads sign- or zero-extend as their selector says.
#[test]
fn load_extensions() {
    let mut mm = MachineModel::new(0);
    let lb: u32 = (32 << 20) | (1 << 7) | 0x03;
    let lbu: u32 = (32 << 20) | (4 << 12) | (2 << 7) | 0x03;
    let lh: u32 = (32 << 20) | (1 << 12) | (3 << 7) | 0x03;
    let lhu: u32 = (32 << 20) | (5 << 12) | (4 << 7) | 0x03;
    let lwu: u32 = (32 << 20) | (6 << 12) | (5 << 7) | 0x03;
    let ld: u32 = (32 << 20) | (3 << 12) | (6 << 7) | 0x03;
    let mut mem = program(&[lb, lbu, lh, lhu, lwu, ld, 0, 0, 0, 0]);
    mem.write_u64(32, 0xffff_ffff_ffff_fffe).unwrap();
    for _ in 0..6 {
        assert_eq!(mm.exec_once(&mut mem), Ok(()));
    }
    assert_eq!(mm.gpr.read(1), 0xffff_ffff_ffff_fffe);
    assert_eq!(mm.gpr.read(2), 0xfe);
    assert_eq!(mm.gpr.read(3), 0xffff_ffff_ffff_fffe);
    assert_eq!(mm.gpr.read(4), 0xfffe);
    assert_eq!(mm.gpr.read(5), 0xffff_fffe);
    assert_eq!(mm.gpr.read(6), 0xffff_ffff_ffff_fffe);
}

// Unassigned selector combinations are illegal instructions.
#[test]
fn unassigned_selectors_are_illegal() {
    let cases: &[u32] = &[
        (2 << 12) | 0x63, // branch funct3 2
        (7 << 12) | 0x03, // load funct3 7
        (4 << 12) | 0x23, // store funct3 4
        op_imm(1, 1, 0, 1 << 6), // slli with a set selector bit
        op_imm(5, 1, 0, 1 << 7), // shift-right with an unknown selector
        op(1, 0, 1, 0, 0), // op funct3 0 funct7 1
        op(1, 5, 1, 0, 0), // op funct3 5 funct7 1
        op_w(1, 0, 1, 0, 0), // op-w funct3 0 funct7 1
        op_w(0, 2, 1, 0, 0), // op-w funct3 2
        (2 << 12) | 0x1b, // op-imm-w funct3 2
        (4 << 12) | 0x73, // system funct3 4
        (2 << 20) | 0x73, // system funct3 0, immediate 2
    ];
    for &w in cases {
        let mut mm = MachineModel::new(0);
        let mut mem = program(&[w]);
        assert_eq!(mm.exec_once(&mut mem), Err(Exception::IllegalInstruction), "word {w:#x}");
        assert_eq!(mm.pc.read(), 0);
    }
}

// The fence opcode only advances the program counter.
#[test]
fn fence_is_a_nop() {
    let mut mm = MachineModel::new(0);
    let mut mem = program(&[0x0ff0000f]);
    assert_eq!(mm.exec_once(&mut mem), Ok(()));
    assert_eq!(mm.pc.read(), 4);
    for i in 0..32 {
        assert_eq!(mm.gpr.read(i), 0);
    }
}

// Trap return drops to the previous privilege; an environment call from
// there carries the user cause, and an access check below the required
// privilege raises a fault.
#[test]
fn privilege_round_trip() {
    let mut mm = MachineModel::new(0);
    assert_eq!(mm.mode, MachineMode::Machine);
    // mstatus: MPP = user (0), MPIE = 1
    mm.csr.store(0x300, 1 << 7);
    mm.csr.store(0x341, 0x100); // mepc
    mm.mret();
    assert_eq!(mm.mode, MachineMode::User);
    assert_eq!(mm.pc.read(), 0x100);
    assert_eq!((mm.csr.read(0x300) >> 3) & 1, 1); // MIE restored from MPIE

    mm.pc.store(0);
    let ecall: u32 = 0x73;
    let mut mem = program(&[ecall]);
    assert_eq!(mm.exec_once(&mut mem), Err(Exception::UserEcall));

    // with delivery enabled, an access check below machine level traps
    mm.csr.store(0x304, 1 << 3);
    mm.csr.store(0x344, 1 << 3);
    mm.csr.store(0x305, 0x3000);
    mm.pc.store(0x50);
    mm.check_inst_access(MachineMode::Machine);
    assert_eq!(mm.pc.read(), 0x3000);
    assert_eq!(mm.csr.read(0x342), 1); // instruction access fault
    assert_eq!(mm.csr.read(0x341), 0x50);
    // at machine level the same check is silent
    let mut mm2 = MachineModel::new(0);
    mm2.pc.store(0x50);
    mm2.check_inst_access(MachineMode::Machine);
    assert_eq!(mm2.pc.read(), 0x50);
}
