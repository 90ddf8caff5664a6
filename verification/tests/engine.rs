// End-to-end tests of the fetch-decode-execute engine.
use lemu::abstract_machine::{Execable, ExceptionAttr, Readable};
use lemu::device::Device;
use lemu::irq::{Exception, RawException};
use lemu::machine::MachineModel;
use lemu::memory::Memory;

fn program(words: &[u32]) -> Memory {
    let bytes: Vec<u8> = words.iter().flat_map(|x| x.to_le_bytes()).collect();
    Memory::from(bytes.as_ref())
}

#[test]
fn tests_test_rv_eval() {
    let mut mm = MachineModel::new(0);
    // lui x1, 114514
    // addi x1, x1, 1919
    // add x1, x1, x0
    // add x1, x1, x1
    // sub x1, x1, x0
    // sub x1, x1, x1
    // jal x0, -6*4
    let inst_list: Vec<u8> = [
        469049527u32,
        2012250259,
        32947,
        1081523,
        1073774771,
        1074823347,
        4271894639,
    ]
    .into_iter()
    .flat_map(|x: u32| x.to_le_bytes())
    .collect();
    let mut mem = Memory::from(inst_list.as_ref());
    let _ = mm.exec_once(&mut mem);
    assert_eq!(mm.gpr.read(1), (114514 << 12));
    let _ = mm.exec_once(&mut mem);
    let value = (114514 << 12) + 1919;
    assert_eq!(mm.gpr.read(1), value);
    let _ = mm.exec_once(&mut mem);
    assert_eq!(mm.gpr.read(1), value);
    let _ = mm.exec_once(&mut mem);
    assert_eq!(mm.gpr.read(1), value + value);
    let _ = mm.exec_once(&mut mem);
    assert_eq!(mm.gpr.read(1), value + value);
    let _ = mm.exec_once(&mut mem);
    assert_eq!(mm.gpr.read(1), 0);
    assert_eq!(mm.pc.read(), 24);
    let _ = mm.exec_once(&mut mem);
    assert_eq!(mm.pc.read(), 0);
    let _ = mm.exec_once(&mut mem);
    assert_eq!(mm.gpr.read(1), (114514 << 12));
}

#[test]
fn evaluate_test_rv_eval() {
    let mut mm = MachineModel::new(0);
    // lui x1, 114514
    // addi x1, x1, 1919
    // add x1, x1, x0
    // add x1, x1, x1
    // sub x1, x1, x0
    // sub x1, x1, x1
    let inst_list: Vec<u8> = [
        469049527u32,
        2012250259,
        32947,
        1081523,
        1073774771,
        1074823347,
    ]
    .into_iter()
    .flat_map(|x: u32| x.to_le_bytes())
    .collect();
    let mut mem = Memory::from(inst_list.as_ref());
    let _ = mm.exec_once(&mut mem);
    let _ = mm.exec_once(&mut mem);
    let value = (114514 << 12) + 1919;
    assert_eq!(mm.gpr.read(1), value);
    let _ = mm.exec_once(&mut mem);
    assert_eq!(mm.gpr.read(1), value);
    let _ = mm.exec_once(&mut mem);
    assert_eq!(mm.gpr.read(1), value + value);
    let _ = mm.exec_once(&mut mem);
    assert_eq!(mm.gpr.read(1), value + value);
    let _ = mm.exec_once(&mut mem);
    assert_eq!(mm.gpr.read(1), 0);
}

#[test]
fn test_jalr() {
    let mut mm = MachineModel::new(0);
    // jalr x0, x0, 0
    let inst_list: Vec<u8> = [103u32].into_iter().flat_map(|x: u32| x.to_le_bytes()).collect();
    let mut mem = Memory::from(inst_list.as_ref());
    let _ = mm.exec_once(&mut mem);
    assert_eq!(mm.pc.read(), 0);
}

#[test]
fn test_loop() {
    let mut mm = MachineModel::new(0);
    let inst_list: Vec<u8> = [0x00006fu32].into_iter().flat_map(|x: u32| x.to_le_bytes()).collect();
    let mut mem = Memory::from(inst_list.as_ref());
    let _ = mm.exec_once(&mut mem);
    assert_eq!(mm.pc.read(), 0);
    let _ = mm.exec_once(&mut mem);
    assert_eq!(mm.pc.read(), 0);
}

#[test]
fn test_br() {
    let mut mm = MachineModel::new(0);
    let inst_list: Vec<u8> = [0x263u32, 0x1063, 0xfe000ce3]
        .into_iter()
        .flat_map(|x: u32| x.to_le_bytes())
        .collect();
    let mut mem = Memory::from(inst_list.as_ref());
    let _ = mm.exec_once(&mut mem);
    assert_eq!(mm.pc.read(), 4);
    let _ = mm.exec_once(&mut mem);
    assert_eq!(mm.pc.read(), 8);
    let _ = mm.exec_once(&mut mem);
    assert_eq!(mm.pc.read(), 0);
}

// The upper-immediate and add-immediate pair lands the combined value
// with the program counter three instructions further on.
#[test]
fn lui_addi_value_and_pc() {
    let mut mm = MachineModel::new(0);
    let mut mem = program(&[469049527, 2012250259, 32947]);
    for _ in 0..3 {
        assert_eq!(mm.exec_once(&mut mem), Ok(()));
    }
    assert_eq!(mm.gpr.read(1), (114514 << 12) + 1919);
    assert_eq!(mm.pc.read(), 12);
}

// An unrecognized opcode faults without touching any state.
#[test]
fn illegal_opcode_preserves_state() {
    let mut mm = MachineModel::new(7);
    let mut mem = program(&[0u32]);
    let before_gpr: Vec<u64> = (0..32).map(|i| mm.gpr.read(i)).collect();
    let before_misa = mm.csr.read(0x301);
    let r = mm.exec_once(&mut mem);
    assert_eq!(r, Err(Exception::IllegalInstruction));
    assert_eq!(mm.pc.read(), 0);
    for i in 0..32 {
        assert_eq!(mm.gpr.read(i), before_gpr[i]);
    }
    assert_eq!(mm.csr.read(0x301), before_misa);
    assert_eq!(mm.csr.read(0xf14), 7);
}

// A fetch outside every region is an access fault carrying the fetch
// address.
#[test]
fn fetch_miss_is_access_fault() {
    let mut mm = MachineModel::new(0);
    mm.pc.store(0x4000);
    let mut mem = program(&[0x13u32]);
    let r = mm.exec_once(&mut mem);
    assert_eq!(r, Err(Exception::LoadAccessFault(0x4000)));
}

// A four-byte access must lie wholly inside one region: the last whole
// word of a region reads, one byte further fails, and the engine turns
// the failure into a load access fault instead of panicking.
#[test]
fn region_boundary_word_access() {
    let mut bus = Device::new();
    // lw x1, 0x104(x0) ; lw x1, 0x105(x0)
    let lw1: u32 = (0x104 << 20) | (2 << 12) | (1 << 7) | 0x03;
    let lw2: u32 = (0x105 << 20) | (2 << 12) | (1 << 7) | 0x03;
    assert!(bus.add_device(0, program(&[lw1, lw2])));
    assert!(bus.add_device(0x100, Memory::new(8)));
    assert!(bus.read_u32(0x104).is_some());
    assert!(bus.read_u32(0x105).is_none());
    let mut mm = MachineModel::new(0);
    let r = mm.exec_once(&mut bus);
    assert_eq!(r, Ok(()));
    assert_eq!(mm.gpr.read(1), 0);
    let r = mm.exec_once(&mut bus);
    assert_eq!(r, Err(Exception::LoadAccessFault(0x105)));
}

// Loads and stores round-trip through the fabric, little-endian.
#[test]
fn store_then_load() {
    let mut mm = MachineModel::new(0);
    // addi x2, x0, 0x7b ; sw x2, 64(x0) ; lw x3, 64(x0)
    let addi: u32 = (0x7b << 20) | (2 << 7) | 0x13;
    let sw: u32 = (2 << 25) | (2 << 20) | (2 << 12) | 0x23; // imm 64 = 0b10_00000 -> hi 2, lo 0
    let lw: u32 = (64 << 20) | (2 << 12) | (3 << 7) | 0x03;
    let mut mem = program(&[addi, sw, lw, 0, 0, 0, 0, 0, 0, 0, 0, 0, 0, 0, 0, 0, 0, 0]);
    assert_eq!(mm.exec_once(&mut mem), Ok(()));
    assert_eq!(mm.exec_once(&mut mem), Ok(()));
    assert_eq!(mm.exec_once(&mut mem), Ok(()));
    assert_eq!(mm.gpr.read(3), 0x7b);
    assert_eq!(mem.read_u32(64), Some(0x7b));
}

// A store to an unmapped address is a store access fault.
#[test]
fn store_miss_is_access_fault() {
    let mut mm = MachineModel::new(0);
    // sw x0, 0x400(x0): imm 0x400 -> hi = 0x20, lo = 0
    let sw: u32 = (0x20 << 25) | (2 << 12) | 0x23;
    let mut mem = program(&[sw]);
    let r = mm.exec_once(&mut mem);
    assert_eq!(r, Err(Exception::StoreAccessFault(0x400)));
}

// The CSR operations hand back the old value and update the slot.
#[test]
fn csr_read_write_ops() {
    let mut mm = MachineModel::new(0);
    // addi x2, x0, 5
    // csrrw x1, mscratch, x2
    // csrrs x3, mscratch, x0
    // csrrci x4, mscratch, 1
    let addi: u32 = (5 << 20) | (2 << 7) | 0x13;
    let csrrw: u32 = (0x340 << 20) | (2 << 15) | (1 << 12) | (1 << 7) | 0x73;
    let csrrs: u32 = (0x340 << 20) | (2 << 12) | (3 << 7) | 0x73;
    let csrrci: u32 = (0x340 << 20) | (1 << 15) | (7 << 12) | (4 << 7) | 0x73;
    let mut mem = program(&[addi, csrrw, csrrs, csrrci]);
    assert_eq!(mm.exec_once(&mut mem), Ok(()));
    assert_eq!(mm.exec_once(&mut mem), Ok(()));
    assert_eq!(mm.gpr.read(1), 0);
    assert_eq!(mm.csr.read(0x340), 5);
    assert_eq!(mm.exec_once(&mut mem), Ok(()));
    assert_eq!(mm.gpr.read(3), 5);
    assert_eq!(mm.exec_once(&mut mem), Ok(()));
    assert_eq!(mm.gpr.read(4), 5);
    assert_eq!(mm.csr.read(0x340), 4);
    assert_eq!(mm.pc.read(), 16);
}

// The word-width operation family computes on the low 32 bits and
// sign-extends the result.
#[test]
fn word_ops_sign_extend() {
    let mut mm = MachineModel::new(0);
    // lui x1, 0x80000 -> x1 = 0xffff_ffff_8000_0000
    // addiw x2, x1, -1 -> x2 = sext32(0x7fff_ffff) = 0x7fff_ffff
    let lui: u32 = (0x80000 << 12) | (1 << 7) | 0x37;
    let addiw: u32 = (0xfff << 20) | (1 << 15) | (2 << 7) | 0x1b;
    let mut mem = program(&[lui, addiw]);
    assert_eq!(mm.exec_once(&mut mem), Ok(()));
    assert_eq!(mm.gpr.read(1), 0xffff_ffff_8000_0000);
    assert_eq!(mm.exec_once(&mut mem), Ok(()));
    assert_eq!(mm.gpr.read(2), 0x7fff_ffff);
}

// EBREAK is a debugger trap: the run loop delivers faults and stops
// exactly there, returning the breakpoint; ECALL is not a debugger trap.
#[test]
fn ebreak_stops_debugger_loop() {
    let mut mm = MachineModel::new(0);
    // addi x1, x0, 1 ; ebreak
    let addi: u32 = (1 << 20) | (1 << 7) | 0x13;
    let ebreak: u32 = (1 << 20) | 0x73;
    let mut mem = program(&[addi, ebreak]);
    let r = mm.exec_loop_otherwise_debugger_trap(&mut mem, 1000);
    assert_eq!(r, Err(Exception::Breakpoint));
    assert!(Exception::Breakpoint.is_debugger_trap());
    assert!(!Exception::MachineEcall.is_debugger_trap());
    assert_eq!(mm.gpr.read(1), 1);
    // the breakpoint was raised at the second instruction
    assert_eq!(mm.pc.read(), 4);
}

// The step-budget runner executes exactly the asked number of steps.
#[test]
fn setp_num_counts_steps() {
    let mut mm = MachineModel::new(0);
    let addi: u32 = (1 << 20) | (1 << 7) | 0x13; // addi x1, x0, 1
    let add: u32 = (1 << 20) | (1 << 15) | (1 << 7) | 0x33; // add x1, x1, x1
    let mut mem = program(&[addi, add, add, add]);
    assert_eq!(mm.setp_num(&mut mem, 3), Ok(()));
    assert_eq!(mm.gpr.read(1), 4);
    assert_eq!(mm.pc.read(), 12);
}

// The catching run loop returns the first fault undelivered.
#[test]
fn catch_loop_returns_first_fault() {
    let mut mm = MachineModel::new(0);
    let addi: u32 = (1 << 20) | (1 << 7) | 0x13;
    let mut mem = program(&[addi, 0]);
    let r = mm.exec_catch_interrupt_loop(&mut mem, 100);
    assert_eq!(r, Err(Exception::IllegalInstruction));
    assert_eq!(mm.pc.read(), 4);
}

// Trap entry with delivery enabled: mepc, mtval, mcause and the status
// bits are recorded and the program counter moves to the vector base;
// trap return restores them.
#[test]
fn trap_entry_and_return() {
    let mut mm = MachineModel::new(0);
    mm.csr.store(0x300, 1 << 3); // mstatus.MIE
    mm.csr.store(0x304, 1 << 3); // mie.MSIE
    mm.csr.store(0x344, 1 << 3); // mip.MSIP
    mm.csr.store(0x305, 0x2000); // mtvec: direct, base 0x2000
    mm.pc.store(0x44);
    let r = mm.exception_request(Exception::LoadAccessFault(0x999));
    assert_eq!(r, Some(()));
    assert_eq!(mm.pc.read(), 0x2000);
    assert_eq!(mm.csr.read(0x341), 0x44); // mepc
    assert_eq!(mm.csr.read(0x343), 0x999); // mtval
    assert_eq!(mm.csr.read(0x342), 5); // mcause: load access fault
    let mstatus = mm.csr.read(0x300);
    assert_eq!((mstatus >> 3) & 1, 0); // MIE cleared
    assert_eq!((mstatus >> 7) & 1, 1); // MPIE saved
    assert_eq!((mstatus >> 11) & 3, 3); // MPP = machine
    mm.mret();
    assert_eq!(mm.pc.read(), 0x44);
    assert_eq!((mm.csr.read(0x300) >> 3) & 1, 1); // MIE restored
}

// With delivery disabled, a trap request changes nothing.
#[test]
fn trap_disabled_is_inert() {
    let mut mm = MachineModel::new(0);
    mm.pc.store(0x44);
    mm.exception_request(Exception::IllegalInstruction);
    assert_eq!(mm.pc.read(), 0x44);
    assert_eq!(mm.csr.read(0x341), 0);
    assert_eq!(mm.csr.read(0x342), 0);
}

// A fault mapped through the cause table carries its trap value.
#[test]
fn cause_and_tval_mapping() {
    assert_eq!(
        Exception::LoadAccessFault(7).into_cause_tval(),
        (RawException::LoadAccessFault, 7)
    );
    assert_eq!(RawException::LoadAccessFault.cause_code(), 5);
    assert_eq!(
        Exception::IllegalInstruction.into_cause_tval(),
        (RawException::IllegalInstruction, 0)
    );
    assert_eq!(RawException::IllegalInstruction.cause_code(), 2);
    assert_eq!(
        Exception::StorePageFault(0x1234).into_cause_tval(),
        (RawException::StorePageFault, 0x1234)
    );
    assert_eq!(RawException::StorePageFault.cause_code(), 15);
    assert_eq!(RawException::EnvironmentCallFromMMode.cause_code(), 11);
}

// With delivery enabled, a fault inside the run loop enters the handler
// at the vector base; the loop keeps running there and stops only at
// the handler's breakpoint.
#[test]
fn fault_enters_handler_then_breakpoint() {
    let mut mm = MachineModel::new(0);
    mm.csr.store(0x300, 1 << 3); // mstatus.MIE
    mm.csr.store(0x304, 1 << 3); // mie.MSIE
    mm.csr.store(0x344, 1 << 3); // mip.MSIP
    mm.csr.store(0x305, 16); // mtvec: direct, base 16
    // 0: illegal word; 16: addi x1, x0, 9 ; ebreak
    let addi: u32 = (9 << 20) | (1 << 7) | 0x13;
    let ebreak: u32 = (1 << 20) | 0x73;
    let mut mem = program(&[0, 0, 0, 0, addi, ebreak]);
    let r = mm.exec_loop_otherwise_debugger_trap(&mut mem, 100);
    assert_eq!(r, Err(Exception::Breakpoint));
    assert_eq!(mm.gpr.read(1), 9);
    // the first delivery recorded the illegal instruction and cleared the
    // interrupt-enable bit, so the handler's breakpoint is not delivered
    // again; the loop still stops on it
    assert_eq!(mm.csr.read(0x342), 2);
    assert_eq!(mm.csr.read(0x341), 0);
    assert_eq!(mm.pc.read(), 20); // stopped at the breakpoint instruction
}

// An environment call from machine mode is returned as that fault.
#[test]
fn ecall_from_machine_mode() {
    let mut mm = MachineModel::new(0);
    let ecall: u32 = 0x73;
    let mut mem = program(&[ecall]);
    let r = mm.exec_once(&mut mem);
    assert_eq!(r, Err(Exception::MachineEcall));
    assert_eq!(mm.pc.read(), 0);
}
