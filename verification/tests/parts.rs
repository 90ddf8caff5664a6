// Tests of the individual components: bit fields, instruction formats,
// the register banks, the memory fabric, address translation, and the
// debugger-facing expression evaluator.
use lemu::abstract_machine::{LengthInfo, Readable, RegInfo, Writeable};
use lemu::bits::{field_range_into_u16, field_range_into_u32, field_range_into_u8};
use lemu::csr_layout::{MachineMode, MStatus, Satp, SatpMode, TVMode, Tvec};
use lemu::device::Device;
use lemu::inst_type::{BType, IType, JType, RType, SType, UType};
use lemu::irq::RawTrapType;
use lemu::machine::{parse_dec, MachineModel, RegEntry};
use lemu::memory::Memory;
use lemu::mmu::{mmu_map, Sv39PageTableEntry, Sv39VAddr};
use lemu::monitor::Expr;
use lemu::regfile::{base_misa, misa_flag, BaseISA, RegType, CSR, GPR, PC};

#[test]
fn demo() {
    let a = 4 as u64;
    let b = (a as i64 + (-4)) as u64;
    assert_eq!(b, 0);
}

#[test]
fn bitfield_range_test() {
    let bf = field_range_into_u8(0b1010101010101010, 5, 0);
    assert_eq!(bf, 0b101010);
    let bf = field_range_into_u8(0b1010111111101010, 10, 6);
    assert_eq!(bf, 0b11111);
}

#[test]
fn bit_field_test() {
    let inst: u32 = 0b00000000000000000000_00001_0110111;
    let inst0 = UType::from_bytes(inst.to_ne_bytes());
    assert_eq!(inst0.imm(), 0);
    assert_eq!(inst0.opcode(), 0b0110111);
    assert_eq!(inst0.rd(), 0b00001);
}

#[test]
fn inst_type_bit_field_test() {
    let inst: u32 = 0b00000000000000000000_00001_0110111;
    let inst0 = UType::from_bytes(inst.to_ne_bytes());
    assert_eq!(inst0.imm(), 0);
    assert_eq!(inst0.opcode(), 0b0110111);
    assert_eq!(inst0.rd(), 0b00001);
}

#[test]
fn wider_field_ranges() {
    assert_eq!(field_range_into_u16(0xdead_beef, 31, 16), 0xdead);
    assert_eq!(field_range_into_u32(0xdead_beef, 31, 0), 0xdead_beef);
    assert_eq!(field_range_into_u8(0xdead_beef, 15, 0), 0xef);
}

// The format accessors pick the architectural fields apart.
#[test]
fn format_fields() {
    // add x1, x2, x3
    let w: u32 = (3 << 20) | (2 << 15) | (1 << 7) | 0x33;
    let r = RType { word: w };
    assert_eq!(r.opcode(), 0x33);
    assert_eq!(r.rd(), 1);
    assert_eq!(r.rs1(), 2);
    assert_eq!(r.rs2(), 3);
    assert_eq!(r.funct3(), 0);
    assert_eq!(r.funct7(), 0);

    // addi x1, x2, -3
    let w: u32 = (0xffd << 20) | (2 << 15) | (1 << 7) | 0x13;
    let i = IType { word: w };
    assert_eq!(i.imm(), 0xffd);
    assert_eq!(i.sext_imm(), -3);

    // sw x3, -4(x2): imm -4 = 0xffc -> hi 0x7f, lo 0x1c
    let w: u32 = (0x7f << 25) | (3 << 20) | (2 << 15) | (2 << 12) | (0x1c << 7) | 0x23;
    let s = SType { word: w };
    assert_eq!(s.sext_imm(), -4);

    // beq x0, x0, -16: word 0xfe0008e3
    let b = BType { word: 0xfe0008e3 };
    assert_eq!(b.sext_offset(), -16);

    // jal x0, -24: word 0xfe9ff06f
    let j = JType { word: 0xfe9ff06f };
    assert_eq!(j.get_offset(), -24);

    // the shifted variant doubles the immediate
    let w: u32 = (6 << 20) | 0x67;
    let i = IType { word: w };
    assert_eq!(i.sext_offset(), 12);
}

// Register bank: every index but zero holds a written value; index zero
// discards writes.
#[test]
fn gpr_zero_register() {
    let mut g = GPR::new();
    for i in 1..32usize {
        g.store(i, 0x55 + i as u64);
        assert_eq!(g.read(i), 0x55 + i as u64);
    }
    g.store(0, 0xdead);
    assert_eq!(g.read(0), 0);
}

#[test]
fn csr_bank_and_pc() {
    let mut c = CSR::new(7, 9);
    assert_eq!(c.read(0x301), 7);
    assert_eq!(c.read(0xf14), 9);
    c.store(0x340, 0x123);
    assert_eq!(c.read(0x340), 0x123);
    c.store(0, 0x456);
    assert_eq!(c.read(0), 0);
    let mut pc = PC::new(0x80000000);
    assert_eq!(pc.read(), 0x80000000);
    pc.store(4);
    assert_eq!(pc.read(), 4);
}

#[test]
fn misa_value() {
    assert_eq!(base_misa(BaseISA::RV64I), 2u64 << 62);
    assert_eq!(misa_flag(b'a'), 1);
    assert_eq!(misa_flag(b'm'), 1 << 12);
    let mm = MachineModel::new(3);
    assert_eq!(mm.csr.read(0x301), (2u64 << 62) | (1 << 12) | (1 << 2));
    assert_eq!(mm.csr.read(0xf14), 3);
}

// Memory region: bounds are checked per access width.
#[test]
fn memory_bounds() {
    let mut m = Memory::new(8);
    assert_eq!(m.get_length(), 8);
    assert_eq!(m.write_u64(0, 0x0807060504030201), Some(()));
    assert_eq!(m.read_u8(0), Some(0x01));
    assert_eq!(m.read_u16(1), Some(0x0302));
    assert_eq!(m.read_u32(4), Some(0x08070605));
    assert_eq!(m.read_u64(0), Some(0x0807060504030201));
    assert_eq!(m.read_u8(8), None);
    assert_eq!(m.read_u16(7), None);
    assert_eq!(m.read_u32(5), None);
    assert_eq!(m.read_u64(1), None);
    assert_eq!(m.write_u16(7, 1), None);
    let m2 = Memory::from(&[1u8, 2, 3][..]);
    assert_eq!(m2.get_length(), 3);
    assert_eq!(m2.read_u16(1), Some(0x0302));
}

// The fabric: regions answer at their base, overlaps are rejected, and
// an access straddling two adjacent regions fails entirely.
#[test]
fn device_registration_and_routing() {
    let mut bus = Device::new();
    assert!(bus.add_device(0x100, Memory::new(16)));
    assert!(bus.add_device(0x80, Memory::new(16)));
    // overlapping the first region
    assert!(!bus.add_device(0x108, Memory::new(4)));
    // empty regions are rejected
    assert!(!bus.add_device(0x200, Memory::from(&[][..])));
    assert_eq!(bus.get_length(), 32);
    assert_eq!(bus.write_u32(0x100, 0xabcd1234), Some(()));
    assert_eq!(bus.read_u32(0x100), Some(0xabcd1234));
    assert_eq!(bus.read_u8(0x103), Some(0xab));
    // 0x90..0x100 is unmapped even though both sides are
    assert_eq!(bus.read_u8(0x90), None);
    // adjacent regions do not merge: a word read across 0x8f..0x92 fails
    assert!(bus.add_device(0x90, Memory::new(0x70)));
    assert_eq!(bus.read_u8(0x90), Some(0));
    assert_eq!(bus.read_u32(0x8e), None);
}

// Bare-mode translation is the identity with full permissions.
#[test]
fn mmu_bare_identity() {
    let mem = Memory::new(16);
    let satp = Satp::from_bits(0);
    assert_eq!(satp.mode(), Some(SatpMode::Bare));
    for va in [0u64, 1, 0xfff, 0x8000_0000, u64::MAX] {
        assert_eq!(mmu_map(satp, &mem, va), Some((va, true, true, true)));
    }
}

// A three-level walk with valid pointers and a valid leaf translates to
// the leaf page over the untouched offset; an invalid entry at any
// level fails.
#[test]
fn mmu_sv39_walk() {
    // root table at ppn 1 (addr 0x1000), mid at ppn 2, leaf table at ppn 3
    // map vaddr with vpn2=0, vpn1=1, vpn0=2 to physical page 5, rwx
    let mut m = Memory::new(0x5000);
    let vaddr: u64 = (1 << 21) | (2 << 12) | 0x123;
    let va = Sv39VAddr::from_bits(vaddr);
    assert_eq!(va.vpn2(), 0);
    assert_eq!(va.vpn1(), 1);
    assert_eq!(va.vpn0(), 2);
    assert_eq!(va.offset(), 0x123);
    m.write_u64(0x1000, (2 << 10) | 1).unwrap(); // root[0] -> ppn 2, V
    m.write_u64(0x2008, (3 << 10) | 1).unwrap(); // mid[1] -> ppn 3, V
    m.write_u64(0x3010, (5 << 10) | 0b1111).unwrap(); // leaf[2]: ppn 5, XWRV
    let satp = Satp::from_bits((8u64 << 60) | 1);
    assert_eq!(satp.mode(), Some(SatpMode::Sv39));
    assert_eq!(satp.root_addr(), 0x1000);
    let r = mmu_map(satp, &m, vaddr);
    assert_eq!(r, Some(((5u64 << 12) | 0x123, true, true, true)));
    let pte = Sv39PageTableEntry::from_bits((5 << 10) | 0b1111);
    assert!(pte.v() && pte.r() && pte.w() && pte.x());
    assert_eq!(pte.ppn(), 5);

    // read-only leaf reports only the read permission
    m.write_u64(0x3010, (5 << 10) | 0b0011).unwrap();
    assert_eq!(mmu_map(satp, &m, vaddr), Some(((5u64 << 12) | 0x123, true, false, false)));

    // an invalid mid-level entry fails the walk
    m.write_u64(0x2008, 0).unwrap();
    assert_eq!(mmu_map(satp, &m, vaddr), None);
    // an invalid root entry fails the walk
    m.write_u64(0x1000, (2 << 10)).unwrap();
    assert_eq!(mmu_map(satp, &m, vaddr), None);
    // a walk that runs off the registered memory fails
    let satp_far = Satp::from_bits((8u64 << 60) | 0x100);
    assert_eq!(mmu_map(satp_far, &m, vaddr), None);
}

// The four-level scheme walks one level more with the same routine.
#[test]
fn mmu_sv48_walk() {
    let mut m = Memory::new(0x5000);
    // vpn3 = 0, vpn2 = 0, vpn1 = 1, vpn0 = 2
    let vaddr: u64 = (1 << 21) | (2 << 12) | 0x45;
    m.write_u64(0x1000, (2 << 10) | 1).unwrap(); // l3[0] -> ppn 2
    m.write_u64(0x2000, (3 << 10) | 1).unwrap(); // l2[0] -> ppn 3
    m.write_u64(0x3008, (4 << 10) | 1).unwrap(); // l1[1] -> ppn 4
    m.write_u64(0x4010, (7 << 10) | 0b0011).unwrap(); // l0[2]: ppn 7, RV
    let satp = Satp::from_bits((9u64 << 60) | 1);
    assert_eq!(satp.mode(), Some(SatpMode::Sv48));
    assert_eq!(mmu_map(satp, &m, vaddr), Some(((7u64 << 12) | 0x45, true, false, false)));
    // a pointer entry at the last level fails the walk
    m.write_u64(0x4010, (7 << 10) | 1).unwrap();
    assert_eq!(mmu_map(satp, &m, vaddr), None);
}

#[test]
fn tvec_target() {
    let t = Tvec::from_bits(0x2001); // vectored, base 0x2000
    assert_eq!(t.mode(), TVMode::Vectored);
    assert_eq!(t.base_addr(), 0x2000);
    assert_eq!(t.get_pc(RawTrapType::Exception, 5), 0x2000);
    assert_eq!(t.get_pc(RawTrapType::Interrupt, 5), 0x2000 + 4 * 5);
    let d = Tvec::from_bits(0x2000); // direct
    assert_eq!(d.get_pc(RawTrapType::Interrupt, 5), 0x2000);
}

#[test]
fn mstatus_fields() {
    let mut st = MStatus::from_bits(0);
    st.set_mie(1);
    st.set_mpie(1);
    st.set_mpp(MachineMode::Supervisor);
    assert_eq!(st.bits, (1 << 3) | (1 << 7) | (1 << 11));
    assert_eq!(st.mie(), 1);
    assert_eq!(st.mpie(), 1);
    assert_eq!(st.mpp(), MachineMode::Supervisor);
    st.set_mie(0);
    assert_eq!(st.mie(), 0);
    assert_eq!(st.mpie(), 1);
}

// The by-name register lookup: "pc", decimal indices, and installed
// symbolic names.
#[test]
fn reg_value_by_name() {
    let mut mm = MachineModel::new(0);
    mm.pc.store(0x44);
    mm.gpr.store(5, 0x99);
    mm.csr.store(0x340, 0x77);
    assert_eq!(mm.get_reg_value("pc"), Some(0x44));
    assert_eq!(mm.get_reg_value("5"), Some(0x99));
    assert_eq!(mm.get_reg_value("32"), None);
    assert_eq!(mm.get_reg_value("t0"), None);
    let mut entries = Vec::new();
    entries.push(RegEntry { name: String::from("t0"), kind: RegType::Gpr, index: 5 });
    entries.push(RegEntry { name: String::from("mscratch"), kind: RegType::Csr, index: 0x340 });
    entries.push(RegEntry { name: String::from("ft0"), kind: RegType::Fpr, index: 0 });
    mm.set_reg_map(entries);
    assert_eq!(mm.get_reg_value("t0"), Some(0x99));
    assert_eq!(mm.get_reg_value("mscratch"), Some(0x77));
    assert_eq!(mm.get_reg_value("ft0"), None);
    assert_eq!(mm.get_reg_value(""), None);
    assert_eq!(parse_dec("114514"), Some(114514));
    assert_eq!(parse_dec("99999999999999999999999"), None);
    assert_eq!(parse_dec("12a"), None);
}

// The debugger expression evaluator over registers and memory.
#[test]
fn expr_eval() {
    let mut mm = MachineModel::new(0);
    mm.pc.store(8);
    mm.gpr.store(1, 6);
    let mut mem = Memory::new(64);
    mem.write_u64(8, 0x1122334455667788).unwrap();
    let e = Expr::Add(
        Box::new(Expr::Num(1)),
        Box::new(Expr::Mul(
            Box::new(Expr::Sub(Box::new(Expr::Num(3)), Box::new(Expr::Num(4)))),
            Box::new(Expr::Num(2)),
        )),
    );
    // 1 + (3 - 4) * 2 with wrapping 64-bit arithmetic
    assert_eq!(e.eval(&mm, &mem), Some(1u64.wrapping_add(u64::MAX.wrapping_mul(2))));
    let d = Expr::Deref(Box::new(Expr::Reg(String::from("pc"))));
    assert_eq!(d.eval(&mm, &mem), Some(0x1122334455667788));
    let cmp = Expr::Lt(Box::new(Expr::Num(1)), Box::new(Expr::Num(2)));
    assert_eq!(cmp.eval(&mm, &mem), Some(1));
    let div0 = Expr::Div(Box::new(Expr::Num(1)), Box::new(Expr::Num(0)));
    assert_eq!(div0.eval(&mm, &mem), None);
    let pow = Expr::Pow(Box::new(Expr::Num(2)), Box::new(Expr::Num(10)));
    assert_eq!(pow.eval(&mm, &mem), Some(1024));
    let bad = Expr::Reg(String::from("nosuch"));
    assert_eq!(bad.eval(&mm, &mem), None);
}
