//! The machine model: one hart's architectural state.
use vstd::prelude::*;

use crate::abstract_machine::RegInfo;
use crate::csr_layout::MachineMode;
use crate::regfile::{BaseISA, base_misa, misa_flag, CSR, GPR, PC, RegType, CSR_SIZE, MHARTID, MISA};

verus! {

use vstd::string::StrSliceExecFns;

/// One entry of the debugger's register-name table: a name, the bank it
/// refers to, and the index within that bank.
pub struct RegEntry {
    pub name: String,
    pub kind: RegType,
    pub index: usize,
}

/// The mathematical view of a machine: register values, CSR values, the
/// program counter and the privilege mode.
#[verifier::ext_equal]
pub struct MachineView {
    pub gpr: Seq<u64>,
    pub csr: Seq<u64>,
    pub pc: u64,
    pub mode: MachineMode,
}

/// The machine-mode `misa` value this model reports: RV64I with the M and
/// C extension bits.
pub open spec fn spec_misa64() -> u64 {
    (2u64 << 62) | (1u64 << 12) | (1u64 << 2)
}

/// One hart: general-purpose registers, CSR bank, program counter,
/// privilege mode, and the debugger's register-name table.
pub struct MachineModel {
    pub gpr: GPR,
    pub csr: CSR,
    pub pc: PC,
    pub mode: MachineMode,
    pub reg_map: Vec<RegEntry>,
}

impl View for MachineModel {
    type V = MachineView;

    open spec fn view(&self) -> MachineView {
        MachineView { gpr: self.gpr.regs(), csr: self.csr.regs(), pc: self.pc.value(), mode: self.mode }
    }
}

impl MachineModel {
    /// The register banks have their architectural shapes.
    pub open spec fn wf(&self) -> bool {
        self.gpr.wf() && self.csr.wf()
    }

    /// A machine at reset: all registers zero, the program counter at
    /// address zero, machine mode, `misa` and the hart ID set, and an
    /// empty register-name table.
    pub fn new(hart_id: u64) -> (r: MachineModel)
        ensures
            r.wf(),
            forall|i: int| 0 <= i < 32 ==> r@.gpr[i] == 0,
            r@.csr == Seq::new(CSR_SIZE as nat, |i: int| 0u64).update(
                MISA as int,
                spec_misa64(),
            ).update(MHARTID as int, hart_id),
            r@.pc == 0,
            r@.mode == MachineMode::Machine,
            r.reg_map@.len() == 0,
    {
        let misa = base_misa(BaseISA::RV64I) | misa_flag(109) | misa_flag(99);
        MachineModel {
            gpr: GPR::new(),
            csr: CSR::new(misa, hart_id),
            pc: PC::new(0),
            mode: MachineMode::Machine,
            reg_map: Vec::new(),
        }
    }

    /// Install the debugger's register-name table.
    pub fn set_reg_map(&mut self, entries: Vec<RegEntry>)
        ensures
            final(self).reg_map == entries,
            final(self).gpr == old(self).gpr,
            final(self).csr == old(self).csr,
            final(self).pc == old(self).pc,
            final(self).mode == old(self).mode,
    {
        self.reg_map = entries;
    }
}

/// The numeric value of a decimal digit, or nothing for any other
/// character.
pub open spec fn digit_val(c: char) -> Option<u64> {
    if 48 <= c as u32 <= 57 {
        Some(((c as u32) - 48) as u64)
    } else {
        None
    }
}

/// The value of the first `n` characters of `s` read as a decimal
/// number; any non-digit, or a value past the 64-bit range, yields
/// nothing.
pub open spec fn parse_dec_prefix(s: Seq<char>, n: int) -> Option<u64>
    decreases n,
{
    if n <= 0 {
        Some(0u64)
    } else {
        match parse_dec_prefix(s, n - 1) {
            None => None,
            Some(acc) => match digit_val(s[n - 1]) {
                None => None,
                Some(d) => if acc * 10 + d <= u64::MAX {
                    Some((acc * 10 + d) as u64)
                } else {
                    None
                },
            },
        }
    }
}

/// A whole string read as a decimal number; the empty string yields
/// nothing.
pub open spec fn spec_parse_dec(s: Seq<char>) -> Option<u64> {
    if s.len() == 0 {
        None
    } else {
        parse_dec_prefix(s, s.len() as int)
    }
}

/// A failed prefix never recovers with more characters.
proof fn lemma_parse_dec_none(s: Seq<char>, i: int, n: int)
    requires
        i <= n,
        parse_dec_prefix(s, i) is None,
    ensures
        parse_dec_prefix(s, n) is None,
    decreases n - i,
{
    if i < n {
        lemma_parse_dec_none(s, i + 1, n);
    }
}

/// Read a register name as a decimal register index.
pub fn parse_dec(s: &str) -> (r: Option<u64>)
    ensures
        r == spec_parse_dec(s@),
{
    let n = s.unicode_len();
    if n == 0 {
        return None;
    }
    let mut acc: u64 = 0;
    let mut i: usize = 0;
    while i < n
        invariant
            i <= n,
            n == s@.len(),
            parse_dec_prefix(s@, i as int) == Some(acc),
        decreases n - i,
    {
        let c = s.get_char(i);
        let cu = c as u32;
        if cu < 48 || cu > 57 {
            proof {
                lemma_parse_dec_none(s@, i + 1, n as int);
            }
            return None;
        }
        let d = (cu - 48) as u64;
        let next = match acc.checked_mul(10) {
            Some(x) => x.checked_add(d),
            None => None,
        };
        match next {
            Some(y) => {
                acc = y;
            },
            None => {
                proof {
                    lemma_parse_dec_none(s@, i + 1, n as int);
                }
                return None;
            },
        }
        i = i + 1;
    }
    Some(acc)
}

/// The first table entry whose name matches, if any.
pub open spec fn lookup_entries(entries: Seq<RegEntry>, name: Seq<char>) -> Option<
    (RegType, usize),
>
    decreases entries.len(),
{
    if entries.len() == 0 {
        None
    } else if entries[0].name@ == name {
        Some((entries[0].kind, entries[0].index))
    } else {
        lookup_entries(entries.drop_first(), name)
    }
}

/// What `lookup_entries` returns: the first matching entry, if one
/// matches at all.
proof fn lemma_lookup_entries(entries: Seq<RegEntry>, name: Seq<char>)
    ensures
        match lookup_entries(entries, name) {
            Some(p) => exists|i: int|
                0 <= i < entries.len() && (#[trigger] entries[i]).name@ == name && p == (
                entries[i].kind,
                entries[i].index,
            ) && forall|j: int| 0 <= j < i ==> entries[j].name@ != name,
            None => forall|j: int| 0 <= j < entries.len() ==> (#[trigger] entries[j]).name@ != name,
        },
    decreases entries.len(),
{
    if entries.len() > 0 && entries[0].name@ != name {
        let sub = entries.drop_first();
        lemma_lookup_entries(sub, name);
        match lookup_entries(sub, name) {
            Some(p) => {
                let i = choose|i: int|
                    0 <= i < sub.len() && (#[trigger] sub[i]).name@ == name && p == (
                    sub[i].kind,
                    sub[i].index,
                ) && forall|j: int| 0 <= j < i ==> sub[j].name@ != name;
                assert(entries[i + 1] == sub[i]);
                assert forall|j: int| 0 <= j < i + 1 implies entries[j].name@ != name by {
                    if j > 0 {
                        assert(sub[j - 1] == entries[j]);
                    }
                }
            },
            None => {
                assert forall|j: int| 0 <= j < entries.len() implies (#[trigger] entries[j]).name@
                    != name by {
                    if j > 0 {
                        assert(sub[j - 1] == entries[j]);
                    }
                }
            },
        }
    }
}

impl MachineModel {
    /// The first matching entry of the register-name table.
    fn lookup_name(&self, name: &str) -> (r: Option<(RegType, usize)>)
        ensures
            r == lookup_entries(self.reg_map@, name@),
    {
        let n = self.reg_map.len();
        let mut i: usize = 0;
        proof {
            lemma_lookup_entries(self.reg_map@, name@);
        }
        while i < n
            invariant
                i <= n,
                n == self.reg_map@.len(),
                forall|j: int| 0 <= j < i ==> (#[trigger] self.reg_map@[j]).name@ != name@,
                match lookup_entries(self.reg_map@, name@) {
                    Some(p) => exists|k: int|
                        0 <= k < self.reg_map@.len() && (#[trigger] self.reg_map@[k]).name@
                            == name@ && p == (self.reg_map@[k].kind, self.reg_map@[k].index)
                            && forall|j: int| 0 <= j < k ==> self.reg_map@[j].name@ != name@,
                    None => forall|j: int|
                        0 <= j < self.reg_map@.len() ==> (#[trigger] self.reg_map@[j]).name@
                            != name@,
                },
            decreases n - i,
        {
            let entry = &self.reg_map[i];
            if entry.name.as_str().to_owned() == name.to_owned() {
                return Some((entry.kind, entry.index));
            }
            i = i + 1;
        }
        None
    }
}

impl RegInfo for MachineModel {
    open spec fn reg_inv(&self) -> bool {
        self.wf()
    }

    /// The debugger's by-name register lookup: `pc`, a bare decimal
    /// general-purpose register index, or a symbolic name resolved
    /// through the installed table. A table entry whose bank or index is
    /// out of range yields nothing.
    open spec fn spec_reg_value(&self, name: Seq<char>) -> Option<u64> {
        if name == "pc"@ {
            Some(self@.pc)
        } else {
            match spec_parse_dec(name) {
                Some(x) => if x < 32 {
                    Some(self@.gpr[x as int])
                } else {
                    None
                },
                None => match lookup_entries(self.reg_map@, name) {
                    Some((kind, index)) => if kind == RegType::Gpr && index < 32 {
                        Some(self@.gpr[index as int])
                    } else if kind == RegType::Csr && index < CSR_SIZE {
                        Some(self@.csr[index as int])
                    } else {
                        None
                    },
                    None => None,
                },
            }
        }
    }

    fn get_reg_value(&self, i: &str) -> (r: Option<u64>) {
        if i.to_owned() == "pc".to_owned() {
            return Some(self.pc.read());
        }
        match parse_dec(i) {
            Some(x) => {
                if x < 32 {
                    Some(self.gpr.read(x as usize))
                } else {
                    None
                }
            },
            None => match self.lookup_name(i) {
                Some((kind, index)) => {
                    match kind {
                        RegType::Gpr => if index < 32 {
                            Some(self.gpr.read(index))
                        } else {
                            None
                        },
                        RegType::Csr => if index < CSR_SIZE {
                            Some(self.csr.read(index))
                        } else {
                            None
                        },
                        RegType::Fpr => None,
                    }
                },
                None => None,
            },
        }
    }
}

} // verus!
