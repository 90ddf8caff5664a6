//! Virtual-to-physical address translation: the bare identity map and the
//! multi-level page-table walk, one parameterized routine covering the
//! three-, four- and five-level schemes.
use vstd::prelude::*;

use crate::abstract_machine::{MMIODevice, MemModel, Readable};
use crate::csr_layout::{satp_mode, satp_ppn, Satp, SatpMode};
use crate::mem_model::{read64, RegionModel};

verus! {

use vstd::wrapping::u64_specs;

/// The 9-bit virtual page number field for a level (level 0 is the least
/// significant, starting above the 12-bit page offset).
pub open spec fn spec_vpn(vaddr: u64, level: u32) -> u64
    recommends
        level <= 4,
{
    (vaddr >> ((12 + 9 * level) as u64)) & 0x1ff
}

/// The valid bit of a page-table entry.
pub open spec fn pte_v(pte: u64) -> bool {
    pte & 1 != 0
}

/// The readable bit of a page-table entry.
pub open spec fn pte_r(pte: u64) -> bool {
    pte & 2 != 0
}

/// The writable bit of a page-table entry.
pub open spec fn pte_w(pte: u64) -> bool {
    pte & 4 != 0
}

/// The executable bit of a page-table entry.
pub open spec fn pte_x(pte: u64) -> bool {
    pte & 8 != 0
}

/// The physical page number field of a page-table entry (bits 53..10).
pub open spec fn pte_ppn(pte: u64) -> u64 {
    (pte >> 10) & 0xfff_ffff_ffff
}

/// The address of the page-table entry consulted at a level: the table
/// base (its page number shifted up) plus eight bytes per index.
pub open spec fn spec_pte_addr(table_ppn: u64, vaddr: u64, level: u32) -> u64 {
    u64_specs::wrapping_add(
        table_ppn << 12,
        u64_specs::wrapping_mul(spec_vpn(vaddr, level), 8),
    )
}

/// The physical address a leaf entry translates to: the leaf's physical
/// page number over the untouched 12-bit page offset.
pub open spec fn leaf_paddr(pte: u64, vaddr: u64) -> u64 {
    (pte_ppn(pte) << 12) | (vaddr & 0xfff)
}

/// A multi-level walk with `levels` levels left. Each level reads one
/// eight-byte entry through the fabric; an unreadable or invalid entry
/// fails the walk, an entry with any of R/W/X set is a leaf, and any
/// other valid entry points at the next table. A pointer entry at the
/// last level fails.
pub open spec fn walk_spec(
    mem: Seq<RegionModel>,
    table_ppn: u64,
    vaddr: u64,
    levels: nat,
) -> Option<(u64, bool, bool, bool)>
    recommends
        1 <= levels <= 5,
    decreases levels,
{
    if levels == 0 {
        None
    } else {
        let pa = spec_pte_addr(table_ppn, vaddr, (levels - 1) as u32);
        match read64(mem, pa as usize) {
            None => None,
            Some(pte) => if !pte_v(pte) {
                None
            } else if pte_r(pte) || pte_w(pte) || pte_x(pte) {
                Some((leaf_paddr(pte, vaddr), pte_r(pte), pte_w(pte), pte_x(pte)))
            } else {
                walk_spec(mem, pte_ppn(pte), vaddr, (levels - 1) as nat)
            },
        }
    }
}

/// Full translation: bare mode is the identity with full permissions;
/// the paged schemes walk three, four or five levels from the root held
/// in `satp`; the remaining encodings translate nothing.
pub open spec fn mmu_spec(mem: Seq<RegionModel>, satp: u64, vaddr: u64) -> Option<
    (u64, bool, bool, bool),
> {
    match satp_mode(satp) {
        Some(SatpMode::Bare) => Some((vaddr, true, true, true)),
        Some(SatpMode::Sv39) => walk_spec(mem, satp_ppn(satp), vaddr, 3),
        Some(SatpMode::Sv48) => walk_spec(mem, satp_ppn(satp), vaddr, 4),
        Some(SatpMode::Sv57) => walk_spec(mem, satp_ppn(satp), vaddr, 5),
        _ => None,
    }
}

/// A view of a virtual address under the three-level scheme.
pub struct Sv39VAddr {
    pub bits: u64,
}

impl Sv39VAddr {
    pub fn from_bits(bits: u64) -> (r: Sv39VAddr)
        ensures
            r.bits == bits,
    {
        Sv39VAddr { bits }
    }

    pub fn vpn2(&self) -> (r: u64)
        ensures
            r == spec_vpn(self.bits, 2),
    {
        (self.bits >> 30u64) & 0x1ff
    }

    pub fn vpn1(&self) -> (r: u64)
        ensures
            r == spec_vpn(self.bits, 1),
    {
        (self.bits >> 21u64) & 0x1ff
    }

    pub fn vpn0(&self) -> (r: u64)
        ensures
            r == spec_vpn(self.bits, 0),
    {
        (self.bits >> 12u64) & 0x1ff
    }

    pub fn offset(&self) -> (r: u64)
        ensures
            r == self.bits & 0xfff,
    {
        self.bits & 0xfff
    }
}

/// A view of one page-table entry of the 64-bit schemes.
pub struct Sv39PageTableEntry {
    pub bits: u64,
}

impl Sv39PageTableEntry {
    pub fn from_bits(bits: u64) -> (r: Sv39PageTableEntry)
        ensures
            r.bits == bits,
    {
        Sv39PageTableEntry { bits }
    }

    pub fn v(&self) -> (r: bool)
        ensures
            r == pte_v(self.bits),
    {
        self.bits & 1 != 0
    }

    pub fn r(&self) -> (r: bool)
        ensures
            r == pte_r(self.bits),
    {
        self.bits & 2 != 0
    }

    pub fn w(&self) -> (r: bool)
        ensures
            r == pte_w(self.bits),
    {
        self.bits & 4 != 0
    }

    pub fn x(&self) -> (r: bool)
        ensures
            r == pte_x(self.bits),
    {
        self.bits & 8 != 0
    }

    pub fn ppn(&self) -> (r: u64)
        ensures
            r == pte_ppn(self.bits),
    {
        (self.bits >> 10) & 0xfff_ffff_ffff
    }
}

/// The 9-bit virtual page number field for a level.
fn vpn_field(vaddr: u64, level: u32) -> (r: u64)
    requires
        level <= 4,
    ensures
        r == spec_vpn(vaddr, level),
{
    (vaddr >> ((12 + 9 * level) as u64)) & 0x1ff
}

/// The parameterized page-table walk, per [`walk_spec`].
fn walk<M: MMIODevice>(device: &M, root_ppn: u64, vaddr: u64, levels: u32) -> (r: Option<
    (u64, bool, bool, bool),
>)
    requires
        1 <= levels <= 5,
    ensures
        r == walk_spec(device.regions(), root_ppn, vaddr, levels as nat),
{
    let mut ppn = root_ppn;
    let mut l = levels;
    while l >= 1
        invariant
            l <= 5,
            walk_spec(device.regions(), root_ppn, vaddr, levels as nat) == walk_spec(
                device.regions(),
                ppn,
                vaddr,
                l as nat,
            ),
        decreases l,
    {
        let pa = (ppn << 12u64).wrapping_add(vpn_field(vaddr, l - 1).wrapping_mul(8));
        let pte = match device.read_u64(pa as usize) {
            Some(p) => p,
            None => {
                return None;
            },
        };
        if pte & 1 == 0 {
            return None;
        }
        let leaf_r = pte & 2 != 0;
        let leaf_w = pte & 4 != 0;
        let leaf_x = pte & 8 != 0;
        if leaf_r || leaf_w || leaf_x {
            let paddr = (((pte >> 10) & 0xfff_ffff_ffff) << 12u64) | (vaddr & 0xfff);
            return Some((paddr, leaf_r, leaf_w, leaf_x));
        }
        ppn = (pte >> 10) & 0xfff_ffff_ffff;
        l = l - 1;
    }
    None
}

/// Translate a virtual address under the translation-control register:
/// the physical address and the leaf's read/write/execute permissions,
/// or nothing when translation fails, per [`mmu_spec`].
pub fn mmu_map<M: MMIODevice>(satp: Satp, device: &M, vaddr: u64) -> (r: Option<
    (u64, bool, bool, bool),
>)
    ensures
        r == mmu_spec(device.regions(), satp.bits, vaddr),
{
    match satp.mode() {
        Some(SatpMode::Bare) => Some((vaddr, true, true, true)),
        Some(SatpMode::Sv39) => walk(device, satp.ppn(), vaddr, 3),
        Some(SatpMode::Sv48) => walk(device, satp.ppn(), vaddr, 4),
        Some(SatpMode::Sv57) => walk(device, satp.ppn(), vaddr, 5),
        Some(SatpMode::Sv64) => None,
        None => None,
    }
}

} // verus!
