//! The mathematical model of the memory fabric.
//!
//! A fabric is a sequence of regions, each owning a run of bytes at a fixed
//! base address. An access of a given width succeeds exactly when it lies
//! entirely inside one region; multi-byte values are little-endian.
use vstd::prelude::*;

verus! {

/// One registered region: a base address and the bytes it owns.
pub struct RegionModel {
    pub base: usize,
    pub data: Seq<u8>,
}

/// Whether an access of `width` bytes at `addr` lies entirely inside `r`.
pub open spec fn covers(r: RegionModel, addr: usize, width: nat) -> bool {
    r.base <= addr && addr + width <= r.base + r.data.len()
}

/// The index of the first region that wholly contains the access.
pub open spec fn find_region(m: Seq<RegionModel>, addr: usize, width: nat) -> Option<int>
    decreases m.len(),
{
    if m.len() == 0 {
        None
    } else if covers(m[0], addr, width) {
        Some(0int)
    } else {
        match find_region(m.drop_first(), addr, width) {
            Some(i) => Some(i + 1),
            None => None,
        }
    }
}

/// What `find_region` returns: the first covering region, if any covers.
pub proof fn lemma_find_region(m: Seq<RegionModel>, addr: usize, width: nat)
    ensures
        match find_region(m, addr, width) {
            Some(i) => 0 <= i < m.len() && covers(m[i], addr, width) && forall|j: int|
                0 <= j < i ==> !covers(m[j], addr, width),
            None => forall|j: int| 0 <= j < m.len() ==> !covers(m[j], addr, width),
        },
    decreases m.len(),
{
    if m.len() > 0 && !covers(m[0], addr, width) {
        let sub = m.drop_first();
        lemma_find_region(sub, addr, width);
        match find_region(sub, addr, width) {
            Some(i) => {
                assert(m[i + 1] == sub[i]);
                assert forall|j: int| 0 <= j < i + 1 implies !covers(
                    m[j],
                    addr,
                    width,
                ) by {
                    if j > 0 {
                        assert(sub[j - 1] == m[j]);
                    }
                }
            },
            None => {
                assert forall|j: int| 0 <= j < m.len() implies !covers(
                    m[j],
                    addr,
                    width,
                ) by {
                    if j > 0 {
                        assert(sub[j - 1] == m[j]);
                    }
                }
            },
        }
    }
}

/// The byte a region holds at absolute address `addr`.
pub open spec fn byte_at(m: Seq<RegionModel>, i: int, addr: int) -> u8 {
    m[i].data[addr - m[i].base]
}

/// A one-byte read.
pub open spec fn read8(m: Seq<RegionModel>, addr: usize) -> Option<u8> {
    match find_region(m, addr, 1) {
        Some(i) => Some(byte_at(m, i, addr as int)),
        None => None,
    }
}

/// A little-endian two-byte read; fails if the access is not inside one region.
pub open spec fn read16(m: Seq<RegionModel>, addr: usize) -> Option<u16> {
    match find_region(m, addr, 2) {
        Some(i) => Some(
            (byte_at(m, i, addr as int) as u16) | ((byte_at(m, i, addr + 1) as u16) << 8),
        ),
        None => None,
    }
}

/// A little-endian four-byte read.
pub open spec fn read32(m: Seq<RegionModel>, addr: usize) -> Option<u32> {
    match find_region(m, addr, 4) {
        Some(i) => Some(
            (byte_at(m, i, addr as int) as u32) | ((byte_at(m, i, addr + 1) as u32) << 8) | ((
            byte_at(m, i, addr + 2) as u32) << 16) | ((byte_at(m, i, addr + 3) as u32) << 24),
        ),
        None => None,
    }
}

/// A little-endian eight-byte read.
pub open spec fn read64(m: Seq<RegionModel>, addr: usize) -> Option<u64> {
    match find_region(m, addr, 8) {
        Some(i) => Some(
            (byte_at(m, i, addr as int) as u64) | ((byte_at(m, i, addr + 1) as u64) << 8) | ((
            byte_at(m, i, addr + 2) as u64) << 16) | ((byte_at(m, i, addr + 3) as u64) << 24) | ((
            byte_at(m, i, addr + 4) as u64) << 32) | ((byte_at(m, i, addr + 5) as u64) << 40) | ((
            byte_at(m, i, addr + 6) as u64) << 48) | ((byte_at(m, i, addr + 7) as u64) << 56),
        ),
        None => None,
    }
}

/// The fabric after storing one byte into region `i`.
pub open spec fn stored(m: Seq<RegionModel>, i: int, addr: int, v: u8) -> Seq<RegionModel> {
    m.update(
        i,
        RegionModel { base: m[i].base, data: m[i].data.update(addr - m[i].base, v) },
    )
}

/// A one-byte write: the fabric after it, or `None` if no region covers it.
pub open spec fn write8(m: Seq<RegionModel>, addr: usize, v: u8) -> Option<Seq<RegionModel>> {
    match find_region(m, addr, 1) {
        Some(i) => Some(stored(m, i, addr as int, v)),
        None => None,
    }
}

/// A little-endian two-byte write.
pub open spec fn write16(m: Seq<RegionModel>, addr: usize, v: u16) -> Option<Seq<RegionModel>> {
    match find_region(m, addr, 2) {
        Some(i) => Some(
            stored(stored(m, i, addr as int, v as u8), i, addr + 1, (v >> 8) as u8),
        ),
        None => None,
    }
}

/// A little-endian four-byte write.
pub open spec fn write32(m: Seq<RegionModel>, addr: usize, v: u32) -> Option<Seq<RegionModel>> {
    match find_region(m, addr, 4) {
        Some(i) => Some(
            stored(
                stored(
                    stored(stored(m, i, addr as int, v as u8), i, addr + 1, (v >> 8) as u8),
                    i,
                    addr + 2,
                    (v >> 16) as u8,
                ),
                i,
                addr + 3,
                (v >> 24) as u8,
            ),
        ),
        None => None,
    }
}

/// A little-endian eight-byte write.
pub open spec fn write64(m: Seq<RegionModel>, addr: usize, v: u64) -> Option<Seq<RegionModel>> {
    match find_region(m, addr, 8) {
        Some(i) => Some(
            stored(
                stored(
                    stored(
                        stored(
                            stored(
                                stored(
                                    stored(
                                        stored(m, i, addr as int, v as u8),
                                        i,
                                        addr + 1,
                                        (v >> 8) as u8,
                                    ),
                                    i,
                                    addr + 2,
                                    (v >> 16) as u8,
                                ),
                                i,
                                addr + 3,
                                (v >> 24) as u8,
                            ),
                            i,
                            addr + 4,
                            (v >> 32) as u8,
                        ),
                        i,
                        addr + 5,
                        (v >> 40) as u8,
                    ),
                    i,
                    addr + 6,
                    (v >> 48) as u8,
                ),
                i,
                addr + 7,
                (v >> 56) as u8,
            ),
        ),
        None => None,
    }
}

} // verus!
