//! The memory fabric: one flat address space composed of independently
//! owned regions registered at fixed base addresses.
use vstd::prelude::*;

use crate::abstract_machine::{LengthInfo, MMIODevice, MemModel, Readable, Writeable};
use crate::mem_model::{
    covers, find_region, lemma_find_region, read16, read32, read64, read8, write16, write32,
    write64, write8, RegionModel,
};
use crate::memory::Memory;

verus! {

/// One registration: a region and the base address it answers at.
pub struct MappedRegion {
    pub base: usize,
    pub region: Memory,
}

/// The fabric: regions kept sorted by base address, never overlapping.
pub struct Device {
    table: Vec<MappedRegion>,
}

/// Whether two regions occupy disjoint address ranges.
pub open spec fn disjoint(a: RegionModel, b: RegionModel) -> bool {
    a.base + a.data.len() <= b.base || b.base + b.data.len() <= a.base
}

/// The index at which a region based at `base` belongs: the first slot
/// whose region starts at `base` or above.
pub open spec fn insert_pos(m: Seq<RegionModel>, base: usize) -> int
    decreases m.len(),
{
    if m.len() == 0 {
        0
    } else if m[0].base >= base {
        0
    } else {
        1 + insert_pos(m.drop_first(), base)
    }
}

/// Sorted and non-overlapping: each region is non-empty, ends at or
/// before the next one starts, and stays inside the address space.
pub open spec fn regions_wf(m: Seq<RegionModel>) -> bool {
    &&& forall|i: int|
        0 <= i && i + 1 < m.len() ==> (#[trigger] m[i]).base + m[i].data.len() <= m[i + 1].base
    &&& forall|i: int|
        0 <= i < m.len() ==> (#[trigger] m[i]).base + m[i].data.len() <= usize::MAX
    &&& forall|i: int| 0 <= i < m.len() ==> (#[trigger] m[i]).data.len() >= 1
}

/// Inserting a region between its neighbours keeps the fabric well-formed.
proof fn lemma_wf_insert(pre: Seq<RegionModel>, k: int, newr: RegionModel)
    requires
        regions_wf(pre),
        0 <= k <= pre.len(),
        k > 0 ==> pre[k - 1].base + pre[k - 1].data.len() <= newr.base,
        k < pre.len() ==> newr.base + newr.data.len() <= pre[k].base,
        newr.data.len() >= 1,
        newr.base + newr.data.len() <= usize::MAX,
    ensures
        regions_wf(pre.insert(k, newr)),
{
    pre.insert_ensures(k, newr);
    assert forall|i: int| 0 <= i && i + 1 < pre.insert(k, newr).len() implies (#[trigger] pre.insert(
        k,
        newr,
    )[i]).base + pre.insert(k, newr)[i].data.len() <= pre.insert(k, newr)[i + 1].base by {
        if i + 1 < k {
            assert(pre.insert(k, newr)[i] == pre[i]);
            assert(pre.insert(k, newr)[i + 1] == pre[i + 1]);
        } else if i + 1 == k {
            assert(pre.insert(k, newr)[i] == pre[i]);
            assert(pre.insert(k, newr)[i + 1] == newr);
        } else if i == k {
            assert(pre.insert(k, newr)[i] == newr);
            assert(pre.insert(k, newr)[i + 1] == pre[i]);
        } else {
            assert(pre.insert(k, newr)[i] == pre[i - 1]);
            assert(pre.insert(k, newr)[i + 1] == pre[i]);
        }
    }
    assert forall|i: int| 0 <= i < pre.insert(k, newr).len() implies (#[trigger] pre.insert(
        k,
        newr,
    )[i]).base + pre.insert(k, newr)[i].data.len() <= usize::MAX && pre.insert(
        k,
        newr,
    )[i].data.len() >= 1 by {
        if i < k {
            assert(pre.insert(k, newr)[i] == pre[i]);
        } else if i == k {
            assert(pre.insert(k, newr)[i] == newr);
        } else {
            assert(pre.insert(k, newr)[i] == pre[i - 1]);
        }
    }
}

/// The sum of the region lengths, saturating at the address-space size.
pub open spec fn sum_len_sat(m: Seq<RegionModel>) -> usize
    decreases m.len(),
{
    if m.len() == 0 {
        0
    } else if m[0].data.len() + sum_len_sat(m.drop_first()) > usize::MAX {
        usize::MAX
    } else {
        (m[0].data.len() + sum_len_sat(m.drop_first())) as usize
    }
}

impl Device {
    /// The fabric's regions are sorted, non-empty and non-overlapping.
    pub open spec fn inv(&self) -> bool {
        regions_wf(self.regions())
    }

    /// An empty fabric.
    pub fn new() -> (r: Device)
        ensures
            r.regions().len() == 0,
            r.inv(),
    {
        Device { table: Vec::new() }
    }

    proof fn lemma_ordered(&self, i: int, j: int)
        requires
            self.inv(),
            0 <= i < j < self.regions().len(),
        ensures
            self.regions()[i].base + self.regions()[i].data.len() <= self.regions()[j].base,
        decreases j - i,
    {
        if i + 1 < j {
            self.lemma_ordered(i + 1, j);
        }
    }

    /// Register `device` at `start_addr`. Registration succeeds only when
    /// the region is non-empty, fits the address space and overlaps no
    /// earlier one; on failure the fabric is unchanged.
    #[verifier::rlimit(60)]
    pub fn add_device(&mut self, start_addr: usize, device: Memory) -> (r: bool)
        requires
            old(self).inv(),
        ensures
            final(self).inv(),
            r == (device.bytes().len() >= 1 && start_addr + device.bytes().len() <= usize::MAX
                && forall|j: int|
                0 <= j < old(self).regions().len() ==> disjoint(
                    RegionModel { base: start_addr, data: device.bytes() },
                    #[trigger] old(self).regions()[j],
                )),
            r ==> final(self).regions() == old(self).regions().insert(
                insert_pos(old(self).regions(), start_addr),
                RegionModel { base: start_addr, data: device.bytes() },
            ),
            !r ==> final(self).regions() == old(self).regions(),
    {
        let ghost newr = RegionModel { base: start_addr, data: device.bytes() };
        proof {
            device.lemma_len_bound();
        }
        let dev_len = device.get_length();
        if dev_len == 0 {
            return false;
        }
        let end = match start_addr.checked_add(dev_len) {
            Some(e) => e,
            None => {
                return false;
            },
        };
        // find the first slot whose base is at or above the new base
        let mut k: usize = 0;
        while k < self.table.len() && self.table[k].base < start_addr
            invariant
                k <= self.table@.len(),
                forall|j: int| 0 <= j < k ==> (#[trigger] self.regions()[j]).base < start_addr,
            decreases self.table@.len() - k,
        {
            k = k + 1;
        }
        proof {
            lemma_insert_pos(self.regions(), start_addr, k as int);
        }
        // the previous region must end at or before the new base
        if k > 0 {
            let prev = &self.table[k - 1];
            proof {
                self.table@[k - 1].region.lemma_len_bound();
                assert(self.regions()[k - 1] == RegionModel {
                    base: self.table@[k - 1].base,
                    data: self.table@[k - 1].region.bytes(),
                });
            }
            let prev_len = prev.region.get_length();
            if !(prev_len <= start_addr && prev.base <= start_addr - prev_len) {
                proof {
                    assert(self.regions()[k - 1].base + self.regions()[k - 1].data.len()
                        > start_addr);
                    assert(start_addr + newr.data.len() > self.regions()[k - 1].base);
                    assert(!disjoint(newr, self.regions()[k - 1]));
                }
                return false;
            }
            proof {
                assert(self.regions()[k - 1].base + self.regions()[k - 1].data.len()
                    <= start_addr);
            }
        }
        // the new region must end at or before the next one starts
        if k < self.table.len() {
            proof {
                assert(self.regions()[k as int] == RegionModel {
                    base: self.table@[k as int].base,
                    data: self.table@[k as int].region.bytes(),
                });
            }
            if !(end <= self.table[k].base) {
                proof {
                    assert(self.regions()[k as int].base < start_addr + device.bytes().len());
                    assert(self.regions()[k as int].base >= start_addr);
                    assert(self.regions()[k as int].base + self.regions()[k as int].data.len()
                        > start_addr);
                    assert(!disjoint(newr, self.regions()[k as int]));
                }
                return false;
            }
        }
        proof {
            let m = self.regions();
            assert forall|j: int| 0 <= j < m.len() implies disjoint(newr, #[trigger] m[j]) by {
                if j < k - 1 {
                    self.lemma_ordered(j, k - 1);
                    assert(m[j].base + m[j].data.len() <= m[k - 1].base);
                } else if j > k {
                    self.lemma_ordered(k as int, j);
                    assert(m[k as int].base + m[k as int].data.len() <= m[j].base);
                }
            }
        }
        let ghost pre = self.regions();
        proof {
            assert(k > 0 ==> pre[k - 1].base + pre[k - 1].data.len() <= start_addr);
            assert(k < pre.len() ==> start_addr + newr.data.len() <= pre[k as int].base);
            lemma_wf_insert(pre, k as int, newr);
        }
        self.table.insert(k, MappedRegion { base: start_addr, region: device });
        proof {
            pre.insert_ensures(k as int, newr);
            old(self).table@.insert_ensures(
                k as int,
                MappedRegion { base: start_addr, region: device },
            );
            assert forall|j: int| 0 <= j < self.regions().len() implies self.regions()[j]
                == pre.insert(k as int, newr)[j] by {
                assert(self.regions()[j] == RegionModel {
                    base: self.table@[j].base,
                    data: self.table@[j].region.bytes(),
                });
                if j < k {
                    assert(self.table@[j] == old(self).table@[j]);
                } else if j > k {
                    assert(self.table@[j] == old(self).table@[j - 1]);
                }
            }
            assert(self.regions() =~~= pre.insert(k as int, newr));
        }
        true
    }

    /// The slot holding the access, by scanning in base order.
    fn find_idx(&self, addr: usize, width: usize) -> (r: Option<usize>)
        requires
            1 <= width,
        ensures
            match r {
                Some(i) => i < self.table@.len() && find_region(
                    self.regions(),
                    addr,
                    width as nat,
                ) == Some(i as int),
                None => find_region(self.regions(), addr, width as nat) is None,
            },
    {
        let mut k: usize = 0;
        while k < self.table.len()
            invariant
                k <= self.table@.len(),
                1 <= width,
                forall|j: int| 0 <= j < k ==> !covers(self.regions()[j], addr, width as nat),
            decreases self.table@.len() - k,
        {
            let base = self.table[k].base;
            proof {
                self.table@[k as int].region.lemma_len_bound();
            }
            let len = self.table[k].region.get_length();
            if base <= addr && len >= width && addr - base <= len - width {
                proof {
                    assert(self.regions()[k as int] == RegionModel {
                        base: self.table@[k as int].base,
                        data: self.table@[k as int].region.bytes(),
                    });
                    assert(covers(self.regions()[k as int], addr, width as nat));
                    lemma_find_region(self.regions(), addr, width as nat);
                    match find_region(self.regions(), addr, width as nat) {
                        Some(i) => {
                            if i < k {
                                assert(covers(self.regions()[i], addr, width as nat));
                            } else if i > k {
                                assert(!covers(self.regions()[k as int], addr, width as nat));
                            }
                        },
                        None => {
                            assert(!covers(self.regions()[k as int], addr, width as nat));
                        },
                    }
                }
                return Some(k);
            }
            proof {
                assert(self.regions()[k as int] == RegionModel {
                    base: self.table@[k as int].base,
                    data: self.table@[k as int].region.bytes(),
                });
                assert(!covers(self.regions()[k as int], addr, width as nat));
            }
            k = k + 1;
        }
        proof {
            lemma_find_region(self.regions(), addr, width as nat);
        }
        None
    }
}

/// `insert_pos` is the boundary between the bases below `base` and the rest.
proof fn lemma_insert_pos(m: Seq<RegionModel>, base: usize, k: int)
    requires
        0 <= k <= m.len(),
        forall|j: int| 0 <= j < k ==> (#[trigger] m[j]).base < base,
        k < m.len() ==> m[k].base >= base,
    ensures
        insert_pos(m, base) == k,
    decreases m.len(),
{
    if m.len() > 0 && k > 0 {
        let sub = m.drop_first();
        assert forall|j: int| 0 <= j < k - 1 implies (#[trigger] sub[j]).base < base by {
            assert(sub[j] == m[j + 1]);
        }
        if k - 1 < sub.len() {
            assert(sub[k - 1] == m[k]);
        }
        lemma_insert_pos(sub, base, k - 1);
    }
}

impl MemModel for Device {
    closed spec fn regions(&self) -> Seq<RegionModel> {
        self.table@.map_values(|mr: MappedRegion| RegionModel { base: mr.base, data: mr.region.bytes() })
    }
}

impl LengthInfo for Device {
    open spec fn spec_length(&self) -> usize {
        sum_len_sat(self.regions())
    }

    fn get_length(&self) -> (r: usize) {
        let mut acc: usize = 0;
        let mut k: usize = self.table.len();
        proof {
            assert(self.regions().subrange(k as int, self.regions().len() as int)
                =~= Seq::<RegionModel>::empty());
        }
        while k > 0
            invariant
                k <= self.table@.len(),
                acc == sum_len_sat(
                    self.regions().subrange(k as int, self.regions().len() as int),
                ),
            decreases k,
        {
            k = k - 1;
            proof {
                self.table@[k as int].region.lemma_len_bound();
            }
            let len = self.table[k].region.get_length();
            let ghost pre = self.regions().subrange(k + 1, self.regions().len() as int);
            acc = len.saturating_add(acc);
            proof {
                let cur = self.regions().subrange(k as int, self.regions().len() as int);
                assert(cur.drop_first() =~= pre);
                assert(cur[0] == self.regions()[k as int]);
                assert(self.regions()[k as int] == RegionModel {
                    base: self.table@[k as int].base,
                    data: self.table@[k as int].region.bytes(),
                });
                assert(len == cur[0].data.len());
            }
        }
        proof {
            assert(self.regions().subrange(0, self.regions().len() as int) =~= self.regions());
        }
        acc
    }
}

impl Readable for Device {
    fn read_u8(&self, addr: usize) -> (r: Option<u8>) {
        match self.find_idx(addr, 1) {
            Some(i) => {
                proof {
                    lemma_find_region(self.regions(), addr, 1);
                    assert(self.regions()[i as int] == RegionModel {
                        base: self.table@[i as int].base,
                        data: self.table@[i as int].region.bytes(),
                    });
                    assert(covers(self.regions()[i as int], addr, 1));
                }
                let base = self.table[i].base;
                let v = self.table[i].region.read_u8(addr - base);
                proof {
                    self.table[i as int].region.lemma_find((addr - base) as usize, 1);
                }
                v
            },
            None => None,
        }
    }

    fn read_u16(&self, addr: usize) -> (r: Option<u16>) {
        match self.find_idx(addr, 2) {
            Some(i) => {
                proof {
                    lemma_find_region(self.regions(), addr, 2);
                    assert(self.regions()[i as int] == RegionModel {
                        base: self.table@[i as int].base,
                        data: self.table@[i as int].region.bytes(),
                    });
                    assert(covers(self.regions()[i as int], addr, 2));
                }
                let base = self.table[i].base;
                let v = self.table[i].region.read_u16(addr - base);
                proof {
                    self.table[i as int].region.lemma_find((addr - base) as usize, 2);
                }
                v
            },
            None => None,
        }
    }

    fn read_u32(&self, addr: usize) -> (r: Option<u32>) {
        match self.find_idx(addr, 4) {
            Some(i) => {
                proof {
                    lemma_find_region(self.regions(), addr, 4);
                    assert(self.regions()[i as int] == RegionModel {
                        base: self.table@[i as int].base,
                        data: self.table@[i as int].region.bytes(),
                    });
                    assert(covers(self.regions()[i as int], addr, 4));
                }
                let base = self.table[i].base;
                let v = self.table[i].region.read_u32(addr - base);
                proof {
                    self.table[i as int].region.lemma_find((addr - base) as usize, 4);
                }
                v
            },
            None => None,
        }
    }

    fn read_u64(&self, addr: usize) -> (r: Option<u64>) {
        match self.find_idx(addr, 8) {
            Some(i) => {
                proof {
                    lemma_find_region(self.regions(), addr, 8);
                    assert(self.regions()[i as int] == RegionModel {
                        base: self.table@[i as int].base,
                        data: self.table@[i as int].region.bytes(),
                    });
                    assert(covers(self.regions()[i as int], addr, 8));
                }
                let base = self.table[i].base;
                let v = self.table[i].region.read_u64(addr - base);
                proof {
                    self.table[i as int].region.lemma_find((addr - base) as usize, 8);
                }
                v
            },
            None => None,
        }
    }
}

impl Writeable for Device {
    fn write_u8(&mut self, addr: usize, value: u8) -> (r: Option<()>) {
        match self.find_idx(addr, 1) {
            Some(i) => {
                proof {
                    lemma_find_region(self.regions(), addr, 1);
                    assert(self.regions()[i as int] == RegionModel {
                        base: self.table@[i as int].base,
                        data: self.table@[i as int].region.bytes(),
                    });
                    assert(covers(self.regions()[i as int], addr, 1));
                }
                let base = self.table[i].base;
                proof {
                    self.table@[i as int].region.lemma_len_bound();
                    self.table[i as int].region.lemma_find((addr - base) as usize, 1);
                }
                let ghost mem0 = self.table@[i as int].region;
                let ghost o = addr - base;
                let slot = &mut self.table[i];
                let v = slot.region.write_u8(addr - base, value);
                proof {
                    let memn = self.table@[i as int].region;
                    assert(memn.regions()[0].data == memn.bytes());
                    assert(memn.bytes() == mem0.bytes().update(o, value));
                    assert(self.table@[i as int].base == base);
                    assert forall|j: int| 0 <= j < self.regions().len() implies self.regions()[j]
                        == (write8(old(self).regions(), addr, value)->Some_0)[j] by {
                        assert(self.regions()[j] == RegionModel {
                            base: self.table@[j].base,
                            data: self.table@[j].region.bytes(),
                        });
                        if j != i {
                            assert(self.table@[j] == old(self).table@[j]);
                        }
                    }
                    assert(self.regions() =~~= write8(old(self).regions(), addr, value)->Some_0);
                }
                v
            },
            None => None,
        }
    }

    fn write_u16(&mut self, addr: usize, value: u16) -> (r: Option<()>) {
        match self.find_idx(addr, 2) {
            Some(i) => {
                proof {
                    lemma_find_region(self.regions(), addr, 2);
                    assert(self.regions()[i as int] == RegionModel {
                        base: self.table@[i as int].base,
                        data: self.table@[i as int].region.bytes(),
                    });
                    assert(covers(self.regions()[i as int], addr, 2));
                }
                let base = self.table[i].base;
                proof {
                    self.table@[i as int].region.lemma_len_bound();
                    self.table[i as int].region.lemma_find((addr - base) as usize, 2);
                }
                let ghost mem0 = self.table@[i as int].region;
                let ghost o = addr - base;
                let slot = &mut self.table[i];
                let v = slot.region.write_u16(addr - base, value);
                proof {
                    let memn = self.table@[i as int].region;
                    assert(memn.regions()[0].data == memn.bytes());
                    assert(memn.bytes() == mem0.bytes().update(o, value as u8).update(o + 1, (value >> 8) as u8));
                    assert(self.table@[i as int].base == base);
                    assert forall|j: int| 0 <= j < self.regions().len() implies self.regions()[j]
                        == (write16(old(self).regions(), addr, value)->Some_0)[j] by {
                        assert(self.regions()[j] == RegionModel {
                            base: self.table@[j].base,
                            data: self.table@[j].region.bytes(),
                        });
                        if j != i {
                            assert(self.table@[j] == old(self).table@[j]);
                        }
                    }
                    assert(self.regions() =~~= write16(old(self).regions(), addr, value)->Some_0);
                }
                v
            },
            None => None,
        }
    }

    fn write_u32(&mut self, addr: usize, value: u32) -> (r: Option<()>) {
        match self.find_idx(addr, 4) {
            Some(i) => {
                proof {
                    lemma_find_region(self.regions(), addr, 4);
                    assert(self.regions()[i as int] == RegionModel {
                        base: self.table@[i as int].base,
                        data: self.table@[i as int].region.bytes(),
                    });
                    assert(covers(self.regions()[i as int], addr, 4));
                }
                let base = self.table[i].base;
                proof {
                    self.table@[i as int].region.lemma_len_bound();
                    self.table[i as int].region.lemma_find((addr - base) as usize, 4);
                }
                let ghost mem0 = self.table@[i as int].region;
                let ghost o = addr - base;
                let slot = &mut self.table[i];
                let v = slot.region.write_u32(addr - base, value);
                proof {
                    let memn = self.table@[i as int].region;
                    assert(memn.regions()[0].data == memn.bytes());
                    assert(memn.bytes() == mem0.bytes().update(o, value as u8).update(o + 1, (value >> 8) as u8).update(o + 2, (value >> 16) as u8).update(o + 3, (value >> 24) as u8));
                    assert(self.table@[i as int].base == base);
                    assert forall|j: int| 0 <= j < self.regions().len() implies self.regions()[j]
                        == (write32(old(self).regions(), addr, value)->Some_0)[j] by {
                        assert(self.regions()[j] == RegionModel {
                            base: self.table@[j].base,
                            data: self.table@[j].region.bytes(),
                        });
                        if j != i {
                            assert(self.table@[j] == old(self).table@[j]);
                        }
                    }
                    assert(self.regions() =~~= write32(old(self).regions(), addr, value)->Some_0);
                }
                v
            },
            None => None,
        }
    }

    fn write_u64(&mut self, addr: usize, value: u64) -> (r: Option<()>) {
        match self.find_idx(addr, 8) {
            Some(i) => {
                proof {
                    lemma_find_region(self.regions(), addr, 8);
                    assert(self.regions()[i as int] == RegionModel {
                        base: self.table@[i as int].base,
                        data: self.table@[i as int].region.bytes(),
                    });
                    assert(covers(self.regions()[i as int], addr, 8));
                }
                let base = self.table[i].base;
                proof {
                    self.table@[i as int].region.lemma_len_bound();
                    self.table[i as int].region.lemma_find((addr - base) as usize, 8);
                }
                let ghost mem0 = self.table@[i as int].region;
                let ghost o = addr - base;
                let slot = &mut self.table[i];
                let v = slot.region.write_u64(addr - base, value);
                proof {
                    let memn = self.table@[i as int].region;
                    assert(memn.regions()[0].data == memn.bytes());
                    assert(memn.bytes() == mem0.bytes().update(o, value as u8).update(o + 1, (value >> 8) as u8).update(o + 2, (value >> 16) as u8).update(o + 3, (value >> 24) as u8).update(o + 4, (value >> 32) as u8).update(o + 5, (value >> 40) as u8).update(o + 6, (value >> 48) as u8).update(o + 7, (value >> 56) as u8));
                    assert(self.table@[i as int].base == base);
                    assert forall|j: int| 0 <= j < self.regions().len() implies self.regions()[j]
                        == (write64(old(self).regions(), addr, value)->Some_0)[j] by {
                        assert(self.regions()[j] == RegionModel {
                            base: self.table@[j].base,
                            data: self.table@[j].region.bytes(),
                        });
                        if j != i {
                            assert(self.table@[j] == old(self).table@[j]);
                        }
                    }
                    assert(self.regions() =~~= write64(old(self).regions(), addr, value)->Some_0);
                }
                v
            },
            None => None,
        }
    }
}

impl MMIODevice for Device {

}

} // verus!
