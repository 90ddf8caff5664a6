//! A flat byte-array region: the simplest backing store of the fabric.
use vstd::prelude::*;

use crate::abstract_machine::{LengthInfo, MMIODevice, MemModel, Readable, Writeable};
use crate::mem_model::{find_region, write16, write32, write64, write8, RegionModel};

verus! {

/// A byte-addressable memory region; as a fabric of its own it is one
/// region based at address zero.
pub struct Memory {
    mem: Vec<u8>,
}

impl Memory {
    /// The bytes the region holds.
    pub closed spec fn bytes(&self) -> Seq<u8> {
        self.mem@
    }

    /// A region never outgrows the address space.
    pub proof fn lemma_len_bound(&self)
        ensures
            self.bytes().len() <= usize::MAX,
    {
        broadcast use vstd::std_specs::vec::axiom_spec_len;

        assert(vstd::std_specs::vec::spec_vec_len(&self.mem) == self.mem@.len());
    }

    /// A fresh zero-filled region of `limit` bytes.
    pub fn new(limit: usize) -> (r: Memory)
        requires
            limit >= 1,
        ensures
            r.bytes().len() == limit,
            forall|i: int| 0 <= i < limit ==> r.bytes()[i] == 0u8,
    {
        Memory { mem: vec![0u8; limit] }
    }

    /// A region initialised from a byte image.
    pub fn from(i: &[u8]) -> (r: Memory)
        ensures
            r.bytes() == i@,
    {
        let mut mem: Vec<u8> = Vec::new();
        let mut k: usize = 0;
        while k < i.len()
            invariant
                k <= i@.len(),
                mem@ == i@.subrange(0, k as int),
            decreases i@.len() - k,
        {
            mem.push(i[k]);
            proof {
                assert(mem@ =~= i@.subrange(0, k + 1));
            }
            k = k + 1;
        }
        proof {
            assert(mem@ =~= i@);
        }
        Memory { mem }
    }
}

impl MemModel for Memory {
    open spec fn regions(&self) -> Seq<RegionModel> {
        seq![RegionModel { base: 0, data: self.bytes() }]
    }
}

impl Memory {
    /// Whether an access of `width` bytes at `addr` stays in bounds, phrased
    /// over this region's model.
    pub proof fn lemma_find(&self, addr: usize, width: nat)
        requires
            width >= 1,
        ensures
            addr + width <= self.bytes().len() ==> find_region(self.regions(), addr, width)
                == Some(0int),
            addr + width > self.bytes().len() ==> find_region(self.regions(), addr, width)
                is None,
    {
        reveal_with_fuel(find_region, 3);
        assert(self.regions().drop_first() =~= Seq::<RegionModel>::empty());
    }
}

impl LengthInfo for Memory {
    open spec fn spec_length(&self) -> usize {
        self.bytes().len() as usize
    }

    fn get_length(&self) -> (r: usize) {
        self.mem.len()
    }
}

impl Readable for Memory {
    fn read_u8(&self, addr: usize) -> (r: Option<u8>) {
        proof {
            self.lemma_find(addr, 1);
        }
        if addr < self.mem.len() {
            Some(self.mem[addr])
        } else {
            None
        }
    }

    fn read_u16(&self, addr: usize) -> (r: Option<u16>) {
        proof {
            self.lemma_find(addr, 2);
        }
        let len = self.mem.len();
        if len >= 2 && addr <= len - 2 {
            let b0 = self.mem[addr];
            let b1 = self.mem[addr + 1];
            Some((b0 as u16) | ((b1 as u16) << 8))
        } else {
            None
        }
    }

    fn read_u32(&self, addr: usize) -> (r: Option<u32>) {
        proof {
            self.lemma_find(addr, 4);
        }
        let len = self.mem.len();
        if len >= 4 && addr <= len - 4 {
            let b0 = self.mem[addr];
            let b1 = self.mem[addr + 1];
            let b2 = self.mem[addr + 2];
            let b3 = self.mem[addr + 3];
            Some((b0 as u32) | ((b1 as u32) << 8) | ((b2 as u32) << 16) | ((b3 as u32) << 24))
        } else {
            None
        }
    }

    fn read_u64(&self, addr: usize) -> (r: Option<u64>) {
        proof {
            self.lemma_find(addr, 8);
        }
        let len = self.mem.len();
        if len >= 8 && addr <= len - 8 {
            let b0 = self.mem[addr];
            let b1 = self.mem[addr + 1];
            let b2 = self.mem[addr + 2];
            let b3 = self.mem[addr + 3];
            let b4 = self.mem[addr + 4];
            let b5 = self.mem[addr + 5];
            let b6 = self.mem[addr + 6];
            let b7 = self.mem[addr + 7];
            Some(
                (b0 as u64) | ((b1 as u64) << 8) | ((b2 as u64) << 16) | ((b3 as u64) << 24) | ((
                b4 as u64) << 32) | ((b5 as u64) << 40) | ((b6 as u64) << 48) | ((b7 as u64)
                    << 56),
            )
        } else {
            None
        }
    }
}

impl Writeable for Memory {
    fn write_u8(&mut self, addr: usize, value: u8) -> (r: Option<()>) {
        proof {
            self.lemma_find(addr, 1);
        }
        if addr < self.mem.len() {
            self.mem.set(addr, value);
            proof {
                assert(self.regions() =~~= write8(old(self).regions(), addr, value)->Some_0);
            }
            Some(())
        } else {
            None
        }
    }

    fn write_u16(&mut self, addr: usize, value: u16) -> (r: Option<()>) {
        proof {
            self.lemma_find(addr, 2);
        }
        let len = self.mem.len();
        if len >= 2 && addr <= len - 2 {
            self.mem.set(addr, value as u8);
            self.mem.set(addr + 1, (value >> 8) as u8);
            proof {
                assert(self.regions() =~~= write16(old(self).regions(), addr, value)->Some_0);
            }
            Some(())
        } else {
            None
        }
    }

    fn write_u32(&mut self, addr: usize, value: u32) -> (r: Option<()>) {
        proof {
            self.lemma_find(addr, 4);
        }
        let len = self.mem.len();
        if len >= 4 && addr <= len - 4 {
            self.mem.set(addr, value as u8);
            self.mem.set(addr + 1, (value >> 8) as u8);
            self.mem.set(addr + 2, (value >> 16) as u8);
            self.mem.set(addr + 3, (value >> 24) as u8);
            proof {
                assert(self.regions() =~~= write32(old(self).regions(), addr, value)->Some_0);
            }
            Some(())
        } else {
            None
        }
    }

    fn write_u64(&mut self, addr: usize, value: u64) -> (r: Option<()>) {
        proof {
            self.lemma_find(addr, 8);
        }
        let len = self.mem.len();
        if len >= 8 && addr <= len - 8 {
            self.mem.set(addr, value as u8);
            self.mem.set(addr + 1, (value >> 8) as u8);
            self.mem.set(addr + 2, (value >> 16) as u8);
            self.mem.set(addr + 3, (value >> 24) as u8);
            self.mem.set(addr + 4, (value >> 32) as u8);
            self.mem.set(addr + 5, (value >> 40) as u8);
            self.mem.set(addr + 6, (value >> 48) as u8);
            self.mem.set(addr + 7, (value >> 56) as u8);
            proof {
                assert(self.regions() =~~= write64(old(self).regions(), addr, value)->Some_0);
            }
            Some(())
        } else {
            None
        }
    }
}

impl MMIODevice for Memory {

}

} // verus!
