//! The memory bus: a flat, byte-addressable 64K space with no holes.
//!
//! Every address is a `u16`, so it is in range by construction and no
//! out-of-range error condition exists.

use vstd::prelude::*;

verus! {

/// Number of addressable bytes on the bus.
pub const MEM_SIZE: usize = 0x10000;

/// The 16-bit little-endian word stored at `addr`, the address of the high
/// byte wrapping at the top of memory.
pub open spec fn word_at(mem: Seq<u8>, addr: u16) -> u16 {
    (mem[addr as int] + mem[addr.wrapping_add(1) as int] * 0x100) as u16
}

/// The 16-bit little-endian word stored in the zero page at `ptr`, the
/// address of the high byte wrapping within the zero page.
pub open spec fn zp_word_at(mem: Seq<u8>, ptr: u8) -> u16 {
    (mem[ptr as int] + mem[ptr.wrapping_add(1) as int] * 0x100) as u16
}

/// Memory after the bytes of `data` have been copied in one after the
/// other, the first at `base`, each following one at the next address,
/// wrapping at the top of memory.
pub open spec fn loaded_mem(mem: Seq<u8>, data: Seq<u8>, base: u16) -> Seq<u8>
    decreases data.len(),
{
    if data.len() == 0 {
        mem
    } else {
        loaded_mem(mem, data.drop_last(), base).update(
            base.wrapping_add((data.len() - 1) as u16) as int,
            data.last(),
        )
    }
}

pub proof fn lemma_loaded_mem_len(mem: Seq<u8>, data: Seq<u8>, base: u16)
    requires
        mem.len() == MEM_SIZE,
    ensures
        loaded_mem(mem, data, base).len() == MEM_SIZE,
    decreases data.len(),
{
    if data.len() != 0 {
        lemma_loaded_mem_len(mem, data.drop_last(), base);
    }
}

/// What loading leaves at one address: the byte of `data` whose offset from
/// `base` (modulo the memory size) reaches that address, or the old byte
/// where no offset does.
pub proof fn lemma_loaded_mem_at(mem: Seq<u8>, data: Seq<u8>, base: u16, a: int)
    requires
        mem.len() == MEM_SIZE,
        data.len() <= MEM_SIZE,
        0 <= a < MEM_SIZE,
    ensures
        loaded_mem(mem, data, base)[a] == if (a - base as int) % 0x10000 < data.len() {
            data[(a - base as int) % 0x10000]
        } else {
            mem[a]
        },
    decreases data.len(),
{
    vstd::arithmetic::div_mod::lemma_mod_bound(a - base as int, 0x10000);
    let off = (a - base as int) % 0x10000;
    assert(base.wrapping_add(off as u16) as int == a) by {
        vstd::arithmetic::div_mod::lemma_add_mod_noop_right(base as int, a - base as int, 0x10000);
        vstd::arithmetic::div_mod::lemma_small_mod(a as nat, 0x10000);
    }
    if data.len() > 0 {
        lemma_loaded_mem_at(mem, data.drop_last(), base, a);
        lemma_loaded_mem_len(mem, data.drop_last(), base);
        let i = data.len() - 1;
        let w = base.wrapping_add(i as u16) as int;
        assert((w - base as int) % 0x10000 == i) by {
            vstd::arithmetic::div_mod::lemma_sub_mod_noop(base as int + i, base as int, 0x10000);
            vstd::arithmetic::div_mod::lemma_small_mod(i as nat, 0x10000);
        }
    }
}

pub struct Bus {
    mem: Vec<u8>,
}

impl View for Bus {
    type V = Seq<u8>;

    closed spec fn view(&self) -> Seq<u8> {
        self.mem@
    }
}

impl Bus {
    pub open spec fn wf(self) -> bool {
        self@.len() == MEM_SIZE
    }

    /// A bus with every byte zero.
    pub fn new() -> (r: Bus)
        ensures
            r.wf(),
            forall|a: int| 0 <= a < MEM_SIZE ==> r@[a] == 0u8,
    {
        let mut mem: Vec<u8> = Vec::new();
        let mut i: usize = 0;
        while i < MEM_SIZE
            invariant
                i == mem@.len(),
                i <= MEM_SIZE,
                forall|a: int| 0 <= a < i ==> mem@[a] == 0u8,
            decreases MEM_SIZE - i,
        {
            mem.push(0);
            i = i + 1;
        }
        Bus { mem }
    }

    pub fn read(&self, addr: u16) -> (r: u8)
        requires
            self.wf(),
        ensures
            r == self@[addr as int],
    {
        self.mem[addr as usize]
    }

    pub fn write(&mut self, addr: u16, value: u8)
        requires
            old(self).wf(),
        ensures
            final(self).wf(),
            final(self)@ == old(self)@.update(addr as int, value),
    {
        self.mem.set(addr as usize, value);
    }

    /// Little-endian 16-bit read; the address of the high byte wraps at the
    /// top of memory.
    pub fn read_word(&self, addr: u16) -> (r: u16)
        requires
            self.wf(),
        ensures
            r == word_at(self@, addr),
    {
        let lo = self.read(addr);
        let hi = self.read(addr.wrapping_add(1));
        (lo as u16) + (hi as u16) * 0x100
    }

    /// Little-endian 16-bit write; the address of the high byte wraps at the
    /// top of memory.
    pub fn write_word(&mut self, addr: u16, value: u16)
        requires
            old(self).wf(),
        ensures
            final(self).wf(),
            final(self)@ == old(self)@.update(addr as int, (value % 0x100) as u8).update(
                addr.wrapping_add(1) as int,
                (value / 0x100) as u8,
            ),
    {
        self.write(addr, (value % 0x100) as u8);
        self.write(addr.wrapping_add(1), (value / 0x100) as u8);
    }

    /// Copies `data` verbatim into memory, the first byte at `base`,
    /// addresses wrapping at the top of memory.
    pub fn load_bytes(&mut self, data: &Vec<u8>, base: u16)
        requires
            old(self).wf(),
            data@.len() <= MEM_SIZE,
        ensures
            final(self).wf(),
            final(self)@ == loaded_mem(old(self)@, data@, base),
    {
        let mut i: usize = 0;
        while i < data.len()
            invariant
                self.wf(),
                i <= data@.len(),
                data@.len() <= MEM_SIZE,
                self@ == loaded_mem(old(self)@, data@.take(i as int), base),
            decreases data@.len() - i,
        {
            self.write(base.wrapping_add(i as u16), data[i]);
            proof {
                assert(data@.take(i + 1).drop_last() =~= data@.take(i as int));
            }
            i = i + 1;
        }
        proof {
            assert(data@.take(data@.len() as int) =~= data@);
        }
    }
}

} // verus!
