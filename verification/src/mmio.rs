//! A modelled bank of memory-mapped peripheral registers: a window of
//! word-sized registers starting at a base address. The boot code connects a
//! bank to the device's real window; the drivers' logic only ever sees these
//! plain values.

use vstd::prelude::*;

verus! {

/// A window of 32-bit registers at `base`: register `i` models the word at
/// address `base + 4 * i`.
pub struct MmioBank {
    pub base: u64,
    pub regs: Vec<u32>,
}

impl MmioBank {
    pub open spec fn wf(self) -> bool {
        &&& self.base % 4 == 0
        &&& self.base + 4 * self.regs@.len() <= u64::MAX
    }

    /// `addr` names a register of this window.
    pub open spec fn spec_covers(self, addr: u64) -> bool {
        &&& self.base <= addr
        &&& (addr - self.base) % 4 == 0
        &&& (addr - self.base) / 4 < self.regs@.len()
    }

    /// The index of the register at `addr`.
    pub open spec fn spec_index_of(self, addr: u64) -> int {
        (addr - self.base) / 4
    }

    /// The current value of the register at `addr`.
    pub open spec fn spec_reg(self, addr: u64) -> u32 {
        self.regs@[self.spec_index_of(addr)]
    }

    /// A zero-initialized window of `len` registers at `base`.
    pub fn new_zeroed(base: u64, len: usize) -> (r: Self)
        requires
            base % 4 == 0,
            base + 4 * len <= u64::MAX,
        ensures
            r.wf(),
            r.base == base,
            r.regs@.len() == len,
            forall|i: int| 0 <= i < len ==> r.regs@[i] == 0,
    {
        let mut regs: Vec<u32> = Vec::new();
        let mut i: usize = 0;
        while i < len
            invariant
                i <= len,
                regs@.len() == i,
                forall|j: int| 0 <= j < i ==> regs@[j] == 0,
            decreases len - i,
        {
            regs.push(0);
            i = i + 1;
        }
        Self { base, regs }
    }
}

/// Read the register at `addr`.
pub fn read(bank: &MmioBank, addr: u64) -> (r: u32)
    requires
        bank.wf(),
        bank.spec_covers(addr),
    ensures
        r == bank.spec_reg(addr),
{
    let n = bank.regs.len();
    proof {
        assert((addr - bank.base) / 4 < n);
    }
    let idx = ((addr - bank.base) / 4) as usize;
    bank.regs[idx]
}

/// Write the register at `addr`.
pub fn write(bank: &mut MmioBank, addr: u64, val: u32)
    requires
        old(bank).wf(),
        old(bank).spec_covers(addr),
    ensures
        final(bank).base == old(bank).base,
        final(bank).regs@ == old(bank).regs@.update(old(bank).spec_index_of(addr), val),
        final(bank).wf(),
{
    let n = bank.regs.len();
    proof {
        assert((addr - bank.base) / 4 < n);
    }
    let idx = ((addr - bank.base) / 4) as usize;
    bank.regs[idx] = val;
}

/// The field of `bits` bits at `offset` inside a register value.
pub open spec fn spec_bits_of(val: u32, offset: u32, bits: u32) -> u32 {
    (val >> offset) & (((1u32 << bits) - 1) as u32)
}

/// Read a field of `bits` bits at bit `offset` of the register at `addr`.
pub fn read_bits(bank: &MmioBank, addr: u64, offset: u32, bits: u32) -> (r: u32)
    requires
        bank.wf(),
        bank.spec_covers(addr),
        offset < 32,
        bits < 32,
    ensures
        r == spec_bits_of(bank.spec_reg(addr), offset, bits),
{
    let mut val = read(bank, addr);
    val = val >> offset;
    let mask = 1u32 << bits;
    proof {
        assert(bits < 32 ==> 1u32 << bits >= 1) by (bit_vector);
    }
    val = val & (mask - 1);
    val
}

} // verus!
