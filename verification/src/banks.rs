//! Bank-window address translation.
//!
//! A mapper exposes a region of bus address space as a row of equally sized
//! windows ("slots").  Each slot holds a bank index selecting which chunk of
//! the backing store (PRG-ROM, CHR memory, PRG-RAM) is visible there.  Bank
//! indices are stored raw and wrapped modulo the store's bank count at
//! translation time, so out-of-range values written by buggy or adversarial
//! programs never fault.

use vstd::prelude::*;
use vstd::arithmetic::div_mod::lemma_fundamental_div_mod;

verus! {

/// A row of bank windows covering the inclusive bus range `start..=end`,
/// backed by a store of `size` bytes split into banks of `window` bytes.
#[derive(Debug)]
pub struct MemBanks {
    /// First bus address covered by the windows.
    pub start: u16,
    /// Last bus address covered by the windows (inclusive).
    pub end: u16,
    /// Size of one window (and of one bank) in bytes.
    pub window: usize,
    /// Total size of the backing store in bytes.
    pub size: usize,
    /// Raw (unwrapped) bank index currently selected for each slot.
    pub banks: Vec<usize>,
}

impl MemBanks {
    /// Number of window slots in the covered address range.
    pub open spec fn slot_count(self) -> int {
        (self.end - self.start + 1) / (self.window as int)
    }

    /// Number of banks the backing store is divided into.
    pub open spec fn total_banks(self) -> int {
        self.size as int / self.window as int
    }

    /// Well-formedness: the address range and the store are both an exact
    /// number of windows, and there is one bank entry per slot.
    pub open spec fn inv(self) -> bool {
        &&& self.start <= self.end
        &&& 0 < self.window
        &&& (self.end - self.start + 1) % (self.window as int) == 0
        &&& self.banks@.len() == self.slot_count()
        &&& 0 < self.size
        &&& self.size as int % self.window as int == 0
    }

    /// Slot holding the given bus address.
    pub open spec fn spec_slot(self, addr: u16) -> int {
        (addr - self.start) / (self.window as int)
    }

    /// Offset of the given bus address inside its window.
    pub open spec fn spec_offset(self, addr: u16) -> int {
        (addr - self.start) % (self.window as int)
    }

    /// Physical offset of a bus address: the slot's bank index, wrapped
    /// modulo the store's bank count, times the window size, plus the
    /// intra-window offset.
    pub open spec fn spec_translate(self, addr: u16) -> int {
        (self.banks@[self.spec_slot(addr)] as int % self.total_banks()) * (self.window as int)
            + self.spec_offset(addr)
    }

    /// Builds a translator with every slot selecting bank 0.
    pub fn new(start: u16, end: u16, size: usize, window: usize) -> (r: Self)
        requires
            start <= end,
            0 < window,
            ((end - start + 1) as int) % (window as int) == 0,
            0 < size,
            (size as int) % (window as int) == 0,
        ensures
            r.inv(),
            r.start == start,
            r.end == end,
            r.size == size,
            r.window == window,
            forall|i: int| 0 <= i < r.banks@.len() ==> r.banks@[i] == 0,
    {
        let span: usize = end as usize - start as usize + 1;
        let slots: usize = span / window;
        let mut banks: Vec<usize> = Vec::new();
        let mut i: usize = 0;
        while i < slots
            invariant
                i <= slots,
                banks@.len() == i,
                forall|j: int| 0 <= j < i ==> banks@[j] == 0,
            decreases slots - i,
        {
            banks.push(0);
            i = i + 1;
        }
        MemBanks { start, end, window, size, banks }
    }

    /// Translates a bus address into a physical offset in the backing store.
    pub fn translate(&self, addr: u16) -> (r: usize)
        requires
            self.inv(),
            self.start <= addr <= self.end,
        ensures
            r == self.spec_translate(addr),
            r < self.size,
    {
        let rel: usize = (addr - self.start) as usize;
        let slot: usize = rel / self.window;
        let off: usize = rel % self.window;
        let total: usize = self.size / self.window;
        proof {
            lemma_fundamental_div_mod(
                (self.end - self.start + 1) as int,
                self.window as int,
            );
            assert((self.window as int) * self.slot_count()
                == self.end - self.start + 1);
            assert(slot < self.slot_count()) by (nonlinear_arith)
                requires
                    rel < (self.window as int) * self.slot_count(),
                    self.window > 0,
                    slot == rel as int / self.window as int,
            ;
            lemma_fundamental_div_mod(self.size as int, self.window as int);
            assert((self.window as int) * self.total_banks() == self.size as int);
            assert(total >= 1) by (nonlinear_arith)
                requires
                    total == self.size as int / self.window as int,
                    (self.window as int) * self.total_banks() == self.size as int,
                    self.size > 0,
                    self.window > 0,
            ;
        }
        let bank: usize = self.banks[slot] % total;
        proof {
            assert(bank * self.window + off < self.size) by (nonlinear_arith)
                requires
                    bank < total,
                    off < self.window,
                    (self.window as int) * (total as int) == self.size as int,
                    self.window > 0,
            ;
        }
        bank * self.window + off
    }

    /// Stores a raw bank index for one slot; wrapping happens at translation.
    pub fn set(&mut self, slot: usize, bank: usize)
        requires
            old(self).inv(),
            slot < old(self).banks@.len(),
        ensures
            final(self).inv(),
            final(self).banks@ == old(self).banks@.update(slot as int, bank),
            final(self).start == old(self).start,
            final(self).end == old(self).end,
            final(self).window == old(self).window,
            final(self).size == old(self).size,
    {
        self.banks.set(slot, bank);
    }

    /// Assigns consecutive bank indices, starting at `base`, to the slots
    /// `first..=last`.  Used when hardware ties adjacent small windows to one
    /// larger logical bank register.
    #[verifier::loop_isolation(false)]
    pub fn set_range(&mut self, first: usize, last: usize, base: usize)
        requires
            old(self).inv(),
            first <= last,
            last < old(self).banks@.len(),
            base + (last - first) <= usize::MAX,
        ensures
            final(self).inv(),
            final(self).banks@.len() == old(self).banks@.len(),
            forall|i: int|
                0 <= i < final(self).banks@.len() ==> final(self).banks@[i]
                    == (if first <= i <= last {
                        base + (i - first)
                    } else {
                        old(self).banks@[i] as int
                    }),
            final(self).start == old(self).start,
            final(self).end == old(self).end,
            final(self).window == old(self).window,
            final(self).size == old(self).size,
    {
        let mut i: usize = first;
        while i <= last
            invariant
                first <= i <= last + 1,
                self.banks@.len() == old(self).banks@.len(),
                self.start == old(self).start,
                self.end == old(self).end,
                self.window == old(self).window,
                self.size == old(self).size,
                forall|j: int|
                    0 <= j < self.banks@.len() ==> self.banks@[j]
                        == (if first <= j < i {
                            base + (j - first)
                        } else {
                            old(self).banks@[j] as int
                        }),
            decreases last + 1 - i,
        {
            self.banks.set(i, base + (i - first));
            i = i + 1;
        }
    }

    /// Index of the last bank of the backing store; variants use it to pin a
    /// window to the top of ROM.
    pub fn last(&self) -> (r: usize)
        requires
            self.inv(),
        ensures
            r == self.total_banks() - 1,
    {
        proof {
            lemma_fundamental_div_mod(self.size as int, self.window as int);
            assert(self.total_banks() >= 1) by (nonlinear_arith)
                requires
                    (self.window as int) * self.total_banks() == self.size as int,
                    self.size > 0,
                    self.window > 0,
            ;
        }
        self.size / self.window - 1
    }
}

/// A wrapped bank index times the window size, plus an intra-window offset,
/// always lands inside a store that is an exact number of windows.
pub proof fn lemma_bank_offset_in_store(len: int, window: int, bank: int, off: int)
    requires
        window > 0,
        len > 0,
        len % window == 0,
        0 <= bank < len / window,
        0 <= off < window,
    ensures
        0 <= bank * window + off < len,
{
    lemma_fundamental_div_mod(len, window);
    assert(bank * window + off < len) by (nonlinear_arith)
        requires
            window * (len / window) == len,
            0 <= bank < len / window,
            0 <= off < window,
            window > 0,
    ;
    assert(0 <= bank * window) by (nonlinear_arith)
        requires
            0 <= bank,
            window > 0,
    ;
}

/// After selecting bank `bank` for slot `slot`, translating any address that
/// falls in that slot yields `(bank mod total_banks) * window + intra_offset`.
/// `m` is the translator before the store, `m2` after it.
pub proof fn lemma_set_then_translate(m: MemBanks, m2: MemBanks, slot: int, bank: usize, addr: u16)
    requires
        m.inv(),
        0 <= slot < m.banks@.len(),
        m2.start == m.start,
        m2.end == m.end,
        m2.window == m.window,
        m2.size == m.size,
        m2.banks@ == m.banks@.update(slot, bank),
        m.start <= addr <= m.end,
        m.spec_slot(addr) == slot,
    ensures
        m2.spec_translate(addr) == (bank as int % m.total_banks()) * (m.window as int)
            + m.spec_offset(addr),
{
    assert(m2.banks@[slot] == bank);
}

} // verus!
