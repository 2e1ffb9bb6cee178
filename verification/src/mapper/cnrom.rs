//! CNROM (mapper family 3): CHR bank switching only.
//!
//! PRG-ROM is two fixed 16 KiB windows.  A single register, written through
//! any address in `$8000..=$FFFF`, selects which 8 KiB CHR bank fills the
//! whole pattern-table window; the written value is masked to the number of
//! address bits the CHR size needs.  Bank indices are wrapped modulo the
//! store's bank count at read time, so out-of-range values never fault.

use vstd::prelude::*;
use vstd::arithmetic::div_mod::lemma_mod_multiples_basic;
use crate::banks::lemma_bank_offset_in_store;
use crate::cartridge::{cart_eq, cart_like, zero_bytes, Cartridge};
use crate::mapper::{
    hi_byte, lo_byte, push_word, read_word, word_from, Mapper, MapperType, Mirroring, StateError,
};

verus! {

/// Smallest all-ones bit mask whose range covers `count` banks: 0 for one
/// bank, and otherwise one less than the least power of two at or above
/// `count`.
pub open spec fn chr_bank_mask(count: int) -> int
    decreases count,
{
    if count <= 1 {
        0
    } else {
        2 * chr_bank_mask((count + 1) / 2) + 1
    }
}

/// The mask covers the bank count and wastes less than a doubling:
/// `count <= mask + 1`, and for two or more banks `mask + 1 <= 2 * (count - 1)`.
pub proof fn lemma_chr_mask_bounds(count: int)
    requires
        count >= 1,
    ensures
        chr_bank_mask(count) >= 0,
        count <= chr_bank_mask(count) + 1,
        count >= 2 ==> chr_bank_mask(count) + 1 <= 2 * (count - 1),
    decreases count,
{
    if count >= 2 {
        lemma_chr_mask_bounds((count + 1) / 2);
    }
}

/// Computes `chr_bank_mask` for a bank count.
pub fn bank_mask(count: u16) -> (r: u16)
    requires
        1 <= count <= 0x100,
    ensures
        r as int == chr_bank_mask(count as int),
    decreases count,
{
    if count <= 1 {
        0
    } else {
        let half: u16 = count / 2 + count % 2;
        assert(half as int == (count as int + 1) / 2);
        let m: u16 = bank_mask(half);
        proof {
            lemma_chr_mask_bounds(half as int);
        }
        2 * m + 1
    }
}

/// The register mask CNROM applies to a written bank value, for a store of
/// `total` banks.  Written values are single bytes, so the mask saturates at
/// 256 banks.
pub open spec fn spec_chr_mask(total: int) -> int {
    chr_bank_mask(
        if total >= 0x100 {
            0x100
        } else {
            total
        },
    )
}

/// The CNROM board.
#[derive(Debug)]
pub struct Cnrom {
    pub cart: Cartridge,
    /// Currently selected 8 KiB CHR bank (raw; wrapped at read time).
    pub chr_bank: u16,
    /// 16 KiB PRG bank shown at `$8000..=$BFFF` (fixed to 0 by the loader).
    pub prg_bank_1: u16,
    /// 16 KiB PRG bank shown at `$C000..=$FFFF` (fixed to the last bank).
    pub prg_bank_2: u16,
    /// Mask applied to written CHR bank values.
    pub chr_mask: u16,
}

impl Cnrom {
    /// Well-formedness: a consistent cartridge, 8 KiB of PRG-RAM, and a
    /// pattern-table store of whole 8 KiB banks.
    pub open spec fn inv_spec(self) -> bool {
        &&& self.cart.wf()
        &&& self.cart.prg_ram@.len() == 0x2000
        &&& self.cart.spec_chr_len() >= 0x2000
        &&& self.cart.spec_chr_len() % 0x2000 == 0
    }

    /// Number of 8 KiB banks in the pattern-table store.
    pub open spec fn chr_total(self) -> int {
        self.cart.spec_chr_len() / 0x2000
    }

    /// Number of 16 KiB banks in PRG-ROM.
    pub open spec fn prg_total(self) -> int {
        self.cart.prg_rom@.len() as int / 0x4000
    }

    /// Pattern-table byte at physical offset `i`.
    pub open spec fn spec_chr_at(self, i: int) -> u8 {
        if self.cart.chr_rom@.len() > 0 {
            self.cart.chr_rom@[i]
        } else {
            self.cart.chr_ram@[i]
        }
    }

    /// Physical offset of pattern-table address `addr` under the current
    /// (wrapped) CHR bank selection.
    pub open spec fn chr_phys(self, addr: u16) -> int {
        (self.chr_bank as int % self.chr_total()) * 0x2000 + addr
    }

    /// The byte any read of `addr` returns.
    pub open spec fn spec_peek(self, addr: u16) -> u8 {
        if addr < 0x2000 {
            self.spec_chr_at(self.chr_phys(addr))
        } else if 0x6000 <= addr < 0x8000 {
            self.cart.prg_ram@[addr - 0x6000]
        } else if 0x8000 <= addr < 0xC000 {
            self.cart.prg_rom@[(self.prg_bank_1 as int % self.prg_total()) * 0x4000 + (addr
                - 0x8000)]
        } else if addr >= 0xC000 {
            self.cart.prg_rom@[(self.prg_bank_2 as int % self.prg_total()) * 0x4000 + (addr
                - 0xC000)]
        } else {
            0
        }
    }

    /// Exactly how a write changes the board: CHR-RAM and PRG-RAM accept
    /// bytes, and any write to `$8000..=$FFFF` latches the masked CHR bank.
    pub open spec fn write_rel(pre: Cnrom, post: Cnrom, addr: u16, val: u8) -> bool {
        if addr < 0x2000 && pre.cart.chr_rom@.len() == 0 {
            &&& cart_like(pre.cart, post.cart)
            &&& post.cart.prg_ram@ == pre.cart.prg_ram@
            &&& post.cart.chr_ram@ == pre.cart.chr_ram@.update(pre.chr_phys(addr), val)
            &&& post.cart.ex_ram@ == pre.cart.ex_ram@
            &&& Cnrom::regs_eq(pre, post)
        } else if 0x6000 <= addr < 0x8000 {
            &&& cart_like(pre.cart, post.cart)
            &&& post.cart.prg_ram@ == pre.cart.prg_ram@.update(addr - 0x6000, val)
            &&& post.cart.chr_ram@ == pre.cart.chr_ram@
            &&& post.cart.ex_ram@ == pre.cart.ex_ram@
            &&& Cnrom::regs_eq(pre, post)
        } else if addr >= 0x8000 {
            &&& cart_eq(pre.cart, post.cart)
            &&& post.chr_bank == (val as u16) & pre.chr_mask
            &&& post.prg_bank_1 == pre.prg_bank_1
            &&& post.prg_bank_2 == pre.prg_bank_2
            &&& post.chr_mask == pre.chr_mask
        } else {
            cart_eq(pre.cart, post.cart) && Cnrom::regs_eq(pre, post)
        }
    }

    /// The register state of `post` equals that of `pre`.
    pub open spec fn regs_eq(pre: Cnrom, post: Cnrom) -> bool {
        &&& post.chr_bank == pre.chr_bank
        &&& post.prg_bank_1 == pre.prg_bank_1
        &&& post.prg_bank_2 == pre.prg_bank_2
        &&& post.chr_mask == pre.chr_mask
    }

    /// How `load` augments the cartridge and initialises the registers.
    pub open spec fn load_rel(cart: Cartridge, post: Cnrom) -> bool {
        &&& cart_like(cart, post.cart)
        &&& post.cart.prg_ram@ == (if cart.prg_ram@.len() == 0 {
            zero_bytes(0x2000)
        } else {
            cart.prg_ram@
        })
        &&& post.cart.chr_ram@ == (if cart.chr_rom@.len() == 0 && cart.chr_ram@.len() == 0 {
            zero_bytes(0x2000)
        } else {
            cart.chr_ram@
        })
        &&& post.cart.ex_ram@ == cart.ex_ram@
        &&& post.chr_bank == 0
        &&& post.prg_bank_1 == 0
        &&& post.prg_bank_2 == cart.header.prg_rom_size - 1
        &&& post.chr_mask == spec_chr_mask(post.chr_total())
    }

    /// Builds a CNROM board: the first PRG window shows the first bank, the
    /// second is pinned to the last bank, and the CHR register mask is sized
    /// to the pattern-table store.
    pub fn load(cart: Cartridge) -> (r: MapperType)
        requires
            cart.wf(),
            cart.prg_ram@.len() == 0 || cart.prg_ram@.len() == 0x2000,
            cart.chr_rom@.len() == 0 ==> cart.chr_ram@.len() == 0 || (cart.chr_ram@.len() >= 0x2000
                && cart.chr_ram@.len() % 0x2000 == 0),
        ensures
            r matches MapperType::Cnrom(n) && n.inv_spec() && Cnrom::load_rel(cart, n),
    {
        let mut c = cart;
        let prg_bank_2: u16 = c.header.prg_rom_size - 1;
        c.add_prg_ram(0x2000);
        if !c.has_chr() {
            c.add_chr_ram(0x2000);
        }
        let chr_total: usize = c.chr_len() / 0x2000;
        let capped: u16 = if chr_total >= 0x100 {
            0x100
        } else {
            chr_total as u16
        };
        let chr_mask: u16 = bank_mask(capped);
        MapperType::Cnrom(Cnrom { cart: c, chr_bank: 0, prg_bank_1: 0, prg_bank_2, chr_mask })
    }

    /// Canonical save-state encoding: the three bank registers, each as a
    /// little-endian byte pair.
    pub open spec fn spec_save(self) -> Seq<u8> {
        seq![
            lo_byte(self.chr_bank),
            hi_byte(self.chr_bank),
            lo_byte(self.prg_bank_1),
            hi_byte(self.prg_bank_1),
            lo_byte(self.prg_bank_2),
            hi_byte(self.prg_bank_2),
        ]
    }

    /// Register values denoted by a save-state source at `pos`; decoding
    /// fails exactly when fewer than six bytes remain.
    pub open spec fn spec_decode(data: Seq<u8>, pos: int) -> Option<(u16, u16, u16)> {
        if 0 <= pos && pos + 6 <= data.len() {
            Some(
                (
                    word_from(data[pos], data[pos + 1]),
                    word_from(data[pos + 2], data[pos + 3]),
                    word_from(data[pos + 4], data[pos + 5]),
                ),
            )
        } else {
            None
        }
    }
}

/// Decoding a CNROM save state undoes encoding it: the three bank registers
/// round-trip bit for bit.
pub proof fn lemma_cnrom_roundtrip(c: Cnrom)
    ensures
        Cnrom::spec_decode(c.spec_save(), 0) == Some(
            (c.chr_bank, c.prg_bank_1, c.prg_bank_2),
        ),
{
    crate::mapper::lemma_word_roundtrip(c.chr_bank);
    crate::mapper::lemma_word_roundtrip(c.prg_bank_1);
    crate::mapper::lemma_word_roundtrip(c.prg_bank_2);
}

impl Mapper for Cnrom {
    open spec fn inv(&self) -> bool {
        self.inv_spec()
    }

    fn readb(&mut self, addr: u16) -> (r: u8)
        ensures
            *final(self) == *old(self),
            r == old(self).spec_peek(addr),
    {
        self.peekb(addr)
    }

    fn peekb(&self, addr: u16) -> (r: u8)
        ensures
            r == self.spec_peek(addr),
    {
        if addr < 0x2000 {
            let len: usize = self.cart.chr_len();
            let total: usize = len / 0x2000;
            let bank: usize = (self.chr_bank as usize) % total;
            proof {
                lemma_bank_offset_in_store(len as int, 0x2000, bank as int, addr as int);
            }
            let phys: usize = bank * 0x2000 + addr as usize;
            if self.cart.chr_rom.len() > 0 {
                self.cart.chr_rom[phys]
            } else {
                self.cart.chr_ram[phys]
            }
        } else if 0x6000 <= addr && addr < 0x8000 {
            self.cart.prg_ram[(addr - 0x6000) as usize]
        } else if addr < 0x8000 {
            0
        } else if addr < 0xC000 {
            let len: usize = self.cart.prg_rom.len();
            proof {
                lemma_mod_multiples_basic(self.cart.header.prg_rom_size as int, 0x4000);
            }
            let total: usize = len / 0x4000;
            let bank: usize = (self.prg_bank_1 as usize) % total;
            proof {
                lemma_bank_offset_in_store(len as int, 0x4000, bank as int, (addr - 0x8000) as int);
            }
            self.cart.prg_rom[bank * 0x4000 + (addr - 0x8000) as usize]
        } else {
            let len: usize = self.cart.prg_rom.len();
            proof {
                lemma_mod_multiples_basic(self.cart.header.prg_rom_size as int, 0x4000);
            }
            let total: usize = len / 0x4000;
            let bank: usize = (self.prg_bank_2 as usize) % total;
            proof {
                lemma_bank_offset_in_store(len as int, 0x4000, bank as int, (addr - 0xC000) as int);
            }
            self.cart.prg_rom[bank * 0x4000 + (addr - 0xC000) as usize]
        }
    }

    fn writeb(&mut self, addr: u16, val: u8)
        ensures
            Cnrom::write_rel(*old(self), *final(self), addr, val),
    {
        if addr < 0x2000 {
            if self.cart.chr_rom.len() == 0 {
                let len: usize = self.cart.chr_ram.len();
                let total: usize = len / 0x2000;
                let bank: usize = (self.chr_bank as usize) % total;
                proof {
                    lemma_bank_offset_in_store(len as int, 0x2000, bank as int, addr as int);
                }
                self.cart.chr_ram.set(bank * 0x2000 + addr as usize, val);
            }
        } else if 0x6000 <= addr && addr < 0x8000 {
            self.cart.prg_ram.set((addr - 0x6000) as usize, val);
        } else if addr >= 0x8000 {
            self.chr_bank = (val as u16) & self.chr_mask;
        }
    }

    fn mirroring(&self) -> (r: Mirroring)
        ensures
            r == self.cart.header.mirroring,
    {
        self.cart.header.mirroring
    }

    fn battery_backed(&self) -> (r: bool)
        ensures
            r == self.cart.header.has_battery,
    {
        self.cart.header.has_battery
    }

    fn save(&self, out: &mut Vec<u8>)
        ensures
            final(out)@ == old(out)@ + self.spec_save(),
    {
        push_word(out, self.chr_bank);
        push_word(out, self.prg_bank_1);
        push_word(out, self.prg_bank_2);
        proof {
            assert(out@ =~= old(out)@ + self.spec_save());
        }
    }

    fn load(&mut self, data: &Vec<u8>, pos: usize) -> (r: Result<usize, StateError>)
        ensures
            match r {
                Ok(np) => {
                    &&& Cnrom::spec_decode(data@, pos as int) matches Some(t)
                    &&& np == pos + 6
                    &&& final(self).chr_bank == t.0
                    &&& final(self).prg_bank_1 == t.1
                    &&& final(self).prg_bank_2 == t.2
                    &&& final(self).chr_mask == old(self).chr_mask
                    &&& cart_eq(old(self).cart, final(self).cart)
                },
                Err(e) => {
                    &&& *final(self) == *old(self)
                    &&& Cnrom::spec_decode(data@, pos as int) is None
                    &&& e == StateError::UnexpectedEnd
                },
            },
    {
        if pos >= data.len() || data.len() - pos < 6 {
            return Err(StateError::UnexpectedEnd);
        }
        self.chr_bank = read_word(data, pos);
        self.prg_bank_1 = read_word(data, pos + 2);
        self.prg_bank_2 = read_word(data, pos + 4);
        Ok(pos + 6)
    }
}

} // verus!
