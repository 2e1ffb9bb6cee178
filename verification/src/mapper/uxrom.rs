//! UxROM (mapper families 2 and 71): PRG bank switching only.
//!
//! A single register, written through any address in `$8000..=$FFFF`, picks
//! which 16 KiB PRG bank fills `$8000..=$BFFF` from the low four bits of
//! the written byte; `$C000..=$FFFF` is fixed to the last bank.  An 8 KiB
//! CHR window (ROM or RAM) is fixed at `$0000..=$1FFF`.

use vstd::prelude::*;
use vstd::arithmetic::div_mod::lemma_mod_multiples_basic;
use crate::banks::lemma_bank_offset_in_store;
use crate::cartridge::{cart_eq, cart_like, zero_bytes, Cartridge};
use crate::mapper::{
    hi_byte, lo_byte, push_word, read_word, word_from, Mapper, MapperType, Mirroring, StateError,
};

verus! {

/// The UxROM board.
#[derive(Debug)]
pub struct Uxrom {
    pub cart: Cartridge,
    /// 16 KiB PRG bank shown at `$8000..=$BFFF` (raw; wrapped at read time).
    pub prg_bank: u16,
}

impl Uxrom {
    /// Well-formedness: a consistent cartridge, 8 KiB of PRG-RAM, and a
    /// pattern-table store of at least 8 KiB.
    pub open spec fn inv_spec(self) -> bool {
        &&& self.cart.wf()
        &&& self.cart.prg_ram@.len() == 0x2000
        &&& self.cart.spec_chr_len() >= 0x2000
    }

    /// Number of 16 KiB banks in PRG-ROM.
    pub open spec fn prg_total(self) -> int {
        self.cart.prg_rom@.len() as int / 0x4000
    }

    /// Pattern-table byte at physical offset `i`.
    pub open spec fn spec_chr_at(self, i: int) -> u8 {
        if self.cart.chr_rom@.len() > 0 {
            self.cart.chr_rom@[i]
        } else {
            self.cart.chr_ram@[i]
        }
    }

    /// The byte any read of `addr` returns.
    pub open spec fn spec_peek(self, addr: u16) -> u8 {
        if addr < 0x2000 {
            self.spec_chr_at(addr as int)
        } else if 0x6000 <= addr < 0x8000 {
            self.cart.prg_ram@[addr - 0x6000]
        } else if 0x8000 <= addr < 0xC000 {
            self.cart.prg_rom@[(self.prg_bank as int % self.prg_total()) * 0x4000 + (addr
                - 0x8000)]
        } else if addr >= 0xC000 {
            self.cart.prg_rom@[(self.prg_total() - 1) * 0x4000 + (addr - 0xC000)]
        } else {
            0
        }
    }

    /// Exactly how a write changes the board: CHR-RAM and PRG-RAM accept
    /// bytes, and any write to `$8000..=$FFFF` latches the low four bits as
    /// the switchable PRG bank.
    pub open spec fn write_rel(pre: Uxrom, post: Uxrom, addr: u16, val: u8) -> bool {
        if addr < 0x2000 && pre.cart.chr_rom@.len() == 0 {
            &&& cart_like(pre.cart, post.cart)
            &&& post.cart.prg_ram@ == pre.cart.prg_ram@
            &&& post.cart.chr_ram@ == pre.cart.chr_ram@.update(addr as int, val)
            &&& post.cart.ex_ram@ == pre.cart.ex_ram@
            &&& post.prg_bank == pre.prg_bank
        } else if 0x6000 <= addr < 0x8000 {
            &&& cart_like(pre.cart, post.cart)
            &&& post.cart.prg_ram@ == pre.cart.prg_ram@.update(addr - 0x6000, val)
            &&& post.cart.chr_ram@ == pre.cart.chr_ram@
            &&& post.cart.ex_ram@ == pre.cart.ex_ram@
            &&& post.prg_bank == pre.prg_bank
        } else if addr >= 0x8000 {
            &&& cart_eq(pre.cart, post.cart)
            &&& post.prg_bank == (val & 0x0F) as u16
        } else {
            cart_eq(pre.cart, post.cart) && post.prg_bank == pre.prg_bank
        }
    }

    /// How `load` augments the cartridge and initialises the register.
    pub open spec fn load_rel(cart: Cartridge, post: Uxrom) -> bool {
        &&& cart_like(cart, post.cart)
        &&& post.cart.prg_ram@ == (if cart.prg_ram@.len() == 0 {
            zero_bytes(0x2000)
        } else {
            cart.prg_ram@
        })
        &&& post.cart.chr_ram@ == (if cart.chr_rom@.len() == 0 && cart.chr_ram@.len() == 0 {
            zero_bytes(0x2000)
        } else {
            cart.chr_ram@
        })
        &&& post.cart.ex_ram@ == cart.ex_ram@
        &&& post.prg_bank == 0
    }

    /// Builds a UxROM board around the cartridge.
    pub fn load(cart: Cartridge) -> (r: MapperType)
        requires
            cart.wf(),
            cart.prg_ram@.len() == 0 || cart.prg_ram@.len() == 0x2000,
            cart.chr_rom@.len() == 0 ==> cart.chr_ram@.len() == 0 || cart.chr_ram@.len()
                >= 0x2000,
        ensures
            r matches MapperType::Uxrom(n) && n.inv_spec() && Uxrom::load_rel(cart, n),
    {
        let mut c = cart;
        c.add_prg_ram(0x2000);
        if !c.has_chr() {
            c.add_chr_ram(0x2000);
        }
        MapperType::Uxrom(Uxrom { cart: c, prg_bank: 0 })
    }

    /// Canonical save-state encoding: the bank register as a little-endian
    /// byte pair.
    pub open spec fn spec_save(self) -> Seq<u8> {
        seq![lo_byte(self.prg_bank), hi_byte(self.prg_bank)]
    }

    /// Register value denoted by a save-state source at `pos`; decoding
    /// fails exactly when fewer than two bytes remain.
    pub open spec fn spec_decode(data: Seq<u8>, pos: int) -> Option<u16> {
        if 0 <= pos && pos + 2 <= data.len() {
            Some(word_from(data[pos], data[pos + 1]))
        } else {
            None
        }
    }
}

/// Decoding a UxROM save state undoes encoding it.
pub proof fn lemma_uxrom_roundtrip(u: Uxrom)
    ensures
        Uxrom::spec_decode(u.spec_save(), 0) == Some(u.prg_bank),
{
    crate::mapper::lemma_word_roundtrip(u.prg_bank);
}

impl Mapper for Uxrom {
    open spec fn inv(&self) -> bool {
        self.inv_spec()
    }

    fn readb(&mut self, addr: u16) -> (r: u8)
        ensures
            *final(self) == *old(self),
            r == old(self).spec_peek(addr),
    {
        self.peekb(addr)
    }

    fn peekb(&self, addr: u16) -> (r: u8)
        ensures
            r == self.spec_peek(addr),
    {
        if addr < 0x2000 {
            if self.cart.chr_rom.len() > 0 {
                self.cart.chr_rom[addr as usize]
            } else {
                self.cart.chr_ram[addr as usize]
            }
        } else if 0x6000 <= addr && addr < 0x8000 {
            self.cart.prg_ram[(addr - 0x6000) as usize]
        } else if addr < 0x8000 {
            0
        } else {
            let len: usize = self.cart.prg_rom.len();
            proof {
                lemma_mod_multiples_basic(self.cart.header.prg_rom_size as int, 0x4000);
            }
            let total: usize = len / 0x4000;
            if addr < 0xC000 {
                let bank: usize = (self.prg_bank as usize) % total;
                proof {
                    lemma_bank_offset_in_store(
                        len as int,
                        0x4000,
                        bank as int,
                        (addr - 0x8000) as int,
                    );
                }
                self.cart.prg_rom[bank * 0x4000 + (addr - 0x8000) as usize]
            } else {
                let bank: usize = total - 1;
                proof {
                    lemma_bank_offset_in_store(
                        len as int,
                        0x4000,
                        bank as int,
                        (addr - 0xC000) as int,
                    );
                }
                self.cart.prg_rom[bank * 0x4000 + (addr - 0xC000) as usize]
            }
        }
    }

    fn writeb(&mut self, addr: u16, val: u8)
        ensures
            Uxrom::write_rel(*old(self), *final(self), addr, val),
    {
        if addr < 0x2000 {
            if self.cart.chr_rom.len() == 0 {
                self.cart.chr_ram.set(addr as usize, val);
            }
        } else if 0x6000 <= addr && addr < 0x8000 {
            self.cart.prg_ram.set((addr - 0x6000) as usize, val);
        } else if addr >= 0x8000 {
            self.prg_bank = (val & 0x0F) as u16;
        }
    }

    fn mirroring(&self) -> (r: Mirroring)
        ensures
            r == self.cart.header.mirroring,
    {
        self.cart.header.mirroring
    }

    fn battery_backed(&self) -> (r: bool)
        ensures
            r == self.cart.header.has_battery,
    {
        self.cart.header.has_battery
    }

    fn save(&self, out: &mut Vec<u8>)
        ensures
            final(out)@ == old(out)@ + self.spec_save(),
    {
        push_word(out, self.prg_bank);
        proof {
            assert(out@ =~= old(out)@ + self.spec_save());
        }
    }

    fn load(&mut self, data: &Vec<u8>, pos: usize) -> (r: Result<usize, StateError>)
        ensures
            match r {
                Ok(np) => {
                    &&& Uxrom::spec_decode(data@, pos as int) matches Some(b)
                    &&& np == pos + 2
                    &&& final(self).prg_bank == b
                    &&& cart_eq(old(self).cart, final(self).cart)
                },
                Err(e) => {
                    &&& *final(self) == *old(self)
                    &&& Uxrom::spec_decode(data@, pos as int) is None
                    &&& e == StateError::UnexpectedEnd
                },
            },
    {
        if pos >= data.len() || data.len() - pos < 2 {
            return Err(StateError::UnexpectedEnd);
        }
        self.prg_bank = read_word(data, pos);
        Ok(pos + 2)
    }
}

} // verus!
