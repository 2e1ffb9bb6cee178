//! AxROM (mapper family 7): 32 KiB PRG switching and software-controlled
//! single-screen mirroring.
//!
//! A single register, written through any address in `$8000..=$FFFF`,
//! selects a whole 32 KiB PRG bank from the low three bits and one of the
//! two single-screen nametables from bit 4.  An 8 KiB CHR-RAM window is
//! fixed at `$0000..=$1FFF`.

use vstd::prelude::*;
use crate::cartridge::{cart_eq, cart_like, zero_bytes, Cartridge};
use crate::mapper::{
    hi_byte, lo_byte, mirroring_byte, mirroring_from_byte, push_word, read_word, word_from,
    Mapper, MapperType, Mirroring, StateError,
};

verus! {

/// The AxROM board.
#[derive(Debug)]
pub struct Axrom {
    pub cart: Cartridge,
    /// 32 KiB PRG bank shown at `$8000..=$FFFF` (raw; wrapped at read time).
    pub prg_bank: u16,
    /// Software-selected single-screen mirroring.
    pub mirroring: Mirroring,
}

impl Axrom {
    /// Well-formedness: a consistent cartridge, 8 KiB of PRG-RAM, and a
    /// pattern-table store of at least 8 KiB.
    pub open spec fn inv_spec(self) -> bool {
        &&& self.cart.wf()
        &&& self.cart.prg_ram@.len() == 0x2000
        &&& self.cart.spec_chr_len() >= 0x2000
    }

    /// Pattern-table byte at physical offset `i`.
    pub open spec fn spec_chr_at(self, i: int) -> u8 {
        if self.cart.chr_rom@.len() > 0 {
            self.cart.chr_rom@[i]
        } else {
            self.cart.chr_ram@[i]
        }
    }

    /// Physical PRG offset of bus address `addr`: the selected 32 KiB bank
    /// plus the offset, wrapped modulo the ROM size so that out-of-range
    /// bank values never fault.
    pub open spec fn prg_phys(self, addr: u16) -> int {
        (self.prg_bank as int * 0x8000 + (addr - 0x8000)) % self.cart.prg_rom@.len() as int
    }

    /// The byte any read of `addr` returns.
    pub open spec fn spec_peek(self, addr: u16) -> u8 {
        if addr < 0x2000 {
            self.spec_chr_at(addr as int)
        } else if 0x6000 <= addr < 0x8000 {
            self.cart.prg_ram@[addr - 0x6000]
        } else if addr >= 0x8000 {
            self.cart.prg_rom@[self.prg_phys(addr)]
        } else {
            0
        }
    }

    /// Exactly how a write changes the board: CHR-RAM and PRG-RAM accept
    /// bytes, and any write to `$8000..=$FFFF` latches the PRG bank from
    /// the low three bits and the nametable from bit 4.
    pub open spec fn write_rel(pre: Axrom, post: Axrom, addr: u16, val: u8) -> bool {
        if addr < 0x2000 && pre.cart.chr_rom@.len() == 0 {
            &&& cart_like(pre.cart, post.cart)
            &&& post.cart.prg_ram@ == pre.cart.prg_ram@
            &&& post.cart.chr_ram@ == pre.cart.chr_ram@.update(addr as int, val)
            &&& post.cart.ex_ram@ == pre.cart.ex_ram@
            &&& post.prg_bank == pre.prg_bank
            &&& post.mirroring == pre.mirroring
        } else if 0x6000 <= addr < 0x8000 {
            &&& cart_like(pre.cart, post.cart)
            &&& post.cart.prg_ram@ == pre.cart.prg_ram@.update(addr - 0x6000, val)
            &&& post.cart.chr_ram@ == pre.cart.chr_ram@
            &&& post.cart.ex_ram@ == pre.cart.ex_ram@
            &&& post.prg_bank == pre.prg_bank
            &&& post.mirroring == pre.mirroring
        } else if addr >= 0x8000 {
            &&& cart_eq(pre.cart, post.cart)
            &&& post.prg_bank == (val & 0x07) as u16
            &&& post.mirroring == (if val & 0x10 == 0x10 {
                Mirroring::SingleScreenB
            } else {
                Mirroring::SingleScreenA
            })
        } else {
            cart_eq(pre.cart, post.cart) && post.prg_bank == pre.prg_bank && post.mirroring
                == pre.mirroring
        }
    }

    /// How `load` augments the cartridge and initialises the registers:
    /// bank 0 and the first single-screen nametable.
    pub open spec fn load_rel(cart: Cartridge, post: Axrom) -> bool {
        &&& cart_like(cart, post.cart)
        &&& post.cart.prg_ram@ == (if cart.prg_ram@.len() == 0 {
            zero_bytes(0x2000)
        } else {
            cart.prg_ram@
        })
        &&& post.cart.chr_ram@ == (if cart.chr_rom@.len() == 0 && cart.chr_ram@.len() == 0 {
            zero_bytes(0x2000)
        } else {
            cart.chr_ram@
        })
        &&& post.cart.ex_ram@ == cart.ex_ram@
        &&& post.prg_bank == 0
        &&& post.mirroring == Mirroring::SingleScreenA
    }

    /// Builds an AxROM board around the cartridge.
    pub fn load(cart: Cartridge) -> (r: MapperType)
        requires
            cart.wf(),
            cart.prg_ram@.len() == 0 || cart.prg_ram@.len() == 0x2000,
            cart.chr_rom@.len() == 0 ==> cart.chr_ram@.len() == 0 || cart.chr_ram@.len()
                >= 0x2000,
        ensures
            r matches MapperType::Axrom(n) && n.inv_spec() && Axrom::load_rel(cart, n),
    {
        let mut c = cart;
        c.add_prg_ram(0x2000);
        if !c.has_chr() {
            c.add_chr_ram(0x2000);
        }
        MapperType::Axrom(Axrom { cart: c, prg_bank: 0, mirroring: Mirroring::SingleScreenA })
    }

    /// Canonical save-state encoding: the bank register as a little-endian
    /// byte pair, then the mirroring byte.
    pub open spec fn spec_save(self) -> Seq<u8> {
        seq![lo_byte(self.prg_bank), hi_byte(self.prg_bank), mirroring_byte(self.mirroring)]
    }

    /// Register values denoted by a save-state source at `pos`; decoding
    /// fails on a short source or an out-of-range mirroring byte.
    pub open spec fn spec_decode(data: Seq<u8>, pos: int) -> Result<(u16, Mirroring), StateError> {
        if pos < 0 || data.len() < pos + 3 {
            Err(StateError::UnexpectedEnd)
        } else if mirroring_from_byte(data[pos + 2]) is None {
            Err(StateError::InvalidMirroring(data[pos + 2]))
        } else {
            Ok((word_from(data[pos], data[pos + 1]), mirroring_from_byte(data[pos + 2])->0))
        }
    }
}

/// Decoding an AxROM save state undoes encoding it.
pub proof fn lemma_axrom_roundtrip(a: Axrom)
    ensures
        Axrom::spec_decode(a.spec_save(), 0) == Ok::<(u16, Mirroring), StateError>(
            (a.prg_bank, a.mirroring),
        ),
{
    crate::mapper::lemma_word_roundtrip(a.prg_bank);
    crate::mapper::lemma_mirroring_roundtrip(a.mirroring);
}

impl Mapper for Axrom {
    open spec fn inv(&self) -> bool {
        self.inv_spec()
    }

    fn readb(&mut self, addr: u16) -> (r: u8)
        ensures
            *final(self) == *old(self),
            r == old(self).spec_peek(addr),
    {
        self.peekb(addr)
    }

    fn peekb(&self, addr: u16) -> (r: u8)
        ensures
            r == self.spec_peek(addr),
    {
        if addr < 0x2000 {
            if self.cart.chr_rom.len() > 0 {
                self.cart.chr_rom[addr as usize]
            } else {
                self.cart.chr_ram[addr as usize]
            }
        } else if 0x6000 <= addr && addr < 0x8000 {
            self.cart.prg_ram[(addr - 0x6000) as usize]
        } else if addr >= 0x8000 {
            let len: usize = self.cart.prg_rom.len();
            let phys: usize = ((self.prg_bank as usize) * 0x8000 + (addr - 0x8000) as usize)
                % len;
            self.cart.prg_rom[phys]
        } else {
            0
        }
    }

    fn writeb(&mut self, addr: u16, val: u8)
        ensures
            Axrom::write_rel(*old(self), *final(self), addr, val),
    {
        if addr < 0x2000 {
            if self.cart.chr_rom.len() == 0 {
                self.cart.chr_ram.set(addr as usize, val);
            }
        } else if 0x6000 <= addr && addr < 0x8000 {
            self.cart.prg_ram.set((addr - 0x6000) as usize, val);
        } else if addr >= 0x8000 {
            self.prg_bank = (val & 0x07) as u16;
            self.mirroring = if val & 0x10 == 0x10 {
                Mirroring::SingleScreenB
            } else {
                Mirroring::SingleScreenA
            };
        }
    }

    fn mirroring(&self) -> (r: Mirroring)
        ensures
            r == self.mirroring,
    {
        self.mirroring
    }

    fn battery_backed(&self) -> (r: bool)
        ensures
            r == self.cart.header.has_battery,
    {
        self.cart.header.has_battery
    }

    fn save(&self, out: &mut Vec<u8>)
        ensures
            final(out)@ == old(out)@ + self.spec_save(),
    {
        push_word(out, self.prg_bank);
        self.mirroring.save(out);
        proof {
            assert(out@ =~= old(out)@ + self.spec_save());
        }
    }

    fn load(&mut self, data: &Vec<u8>, pos: usize) -> (r: Result<usize, StateError>)
        ensures
            match r {
                Ok(np) => {
                    &&& Axrom::spec_decode(data@, pos as int) matches Ok(t)
                    &&& np == pos + 3
                    &&& final(self).prg_bank == t.0
                    &&& final(self).mirroring == t.1
                    &&& cart_eq(old(self).cart, final(self).cart)
                },
                Err(e) => {
                    &&& *final(self) == *old(self)
                    &&& Axrom::spec_decode(data@, pos as int) matches Err(e2) && e2 == e
                },
            },
    {
        let n: usize = data.len();
        if pos >= n || n - pos < 3 {
            return Err(StateError::UnexpectedEnd);
        }
        let bank: u16 = read_word(data, pos);
        let mut m: Mirroring = self.mirroring;
        match m.load(data, pos + 2) {
            Ok(_) => {},
            Err(e) => {
                return Err(e);
            },
        }
        self.prg_bank = bank;
        self.mirroring = m;
        Ok(pos + 3)
    }
}

} // verus!
