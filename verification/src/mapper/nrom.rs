//! NROM (mapper family 0): no bank switching at all.
//!
//! PRG-ROM is 16 KiB or 32 KiB and fills the whole `$8000..=$FFFF` range; a
//! 16 KiB image appears twice (mirrored).  An 8 KiB CHR window is fixed at
//! `$0000..=$1FFF`, read-only when the cartridge carries CHR-ROM and
//! writable when it uses CHR-RAM.  PRG-RAM sits at `$6000..=$7FFF`.

use vstd::prelude::*;
use vstd::arithmetic::div_mod::lemma_mod_add_multiples_vanish;
use crate::cartridge::{cart_eq, cart_like, zero_bytes, Cartridge};
use crate::mapper::{Mapper, MapperType, Mirroring};

verus! {

/// The NROM board: nothing but the cartridge itself.
#[derive(Debug)]
pub struct Nrom {
    pub cart: Cartridge,
}

impl Nrom {
    /// Well-formedness: a consistent cartridge, 8 KiB of PRG-RAM, and a
    /// pattern-table store of at least 8 KiB.
    pub open spec fn inv_spec(self) -> bool {
        &&& self.cart.wf()
        &&& self.cart.prg_ram@.len() == 0x2000
        &&& self.cart.spec_chr_len() >= 0x2000
    }

    /// Pattern-table byte at physical offset `i`: CHR-ROM when present,
    /// CHR-RAM otherwise.
    pub open spec fn spec_chr_at(self, i: int) -> u8 {
        if self.cart.chr_rom@.len() > 0 {
            self.cart.chr_rom@[i]
        } else {
            self.cart.chr_ram@[i]
        }
    }

    /// The byte any read of `addr` returns: the fixed CHR window, PRG-RAM,
    /// or PRG-ROM mirrored over `$8000..=$FFFF`; unmapped addresses read 0.
    pub open spec fn spec_peek(self, addr: u16) -> u8 {
        if addr < 0x2000 {
            self.spec_chr_at(addr as int)
        } else if 0x6000 <= addr < 0x8000 {
            self.cart.prg_ram@[addr - 0x6000]
        } else if addr >= 0x8000 {
            self.cart.prg_rom@[(addr - 0x8000) % self.cart.prg_rom@.len() as int]
        } else {
            0
        }
    }

    /// Exactly how a write changes the board: CHR-RAM and PRG-RAM accept
    /// bytes, everything else (ROM, unmapped space) ignores them.
    pub open spec fn write_rel(pre: Nrom, post: Nrom, addr: u16, val: u8) -> bool {
        if addr < 0x2000 && pre.cart.chr_rom@.len() == 0 {
            &&& cart_like(pre.cart, post.cart)
            &&& post.cart.prg_ram@ == pre.cart.prg_ram@
            &&& post.cart.chr_ram@ == pre.cart.chr_ram@.update(addr as int, val)
            &&& post.cart.ex_ram@ == pre.cart.ex_ram@
        } else if 0x6000 <= addr < 0x8000 {
            &&& cart_like(pre.cart, post.cart)
            &&& post.cart.prg_ram@ == pre.cart.prg_ram@.update(addr - 0x6000, val)
            &&& post.cart.chr_ram@ == pre.cart.chr_ram@
            &&& post.cart.ex_ram@ == pre.cart.ex_ram@
        } else {
            cart_eq(pre.cart, post.cart)
        }
    }

    /// How `load` augments the cartridge: PRG-RAM is allocated if missing,
    /// and CHR-RAM when the image declares no CHR-ROM.
    pub open spec fn load_rel(cart: Cartridge, post: Nrom) -> bool {
        &&& cart_like(cart, post.cart)
        &&& post.cart.prg_ram@ == (if cart.prg_ram@.len() == 0 {
            zero_bytes(0x2000)
        } else {
            cart.prg_ram@
        })
        &&& post.cart.chr_ram@ == (if cart.chr_rom@.len() == 0 && cart.chr_ram@.len() == 0 {
            zero_bytes(0x2000)
        } else {
            cart.chr_ram@
        })
        &&& post.cart.ex_ram@ == cart.ex_ram@
    }

    /// Builds an NROM board around the cartridge.
    pub fn load(cart: Cartridge) -> (r: MapperType)
        requires
            cart.wf(),
            cart.prg_ram@.len() == 0 || cart.prg_ram@.len() == 0x2000,
            cart.chr_rom@.len() == 0 ==> cart.chr_ram@.len() == 0 || cart.chr_ram@.len()
                >= 0x2000,
        ensures
            r matches MapperType::Nrom(n) && n.inv_spec() && Nrom::load_rel(cart, n),
    {
        let mut c = cart;
        c.add_prg_ram(0x2000);
        if !c.has_chr() {
            c.add_chr_ram(0x2000);
        }
        proof {
            assert(c.prg_ram@.len() == 0x2000);
        }
        MapperType::Nrom(Nrom { cart: c })
    }
}

impl Mapper for Nrom {
    open spec fn inv(&self) -> bool {
        self.inv_spec()
    }

    fn readb(&mut self, addr: u16) -> (r: u8)
        ensures
            *final(self) == *old(self),
            r == old(self).spec_peek(addr),
    {
        self.peekb(addr)
    }

    fn peekb(&self, addr: u16) -> (r: u8)
        ensures
            r == self.spec_peek(addr),
    {
        if addr < 0x2000 {
            if self.cart.chr_rom.len() > 0 {
                self.cart.chr_rom[addr as usize]
            } else {
                self.cart.chr_ram[addr as usize]
            }
        } else if 0x6000 <= addr && addr < 0x8000 {
            self.cart.prg_ram[(addr - 0x6000) as usize]
        } else if addr >= 0x8000 {
            let rel: usize = (addr - 0x8000) as usize;
            self.cart.prg_rom[rel % self.cart.prg_rom.len()]
        } else {
            0
        }
    }

    fn writeb(&mut self, addr: u16, val: u8)
        ensures
            Nrom::write_rel(*old(self), *final(self), addr, val),
    {
        if addr < 0x2000 {
            if self.cart.chr_rom.len() == 0 {
                self.cart.chr_ram.set(addr as usize, val);
            }
        } else if 0x6000 <= addr && addr < 0x8000 {
            self.cart.prg_ram.set((addr - 0x6000) as usize, val);
        }
    }

    fn mirroring(&self) -> (r: Mirroring)
        ensures
            r == self.cart.header.mirroring,
    {
        self.cart.header.mirroring
    }

    fn battery_backed(&self) -> (r: bool)
        ensures
            r == self.cart.header.has_battery,
    {
        self.cart.header.has_battery
    }
}

/// With a 16 KiB PRG-ROM image, `$8000..=$BFFF` and `$C000..=$FFFF` read
/// identical bytes from the same physical region: the single bank is
/// mirrored across both windows.
pub proof fn lemma_nrom_16k_mirror(n: Nrom, addr: u16)
    requires
        n.inv_spec(),
        n.cart.prg_rom@.len() == 0x4000,
        0x8000 <= addr <= 0xBFFF,
    ensures
        n.spec_peek(addr) == n.spec_peek((addr + 0x4000) as u16),
{
    let rel = addr - 0x8000;
    lemma_mod_add_multiples_vanish(rel as int, 0x4000);
    assert(((addr + 0x4000) as u16) - 0x8000 == 0x4000 + rel);
}

} // verus!
