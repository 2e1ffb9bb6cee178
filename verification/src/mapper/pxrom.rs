//! PxROM / MMC2 (mapper family 9).
//!
//! One switchable 8 KiB PRG window at `$8000..=$9FFF`; the other three are
//! fixed to the last three banks.  Each 4 KiB CHR half has two bank
//! registers, chosen by a latch that flips when the PPU fetches the marker
//! tiles `$FD`/`$FE` — a read side effect, the chip's defining quirk.
//! A register at `$F000..=$FFFF` selects vertical or horizontal mirroring.

use vstd::prelude::*;
use vstd::arithmetic::div_mod::lemma_mod_multiples_basic;
use crate::banks::lemma_bank_offset_in_store;
use crate::cartridge::{cart_eq, cart_like, zero_bytes, Cartridge};
use crate::mapper::{
    flag_byte, mirroring_byte, mirroring_from_byte, read_flag, Mapper, MapperType, Mirroring,
    StateError,
};

verus! {

/// The mutable register state a PxROM save state carries.
#[derive(Debug, Copy, Clone, PartialEq, Eq, Structural)]
pub struct PxState {
    pub prg_bank: u8,
    pub chr_fd_0: u8,
    pub chr_fe_0: u8,
    pub chr_fd_1: u8,
    pub chr_fe_1: u8,
    pub latch_0_fe: bool,
    pub latch_1_fe: bool,
    pub mirroring: Mirroring,
}

/// Canonical 8-byte encoding of a PxROM register state.
pub open spec fn px_enc(s: PxState) -> Seq<u8> {
    seq![
        s.prg_bank,
        s.chr_fd_0,
        s.chr_fe_0,
        s.chr_fd_1,
        s.chr_fe_1,
        flag_byte(s.latch_0_fe),
        flag_byte(s.latch_1_fe),
        mirroring_byte(s.mirroring),
    ]
}

/// Register state denoted by a save-state source at `pos`.  Decoding fails
/// on a short source or an out-of-range mirroring byte.
pub open spec fn px_dec(data: Seq<u8>, pos: int) -> Result<PxState, StateError> {
    if pos < 0 || data.len() < pos + 8 {
        Err(StateError::UnexpectedEnd)
    } else if mirroring_from_byte(data[pos + 7]) is None {
        Err(StateError::InvalidMirroring(data[pos + 7]))
    } else {
        Ok(
            PxState {
                prg_bank: data[pos],
                chr_fd_0: data[pos + 1],
                chr_fe_0: data[pos + 2],
                chr_fd_1: data[pos + 3],
                chr_fe_1: data[pos + 4],
                latch_0_fe: data[pos + 5] != 0,
                latch_1_fe: data[pos + 6] != 0,
                mirroring: mirroring_from_byte(data[pos + 7])->0,
            },
        )
    }
}

/// Decoding a PxROM save state undoes encoding it.
pub proof fn lemma_pxrom_state_roundtrip(s: PxState)
    ensures
        px_dec(px_enc(s), 0) == Ok::<PxState, StateError>(s),
{
    crate::mapper::lemma_mirroring_roundtrip(s.mirroring);
}

/// The PxROM board.
#[derive(Debug)]
pub struct Pxrom {
    pub cart: Cartridge,
    /// 8 KiB PRG bank shown at `$8000..=$9FFF`.
    pub prg_bank: u8,
    /// 4 KiB CHR bank for `$0000..=$0FFF` while latch 0 holds `$FD`.
    pub chr_fd_0: u8,
    /// 4 KiB CHR bank for `$0000..=$0FFF` while latch 0 holds `$FE`.
    pub chr_fe_0: u8,
    /// 4 KiB CHR bank for `$1000..=$1FFF` while latch 1 holds `$FD`.
    pub chr_fd_1: u8,
    /// 4 KiB CHR bank for `$1000..=$1FFF` while latch 1 holds `$FE`.
    pub chr_fe_1: u8,
    /// Whether latch 0 last saw the `$FE` marker tile.
    pub latch_0_fe: bool,
    /// Whether latch 1 last saw the `$FE` marker tile.
    pub latch_1_fe: bool,
    /// Software-selected mirroring.
    pub mirroring: Mirroring,
}

impl Pxrom {
    /// Well-formedness: a consistent cartridge, 8 KiB of PRG-RAM, and a
    /// pattern-table store of whole 4 KiB banks.
    pub open spec fn inv_spec(self) -> bool {
        &&& self.cart.wf()
        &&& self.cart.prg_ram@.len() == 0x2000
        &&& self.cart.spec_chr_len() >= 0x2000
        &&& self.cart.spec_chr_len() % 0x1000 == 0
    }

    /// The register state this board would save.
    pub open spec fn state(self) -> PxState {
        PxState {
            prg_bank: self.prg_bank,
            chr_fd_0: self.chr_fd_0,
            chr_fe_0: self.chr_fe_0,
            chr_fd_1: self.chr_fd_1,
            chr_fe_1: self.chr_fe_1,
            latch_0_fe: self.latch_0_fe,
            latch_1_fe: self.latch_1_fe,
            mirroring: self.mirroring,
        }
    }

    /// Canonical save-state encoding of this board.
    pub open spec fn spec_save(self) -> Seq<u8> {
        px_enc(self.state())
    }

    /// Number of 4 KiB banks in the pattern-table store.
    pub open spec fn chr_total(self) -> int {
        self.cart.spec_chr_len() / 0x1000
    }

    /// Number of 8 KiB banks in PRG-ROM.
    pub open spec fn prg_total(self) -> int {
        self.cart.prg_rom@.len() as int / 0x2000
    }

    /// Pattern-table byte at physical offset `i`.
    pub open spec fn spec_chr_at(self, i: int) -> u8 {
        if self.cart.chr_rom@.len() > 0 {
            self.cart.chr_rom@[i]
        } else {
            self.cart.chr_ram@[i]
        }
    }

    /// The raw 4 KiB CHR bank the current latches select for an address.
    pub open spec fn chr_bank_of(self, addr: u16) -> int {
        if addr < 0x1000 {
            if self.latch_0_fe {
                self.chr_fe_0 as int
            } else {
                self.chr_fd_0 as int
            }
        } else {
            if self.latch_1_fe {
                self.chr_fe_1 as int
            } else {
                self.chr_fd_1 as int
            }
        }
    }

    /// Physical PRG-ROM offset of bus address `addr`: the switchable bank
    /// at `$8000..=$9FFF`, the last three banks fixed above it (wrapped on
    /// stores of fewer than four banks).
    pub open spec fn prg_phys(self, addr: u16) -> int {
        if addr < 0xA000 {
            (self.prg_bank as int % self.prg_total()) * 0x2000 + (addr - 0x8000)
        } else {
            let idx = (addr - 0xA000) / 0x2000;
            ((2 * self.prg_total() - 3 + idx) % self.prg_total()) * 0x2000 + ((addr - 0xA000)
                % 0x2000)
        }
    }

    /// The byte any read of `addr` returns (before any latch update).
    pub open spec fn spec_peek(self, addr: u16) -> u8 {
        if addr < 0x2000 {
            self.spec_chr_at(
                (self.chr_bank_of(addr) % self.chr_total()) * 0x1000 + (addr & 0x0FFF),
            )
        } else if 0x6000 <= addr < 0x8000 {
            self.cart.prg_ram@[addr - 0x6000]
        } else if addr >= 0x8000 {
            self.cart.prg_rom@[self.prg_phys(addr)]
        } else {
            0
        }
    }

    /// How a read of `addr` moves the latches: the marker fetch addresses
    /// `$0FD8`, `$0FE8`, `$1FD8..=$1FDF` and `$1FE8..=$1FEF` flip them,
    /// every other address leaves the board unchanged.
    pub open spec fn read_rel(pre: Pxrom, post: Pxrom, addr: u16) -> bool {
        if addr == 0x0FD8 {
            post == Pxrom { latch_0_fe: false, ..pre }
        } else if addr == 0x0FE8 {
            post == Pxrom { latch_0_fe: true, ..pre }
        } else if 0x1FD8 <= addr <= 0x1FDF {
            post == Pxrom { latch_1_fe: false, ..pre }
        } else if 0x1FE8 <= addr <= 0x1FEF {
            post == Pxrom { latch_1_fe: true, ..pre }
        } else {
            post == pre
        }
    }

    /// The register file of `post` equals that of `pre`.
    pub open spec fn regs_eq(pre: Pxrom, post: Pxrom) -> bool {
        &&& post.prg_bank == pre.prg_bank
        &&& post.chr_fd_0 == pre.chr_fd_0
        &&& post.chr_fe_0 == pre.chr_fe_0
        &&& post.chr_fd_1 == pre.chr_fd_1
        &&& post.chr_fe_1 == pre.chr_fe_1
        &&& post.latch_0_fe == pre.latch_0_fe
        &&& post.latch_1_fe == pre.latch_1_fe
        &&& post.mirroring == pre.mirroring
    }

    /// Exactly how a write changes the board: CHR-RAM and PRG-RAM accept
    /// bytes, and `$A000..=$FFFF` decodes one register per 4 KiB block.
    pub open spec fn write_rel(pre: Pxrom, post: Pxrom, addr: u16, val: u8) -> bool {
        if addr < 0x2000 && pre.cart.chr_rom@.len() == 0 {
            &&& cart_like(pre.cart, post.cart)
            &&& post.cart.prg_ram@ == pre.cart.prg_ram@
            &&& post.cart.chr_ram@ == pre.cart.chr_ram@.update(
                (pre.chr_bank_of(addr) % pre.chr_total()) * 0x1000 + (addr & 0x0FFF),
                val,
            )
            &&& post.cart.ex_ram@ == pre.cart.ex_ram@
            &&& Pxrom::regs_eq(pre, post)
        } else if 0x6000 <= addr < 0x8000 {
            &&& cart_like(pre.cart, post.cart)
            &&& post.cart.prg_ram@ == pre.cart.prg_ram@.update(addr - 0x6000, val)
            &&& post.cart.chr_ram@ == pre.cart.chr_ram@
            &&& post.cart.ex_ram@ == pre.cart.ex_ram@
            &&& Pxrom::regs_eq(pre, post)
        } else if addr >= 0xA000 {
            &&& cart_eq(pre.cart, post.cart)
            &&& if addr < 0xB000 {
                post == Pxrom { prg_bank: val & 0x0F, ..pre }
            } else if addr < 0xC000 {
                post == Pxrom { chr_fd_0: val & 0x1F, ..pre }
            } else if addr < 0xD000 {
                post == Pxrom { chr_fe_0: val & 0x1F, ..pre }
            } else if addr < 0xE000 {
                post == Pxrom { chr_fd_1: val & 0x1F, ..pre }
            } else if addr < 0xF000 {
                post == Pxrom { chr_fe_1: val & 0x1F, ..pre }
            } else {
                post == Pxrom {
                    mirroring: if val & 1 == 1 {
                        Mirroring::Horizontal
                    } else {
                        Mirroring::Vertical
                    },
                    ..pre
                }
            }
        } else {
            cart_eq(pre.cart, post.cart) && Pxrom::regs_eq(pre, post)
        }
    }

    /// How `load` augments the cartridge and initialises the registers:
    /// bank 0 everywhere, both latches on `$FD`, and the header's
    /// mirroring.
    pub open spec fn load_rel(cart: Cartridge, post: Pxrom) -> bool {
        &&& cart_like(cart, post.cart)
        &&& post.cart.prg_ram@ == (if cart.prg_ram@.len() == 0 {
            zero_bytes(0x2000)
        } else {
            cart.prg_ram@
        })
        &&& post.cart.chr_ram@ == (if cart.chr_rom@.len() == 0 && cart.chr_ram@.len() == 0 {
            zero_bytes(0x2000)
        } else {
            cart.chr_ram@
        })
        &&& post.cart.ex_ram@ == cart.ex_ram@
        &&& post.prg_bank == 0
        &&& post.chr_fd_0 == 0
        &&& post.chr_fe_0 == 0
        &&& post.chr_fd_1 == 0
        &&& post.chr_fe_1 == 0
        &&& post.latch_0_fe == false
        &&& post.latch_1_fe == false
        &&& post.mirroring == cart.header.mirroring
    }

    /// Builds a PxROM board around the cartridge.
    pub fn load(cart: Cartridge) -> (r: MapperType)
        requires
            cart.wf(),
            cart.prg_ram@.len() == 0 || cart.prg_ram@.len() == 0x2000,
            cart.chr_rom@.len() == 0 ==> cart.chr_ram@.len() == 0 || (cart.chr_ram@.len() >= 0x2000
                && cart.chr_ram@.len() % 0x1000 == 0),
        ensures
            r matches MapperType::Pxrom(n) && n.inv_spec() && Pxrom::load_rel(cart, n),
    {
        let mut c = cart;
        c.add_prg_ram(0x2000);
        if !c.has_chr() {
            c.add_chr_ram(0x2000);
        }
        proof {
            lemma_mod_multiples_basic(c.header.chr_rom_size as int * 2, 0x1000);
            assert(c.header.chr_rom_size as int * 0x2000 == (c.header.chr_rom_size as int * 2)
                * 0x1000) by (nonlinear_arith);
        }
        let mirroring = c.header.mirroring;
        MapperType::Pxrom(
            Pxrom {
                cart: c,
                prg_bank: 0,
                chr_fd_0: 0,
                chr_fe_0: 0,
                chr_fd_1: 0,
                chr_fe_1: 0,
                latch_0_fe: false,
                latch_1_fe: false,
                mirroring,
            },
        )
    }

    /// Effect of restoring register state from a source.
    pub open spec fn load_state_rel(
        pre: Pxrom,
        post: Pxrom,
        data: Seq<u8>,
        pos: int,
        r: Result<usize, StateError>,
    ) -> bool {
        match r {
            Ok(np) => {
                &&& px_dec(data, pos) matches Ok(s)
                &&& np == pos + 8
                &&& post.state() == s
                &&& cart_eq(pre.cart, post.cart)
            },
            Err(e) => {
                &&& post == pre
                &&& px_dec(data, pos) matches Err(e2) && e2 == e
            },
        }
    }

    /// Resolves the CHR physical offset for a pattern-table address.
    fn chr_offset(&self, addr: u16) -> (r: usize)
        requires
            self.inv_spec(),
            addr < 0x2000,
        ensures
            r == (self.chr_bank_of(addr) % self.chr_total()) * 0x1000 + (addr & 0x0FFF),
            r < self.cart.spec_chr_len(),
    {
        let len: usize = self.cart.chr_len();
        let total: usize = len / 0x1000;
        let raw: usize = if addr < 0x1000 {
            if self.latch_0_fe {
                self.chr_fe_0 as usize
            } else {
                self.chr_fd_0 as usize
            }
        } else {
            if self.latch_1_fe {
                self.chr_fe_1 as usize
            } else {
                self.chr_fd_1 as usize
            }
        };
        let bank: usize = raw % total;
        proof {
            assert((addr & 0x0FFF) < 0x1000) by (bit_vector);
            lemma_bank_offset_in_store(len as int, 0x1000, bank as int, (addr & 0x0FFF) as int);
        }
        bank * 0x1000 + (addr & 0x0FFF) as usize
    }

    /// Moves the latches for one fetched address.
    fn update_latches(&mut self, addr: u16)
        requires
            old(self).inv_spec(),
        ensures
            final(self).inv_spec(),
            Pxrom::read_rel(*old(self), *final(self), addr),
    {
        if addr == 0x0FD8 {
            self.latch_0_fe = false;
        } else if addr == 0x0FE8 {
            self.latch_0_fe = true;
        } else if 0x1FD8 <= addr && addr <= 0x1FDF {
            self.latch_1_fe = false;
        } else if 0x1FE8 <= addr && addr <= 0x1FEF {
            self.latch_1_fe = true;
        }
    }
}

/// Decoding a well-formed board's own save state restores exactly its
/// register state: saving and then loading round-trips.
pub proof fn lemma_pxrom_roundtrip(p: Pxrom)
    ensures
        px_dec(p.spec_save(), 0) == Ok::<PxState, StateError>(p.state()),
{
    lemma_pxrom_state_roundtrip(p.state());
}

impl Mapper for Pxrom {
    open spec fn inv(&self) -> bool {
        self.inv_spec()
    }

    fn readb(&mut self, addr: u16) -> (r: u8)
        ensures
            Pxrom::read_rel(*old(self), *final(self), addr),
            r == old(self).spec_peek(addr),
    {
        let r: u8 = self.peekb(addr);
        self.update_latches(addr);
        r
    }

    fn peekb(&self, addr: u16) -> (r: u8)
        ensures
            r == self.spec_peek(addr),
    {
        if addr < 0x2000 {
            let o: usize = self.chr_offset(addr);
            if self.cart.chr_rom.len() > 0 {
                self.cart.chr_rom[o]
            } else {
                self.cart.chr_ram[o]
            }
        } else if 0x6000 <= addr && addr < 0x8000 {
            self.cart.prg_ram[(addr - 0x6000) as usize]
        } else if addr < 0x8000 {
            0
        } else {
            let len: usize = self.cart.prg_rom.len();
            proof {
                lemma_mod_multiples_basic(self.cart.header.prg_rom_size as int * 2, 0x2000);
                assert(self.cart.header.prg_rom_size as int * 0x4000 == (
                self.cart.header.prg_rom_size as int * 2) * 0x2000) by (nonlinear_arith);
            }
            let total: usize = len / 0x2000;
            if addr < 0xA000 {
                let bank: usize = (self.prg_bank as usize) % total;
                proof {
                    lemma_bank_offset_in_store(
                        len as int,
                        0x2000,
                        bank as int,
                        (addr - 0x8000) as int,
                    );
                }
                self.cart.prg_rom[bank * 0x2000 + (addr - 0x8000) as usize]
            } else {
                let idx: usize = ((addr - 0xA000) / 0x2000) as usize;
                let bank: usize = (2 * total - 3 + idx) % total;
                let off: usize = ((addr - 0xA000) % 0x2000) as usize;
                proof {
                    lemma_bank_offset_in_store(len as int, 0x2000, bank as int, off as int);
                }
                self.cart.prg_rom[bank * 0x2000 + off]
            }
        }
    }

    fn writeb(&mut self, addr: u16, val: u8)
        ensures
            Pxrom::write_rel(*old(self), *final(self), addr, val),
    {
        if addr < 0x2000 {
            if self.cart.chr_rom.len() == 0 {
                let o: usize = self.chr_offset(addr);
                self.cart.chr_ram.set(o, val);
            }
        } else if 0x6000 <= addr && addr < 0x8000 {
            self.cart.prg_ram.set((addr - 0x6000) as usize, val);
        } else if addr >= 0xA000 {
            if addr < 0xB000 {
                self.prg_bank = val & 0x0F;
            } else if addr < 0xC000 {
                self.chr_fd_0 = val & 0x1F;
            } else if addr < 0xD000 {
                self.chr_fe_0 = val & 0x1F;
            } else if addr < 0xE000 {
                self.chr_fd_1 = val & 0x1F;
            } else if addr < 0xF000 {
                self.chr_fe_1 = val & 0x1F;
            } else {
                self.mirroring = if val & 1 == 1 {
                    Mirroring::Horizontal
                } else {
                    Mirroring::Vertical
                };
            }
        }
    }

    fn mirroring(&self) -> (r: Mirroring)
        ensures
            r == self.mirroring,
    {
        self.mirroring
    }

    fn vram_change(&mut self, addr: u16)
        ensures
            Pxrom::read_rel(*old(self), *final(self), addr),
    {
        self.update_latches(addr);
    }

    fn battery_backed(&self) -> (r: bool)
        ensures
            r == self.cart.header.has_battery,
    {
        self.cart.header.has_battery
    }

    fn save(&self, out: &mut Vec<u8>)
        ensures
            final(out)@ == old(out)@ + self.spec_save(),
    {
        out.push(self.prg_bank);
        out.push(self.chr_fd_0);
        out.push(self.chr_fe_0);
        out.push(self.chr_fd_1);
        out.push(self.chr_fe_1);
        out.push(if self.latch_0_fe {
            1
        } else {
            0
        });
        out.push(if self.latch_1_fe {
            1
        } else {
            0
        });
        self.mirroring.save(out);
        proof {
            assert(out@ =~= old(out)@ + self.spec_save());
        }
    }

    fn load(&mut self, data: &Vec<u8>, pos: usize) -> (r: Result<usize, StateError>)
        ensures
            Pxrom::load_state_rel(*old(self), *final(self), data@, pos as int, r),
    {
        let n: usize = data.len();
        if pos >= n || n - pos < 8 {
            return Err(StateError::UnexpectedEnd);
        }
        let mut m: Mirroring = self.mirroring;
        match m.load(data, pos + 7) {
            Ok(_) => {},
            Err(e) => {
                return Err(e);
            },
        }
        self.prg_bank = data[pos];
        self.chr_fd_0 = data[pos + 1];
        self.chr_fe_0 = data[pos + 2];
        self.chr_fd_1 = data[pos + 3];
        self.chr_fe_1 = data[pos + 4];
        self.latch_0_fe = read_flag(data, pos + 5);
        self.latch_1_fe = read_flag(data, pos + 6);
        self.mirroring = m;
        Ok(pos + 8)
    }
}

} // verus!
