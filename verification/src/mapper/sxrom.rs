//! SxROM / MMC1 (mapper families 1 and 155).
//!
//! All four internal registers are written through one serial port: any
//! write to `$8000..=$FFFF` shifts bit 0 of the value into a 5-bit shift
//! register, and the fifth write commits the collected value to the
//! register picked by address bits 13–14 — control, the two CHR banks, or
//! the PRG bank.  A write with bit 7 set clears the shift register and
//! locks the PRG layout to its power-on mode.  The control register holds
//! the mirroring mode, the PRG window layout and the CHR window size.
//!
//! The A and B revisions differ in the PRG-RAM disable bit, which this
//! model does not implement; the revision is recorded as an explicit
//! configuration input.

use vstd::prelude::*;
use vstd::arithmetic::div_mod::lemma_mod_multiples_basic;
use crate::banks::lemma_bank_offset_in_store;
use crate::cartridge::{cart_eq, cart_like, zero_bytes, Cartridge};
use crate::mapper::{Mapper, MapperType, Mirroring, StateError};

verus! {

/// Which MMC1 silicon the board carries.
#[derive(Debug, Copy, Clone, PartialEq, Eq, Hash, Structural)]
pub enum MMC1Variant {
    /// MMC1A: the PRG-RAM disable bit is ignored by the chip.
    A,
    /// MMC1B and later.
    B,
}

/// Byte encoding a variant in a save state.
pub open spec fn variant_byte(v: MMC1Variant) -> u8 {
    match v {
        MMC1Variant::A => 0,
        MMC1Variant::B => 1,
    }
}

/// Variant denoted by a save-state byte; out-of-range values decode to
/// nothing.
pub open spec fn variant_from_byte(b: u8) -> Option<MMC1Variant> {
    if b == 0 {
        Some(MMC1Variant::A)
    } else if b == 1 {
        Some(MMC1Variant::B)
    } else {
        None
    }
}

/// Decoding a variant byte undoes encoding it.
pub proof fn lemma_variant_roundtrip(v: MMC1Variant)
    ensures
        variant_from_byte(variant_byte(v)) == Some(v),
{
}

/// Mirroring mode held in the control register's low two bits.
pub open spec fn mmc1_mirroring(control: u8) -> Mirroring {
    if control & 3 == 0 {
        Mirroring::SingleScreenA
    } else if control & 3 == 1 {
        Mirroring::SingleScreenB
    } else if control & 3 == 2 {
        Mirroring::Vertical
    } else {
        Mirroring::Horizontal
    }
}

/// The mutable register state an SxROM save state carries.
#[derive(Debug, Copy, Clone, PartialEq, Eq, Structural)]
pub struct SxState {
    pub shift: u8,
    pub shift_count: u8,
    pub control: u8,
    pub chr_bank_0: u8,
    pub chr_bank_1: u8,
    pub prg_bank: u8,
    pub variant: MMC1Variant,
}

/// Canonical 7-byte encoding of an SxROM register state.
pub open spec fn sx_enc(s: SxState) -> Seq<u8> {
    seq![
        s.shift,
        s.shift_count,
        s.control,
        s.chr_bank_0,
        s.chr_bank_1,
        s.prg_bank,
        variant_byte(s.variant),
    ]
}

/// Register state denoted by a save-state source at `pos`.  Decoding fails
/// on a short source, a shift count past the register's width, and an
/// out-of-range variant byte.
pub open spec fn sx_dec(data: Seq<u8>, pos: int) -> Result<SxState, StateError> {
    if pos < 0 || data.len() < pos + 7 {
        Err(StateError::UnexpectedEnd)
    } else if data[pos + 1] > 4 {
        Err(StateError::InvalidShiftCount(data[pos + 1]))
    } else if variant_from_byte(data[pos + 6]) is None {
        Err(StateError::InvalidVariant(data[pos + 6]))
    } else {
        Ok(
            SxState {
                shift: data[pos],
                shift_count: data[pos + 1],
                control: data[pos + 2],
                chr_bank_0: data[pos + 3],
                chr_bank_1: data[pos + 4],
                prg_bank: data[pos + 5],
                variant: variant_from_byte(data[pos + 6])->0,
            },
        )
    }
}

/// Decoding an SxROM save state undoes encoding it: every register state a
/// board can hold round-trips bit for bit.
pub proof fn lemma_sxrom_state_roundtrip(s: SxState)
    requires
        s.shift_count <= 4,
    ensures
        sx_dec(sx_enc(s), 0) == Ok::<SxState, StateError>(s),
{
    lemma_variant_roundtrip(s.variant);
}

/// The SxROM board.
#[derive(Debug)]
pub struct Sxrom {
    pub cart: Cartridge,
    pub variant: MMC1Variant,
    /// Bits collected by the serial port so far, least significant first.
    pub shift: u8,
    /// How many bits the serial port has collected (0 to 4).
    pub shift_count: u8,
    /// Mirroring (bits 0–1), PRG mode (bits 2–3), CHR mode (bit 4).
    pub control: u8,
    /// 4 KiB CHR bank at `$0000..=$0FFF` (also the 8 KiB bank, halved).
    pub chr_bank_0: u8,
    /// 4 KiB CHR bank at `$1000..=$1FFF` when CHR mode is 1.
    pub chr_bank_1: u8,
    /// 16 KiB PRG bank register (low four bits).
    pub prg_bank: u8,
}

impl Sxrom {
    /// Well-formedness: a consistent cartridge, 8 KiB of PRG-RAM, a
    /// pattern-table store of whole 4 KiB banks, and an in-range shift
    /// count.
    pub open spec fn inv_spec(self) -> bool {
        &&& self.cart.wf()
        &&& self.cart.prg_ram@.len() == 0x2000
        &&& self.cart.spec_chr_len() >= 0x2000
        &&& self.cart.spec_chr_len() % 0x1000 == 0
        &&& self.shift_count <= 4
    }

    /// The register state this board would save.
    pub open spec fn state(self) -> SxState {
        SxState {
            shift: self.shift,
            shift_count: self.shift_count,
            control: self.control,
            chr_bank_0: self.chr_bank_0,
            chr_bank_1: self.chr_bank_1,
            prg_bank: self.prg_bank,
            variant: self.variant,
        }
    }

    /// Canonical save-state encoding of this board.
    pub open spec fn spec_save(self) -> Seq<u8> {
        sx_enc(self.state())
    }

    /// Number of 4 KiB banks in the pattern-table store.
    pub open spec fn chr_total(self) -> int {
        self.cart.spec_chr_len() / 0x1000
    }

    /// Number of 16 KiB banks in PRG-ROM.
    pub open spec fn prg_total(self) -> int {
        self.cart.prg_rom@.len() as int / 0x4000
    }

    /// Pattern-table byte at physical offset `i`.
    pub open spec fn spec_chr_at(self, i: int) -> u8 {
        if self.cart.chr_rom@.len() > 0 {
            self.cart.chr_rom@[i]
        } else {
            self.cart.chr_ram@[i]
        }
    }

    /// The raw 4 KiB CHR bank selected for a pattern-table address: in
    /// 8 KiB mode (control bit 4 clear) the even-masked first register and
    /// its neighbour, otherwise the two registers independently.
    pub open spec fn chr_bank_of(self, addr: u16) -> int {
        if self.control & 0x10 == 0 {
            if addr < 0x1000 {
                (self.chr_bank_0 & 0x1E) as int
            } else {
                (self.chr_bank_0 & 0x1E) + 1
            }
        } else {
            if addr < 0x1000 {
                self.chr_bank_0 as int
            } else {
                self.chr_bank_1 as int
            }
        }
    }

    /// Physical PRG-ROM offset of bus address `addr` under the control
    /// register's PRG mode: 32 KiB switching (modes 0 and 1), first bank
    /// fixed low (mode 2), or last bank fixed high (mode 3, the power-on
    /// layout).  Bank indices wrap so out-of-range values never fault.
    pub open spec fn prg_phys(self, addr: u16) -> int {
        let mode = (self.control >> 2) & 3;
        if mode == 0 || mode == 1 {
            ((self.prg_bank & 0x0E) as int * 0x4000 + (addr - 0x8000))
                % self.cart.prg_rom@.len() as int
        } else if mode == 2 {
            if addr < 0xC000 {
                addr - 0x8000
            } else {
                ((self.prg_bank & 0x0F) as int % self.prg_total()) * 0x4000 + (addr - 0xC000)
            }
        } else {
            if addr < 0xC000 {
                ((self.prg_bank & 0x0F) as int % self.prg_total()) * 0x4000 + (addr - 0x8000)
            } else {
                (self.prg_total() - 1) * 0x4000 + (addr - 0xC000)
            }
        }
    }

    /// The byte any read of `addr` returns.
    pub open spec fn spec_peek(self, addr: u16) -> u8 {
        if addr < 0x2000 {
            self.spec_chr_at(
                (self.chr_bank_of(addr) % self.chr_total()) * 0x1000 + (addr & 0x0FFF),
            )
        } else if 0x6000 <= addr < 0x8000 {
            self.cart.prg_ram@[addr - 0x6000]
        } else if addr >= 0x8000 {
            self.cart.prg_rom@[self.prg_phys(addr)]
        } else {
            0
        }
    }

    /// The register file of `post` equals that of `pre`.
    pub open spec fn regs_eq(pre: Sxrom, post: Sxrom) -> bool {
        &&& post.variant == pre.variant
        &&& post.shift == pre.shift
        &&& post.shift_count == pre.shift_count
        &&& post.control == pre.control
        &&& post.chr_bank_0 == pre.chr_bank_0
        &&& post.chr_bank_1 == pre.chr_bank_1
        &&& post.prg_bank == pre.prg_bank
    }

    /// Effect of one serial-port write: bit 7 resets the shift register
    /// and locks the PRG mode bits on; otherwise bit 0 joins the collected
    /// bits, and the fifth bit commits the 5-bit value to the register
    /// picked by address bits 13–14.
    pub open spec fn serial_write_rel(pre: Sxrom, post: Sxrom, addr: u16, val: u8) -> bool {
        &&& post.variant == pre.variant
        &&& if val & 0x80 != 0 {
            &&& post.shift == 0
            &&& post.shift_count == 0
            &&& post.control == pre.control | 0x0C
            &&& post.chr_bank_0 == pre.chr_bank_0
            &&& post.chr_bank_1 == pre.chr_bank_1
            &&& post.prg_bank == pre.prg_bank
        } else if pre.shift_count < 4 {
            &&& post.shift == pre.shift | ((val & 1) << pre.shift_count)
            &&& post.shift_count == pre.shift_count + 1
            &&& post.control == pre.control
            &&& post.chr_bank_0 == pre.chr_bank_0
            &&& post.chr_bank_1 == pre.chr_bank_1
            &&& post.prg_bank == pre.prg_bank
        } else {
            let v = pre.shift | ((val & 1) << 4);
            let target = (addr >> 13) & 3;
            &&& post.shift == 0
            &&& post.shift_count == 0
            &&& post.control == (if target == 0 {
                v
            } else {
                pre.control
            })
            &&& post.chr_bank_0 == (if target == 1 {
                v
            } else {
                pre.chr_bank_0
            })
            &&& post.chr_bank_1 == (if target == 2 {
                v
            } else {
                pre.chr_bank_1
            })
            &&& post.prg_bank == (if target == 3 {
                v
            } else {
                pre.prg_bank
            })
        }
    }

    /// Exactly how a write changes the board: CHR-RAM and PRG-RAM accept
    /// bytes, and `$8000..=$FFFF` feeds the serial port.
    pub open spec fn write_rel(pre: Sxrom, post: Sxrom, addr: u16, val: u8) -> bool {
        if addr < 0x2000 && pre.cart.chr_rom@.len() == 0 {
            &&& cart_like(pre.cart, post.cart)
            &&& post.cart.prg_ram@ == pre.cart.prg_ram@
            &&& post.cart.chr_ram@ == pre.cart.chr_ram@.update(
                (pre.chr_bank_of(addr) % pre.chr_total()) * 0x1000 + (addr & 0x0FFF),
                val,
            )
            &&& post.cart.ex_ram@ == pre.cart.ex_ram@
            &&& Sxrom::regs_eq(pre, post)
        } else if 0x6000 <= addr < 0x8000 {
            &&& cart_like(pre.cart, post.cart)
            &&& post.cart.prg_ram@ == pre.cart.prg_ram@.update(addr - 0x6000, val)
            &&& post.cart.chr_ram@ == pre.cart.chr_ram@
            &&& post.cart.ex_ram@ == pre.cart.ex_ram@
            &&& Sxrom::regs_eq(pre, post)
        } else if addr >= 0x8000 {
            &&& cart_eq(pre.cart, post.cart)
            &&& Sxrom::serial_write_rel(pre, post, addr, val)
        } else {
            cart_eq(pre.cart, post.cart) && Sxrom::regs_eq(pre, post)
        }
    }

    /// How `load` augments the cartridge and initialises the registers:
    /// an empty serial port and control `0x0C`, the power-on layout that
    /// fixes the last PRG bank at `$C000..=$FFFF`.
    pub open spec fn load_rel(cart: Cartridge, variant: MMC1Variant, post: Sxrom) -> bool {
        &&& cart_like(cart, post.cart)
        &&& post.cart.prg_ram@ == (if cart.prg_ram@.len() == 0 {
            zero_bytes(0x2000)
        } else {
            cart.prg_ram@
        })
        &&& post.cart.chr_ram@ == (if cart.chr_rom@.len() == 0 && cart.chr_ram@.len() == 0 {
            zero_bytes(0x2000)
        } else {
            cart.chr_ram@
        })
        &&& post.cart.ex_ram@ == cart.ex_ram@
        &&& post.variant == variant
        &&& post.shift == 0
        &&& post.shift_count == 0
        &&& post.control == 0x0C
        &&& post.chr_bank_0 == 0
        &&& post.chr_bank_1 == 0
        &&& post.prg_bank == 0
    }

    /// Builds an SxROM board around the cartridge; the variant is an
    /// explicit configuration input resolved by the loader.
    pub fn load(cart: Cartridge, variant: MMC1Variant) -> (r: MapperType)
        requires
            cart.wf(),
            cart.prg_ram@.len() == 0 || cart.prg_ram@.len() == 0x2000,
            cart.chr_rom@.len() == 0 ==> cart.chr_ram@.len() == 0 || (cart.chr_ram@.len() >= 0x2000
                && cart.chr_ram@.len() % 0x1000 == 0),
        ensures
            r matches MapperType::Sxrom(n) && n.inv_spec() && Sxrom::load_rel(cart, variant, n),
    {
        let mut c = cart;
        c.add_prg_ram(0x2000);
        if !c.has_chr() {
            c.add_chr_ram(0x2000);
        }
        proof {
            lemma_mod_multiples_basic(c.header.chr_rom_size as int * 2, 0x1000);
            assert(c.header.chr_rom_size as int * 0x2000 == (c.header.chr_rom_size as int * 2)
                * 0x1000) by (nonlinear_arith);
        }
        MapperType::Sxrom(
            Sxrom {
                cart: c,
                variant,
                shift: 0,
                shift_count: 0,
                control: 0x0C,
                chr_bank_0: 0,
                chr_bank_1: 0,
                prg_bank: 0,
            },
        )
    }

    /// Effect of restoring register state from a source: on success the
    /// board holds exactly the decoded state; on failure it is unchanged
    /// and the decode failure is reported.
    pub open spec fn load_state_rel(
        pre: Sxrom,
        post: Sxrom,
        data: Seq<u8>,
        pos: int,
        r: Result<usize, StateError>,
    ) -> bool {
        match r {
            Ok(np) => {
                &&& sx_dec(data, pos) matches Ok(s)
                &&& np == pos + 7
                &&& post.state() == s
                &&& cart_eq(pre.cart, post.cart)
            },
            Err(e) => {
                &&& post == pre
                &&& sx_dec(data, pos) matches Err(e2) && e2 == e
            },
        }
    }

    /// Resolves the CHR physical offset for a pattern-table address.
    fn chr_offset(&self, addr: u16) -> (r: usize)
        requires
            self.inv_spec(),
            addr < 0x2000,
        ensures
            r == (self.chr_bank_of(addr) % self.chr_total()) * 0x1000 + (addr & 0x0FFF),
            r < self.cart.spec_chr_len(),
    {
        let len: usize = self.cart.chr_len();
        let total: usize = len / 0x1000;
        let raw: usize = if self.control & 0x10 == 0 {
            if addr < 0x1000 {
                (self.chr_bank_0 & 0x1E) as usize
            } else {
                (self.chr_bank_0 & 0x1E) as usize + 1
            }
        } else {
            if addr < 0x1000 {
                self.chr_bank_0 as usize
            } else {
                self.chr_bank_1 as usize
            }
        };
        let bank: usize = raw % total;
        proof {
            assert((addr & 0x0FFF) < 0x1000) by (bit_vector);
            lemma_bank_offset_in_store(len as int, 0x1000, bank as int, (addr & 0x0FFF) as int);
        }
        bank * 0x1000 + (addr & 0x0FFF) as usize
    }
}

/// Decoding a well-formed board's own save state restores exactly its
/// register state: saving and then loading round-trips.
pub proof fn lemma_sxrom_roundtrip(s: Sxrom)
    requires
        s.inv_spec(),
    ensures
        sx_dec(s.spec_save(), 0) == Ok::<SxState, StateError>(s.state()),
{
    lemma_sxrom_state_roundtrip(s.state());
}

impl Mapper for Sxrom {
    open spec fn inv(&self) -> bool {
        self.inv_spec()
    }

    fn readb(&mut self, addr: u16) -> (r: u8)
        ensures
            *final(self) == *old(self),
            r == old(self).spec_peek(addr),
    {
        self.peekb(addr)
    }

    fn peekb(&self, addr: u16) -> (r: u8)
        ensures
            r == self.spec_peek(addr),
    {
        if addr < 0x2000 {
            let o: usize = self.chr_offset(addr);
            if self.cart.chr_rom.len() > 0 {
                self.cart.chr_rom[o]
            } else {
                self.cart.chr_ram[o]
            }
        } else if 0x6000 <= addr && addr < 0x8000 {
            self.cart.prg_ram[(addr - 0x6000) as usize]
        } else if addr < 0x8000 {
            0
        } else {
            let len: usize = self.cart.prg_rom.len();
            proof {
                lemma_mod_multiples_basic(self.cart.header.prg_rom_size as int, 0x4000);
            }
            let mode: u8 = (self.control >> 2) & 3;
            if mode == 0 || mode == 1 {
                let base: usize = (self.prg_bank & 0x0E) as usize * 0x4000;
                self.cart.prg_rom[(base + (addr - 0x8000) as usize) % len]
            } else if mode == 2 {
                if addr < 0xC000 {
                    self.cart.prg_rom[(addr - 0x8000) as usize]
                } else {
                    let total: usize = len / 0x4000;
                    let bank: usize = ((self.prg_bank & 0x0F) as usize) % total;
                    proof {
                        lemma_bank_offset_in_store(
                            len as int,
                            0x4000,
                            bank as int,
                            (addr - 0xC000) as int,
                        );
                    }
                    self.cart.prg_rom[bank * 0x4000 + (addr - 0xC000) as usize]
                }
            } else {
                if addr < 0xC000 {
                    let total: usize = len / 0x4000;
                    let bank: usize = ((self.prg_bank & 0x0F) as usize) % total;
                    proof {
                        lemma_bank_offset_in_store(
                            len as int,
                            0x4000,
                            bank as int,
                            (addr - 0x8000) as int,
                        );
                    }
                    self.cart.prg_rom[bank * 0x4000 + (addr - 0x8000) as usize]
                } else {
                    let total: usize = len / 0x4000;
                    let bank: usize = total - 1;
                    proof {
                        lemma_bank_offset_in_store(
                            len as int,
                            0x4000,
                            bank as int,
                            (addr - 0xC000) as int,
                        );
                    }
                    self.cart.prg_rom[bank * 0x4000 + (addr - 0xC000) as usize]
                }
            }
        }
    }

    fn writeb(&mut self, addr: u16, val: u8)
        ensures
            Sxrom::write_rel(*old(self), *final(self), addr, val),
    {
        if addr < 0x2000 {
            if self.cart.chr_rom.len() == 0 {
                let o: usize = self.chr_offset(addr);
                self.cart.chr_ram.set(o, val);
            }
        } else if 0x6000 <= addr && addr < 0x8000 {
            self.cart.prg_ram.set((addr - 0x6000) as usize, val);
        } else if addr >= 0x8000 {
            if val & 0x80 != 0 {
                self.shift = 0;
                self.shift_count = 0;
                self.control = self.control | 0x0C;
            } else if self.shift_count < 4 {
                self.shift = self.shift | ((val & 1) << self.shift_count);
                self.shift_count = self.shift_count + 1;
            } else {
                let v: u8 = self.shift | ((val & 1) << 4u8);
                let target: u16 = (addr >> 13) & 3;
                self.shift = 0;
                self.shift_count = 0;
                if target == 0 {
                    self.control = v;
                } else if target == 1 {
                    self.chr_bank_0 = v;
                } else if target == 2 {
                    self.chr_bank_1 = v;
                } else {
                    proof {
                        assert(((addr >> 13) & 3) <= 3) by (bit_vector);
                    }
                    self.prg_bank = v;
                }
            }
        }
    }

    fn mirroring(&self) -> (r: Mirroring)
        ensures
            r == mmc1_mirroring(self.control),
    {
        let bits: u8 = self.control & 3;
        if bits == 0 {
            Mirroring::SingleScreenA
        } else if bits == 1 {
            Mirroring::SingleScreenB
        } else if bits == 2 {
            Mirroring::Vertical
        } else {
            Mirroring::Horizontal
        }
    }

    fn battery_backed(&self) -> (r: bool)
        ensures
            r == self.cart.header.has_battery,
    {
        self.cart.header.has_battery
    }

    fn save(&self, out: &mut Vec<u8>)
        ensures
            final(out)@ == old(out)@ + self.spec_save(),
    {
        out.push(self.shift);
        out.push(self.shift_count);
        out.push(self.control);
        out.push(self.chr_bank_0);
        out.push(self.chr_bank_1);
        out.push(self.prg_bank);
        out.push(
            match self.variant {
                MMC1Variant::A => 0,
                MMC1Variant::B => 1,
            },
        );
        proof {
            assert(out@ =~= old(out)@ + self.spec_save());
        }
    }

    fn load(&mut self, data: &Vec<u8>, pos: usize) -> (r: Result<usize, StateError>)
        ensures
            Sxrom::load_state_rel(*old(self), *final(self), data@, pos as int, r),
    {
        let n: usize = data.len();
        if pos >= n || n - pos < 7 {
            return Err(StateError::UnexpectedEnd);
        }
        let count: u8 = data[pos + 1];
        if count > 4 {
            return Err(StateError::InvalidShiftCount(count));
        }
        let vb: u8 = data[pos + 6];
        if vb > 1 {
            return Err(StateError::InvalidVariant(vb));
        }
        self.shift = data[pos];
        self.shift_count = count;
        self.control = data[pos + 2];
        self.chr_bank_0 = data[pos + 3];
        self.chr_bank_1 = data[pos + 4];
        self.prg_bank = data[pos + 5];
        self.variant = if vb == 0 {
            MMC1Variant::A
        } else {
            MMC1Variant::B
        };
        Ok(pos + 7)
    }
}

} // verus!
