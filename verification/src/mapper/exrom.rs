//! ExROM / MMC5 (mapper family 5), modelled at its core: mode-controlled
//! PRG and CHR banking, the expansion RAM window, the nametable-mapping
//! register, the hardware multiplier, and the scanline IRQ.
//!
//! `$5100`/`$5101` pick the PRG/CHR window layout; `$5113..=$5117` and
//! `$5120..=$5127` hold the bank registers, interpreted in units of the
//! current window size.  `$5105` maps the four nametables; the four
//! standard values select the classic mirroring modes.  `$5205`/`$5206`
//! multiply.  The scanline counter, which real silicon derives from PPU
//! fetch patterns, is driven here by the bus collaborator's per-scanline
//! `clock()` hook; it raises the IRQ when it reaches the `$5203` target,
//! and a `$5204` status read acknowledges it.

use vstd::prelude::*;
use vstd::arithmetic::div_mod::lemma_mod_multiples_basic;
use crate::banks::lemma_bank_offset_in_store;
use crate::cartridge::{cart_eq, cart_like, zero_bytes, Cartridge};
use crate::mapper::{
    flag_byte, mirroring_byte, mirroring_from_byte, read_flag, Mapper, MapperType, Mirroring,
    StateError,
};

verus! {

/// The mutable register state an ExROM save state carries.
#[verifier::ext_equal]
pub struct ExState {
    pub prg_mode: u8,
    pub chr_mode: u8,
    pub nt_map: u8,
    pub mirroring: Mirroring,
    pub prg_regs: Seq<u8>,
    pub chr_regs: Seq<u8>,
    pub mult_a: u8,
    pub mult_b: u8,
    pub irq_target: u8,
    pub irq_enabled: bool,
    pub irq_pending: bool,
    pub scanline: u8,
}

/// Canonical 23-byte encoding of an ExROM register state.
pub open spec fn ex_enc(s: ExState) -> Seq<u8> {
    seq![s.prg_mode, s.chr_mode, s.nt_map, mirroring_byte(s.mirroring)] + s.prg_regs + s.chr_regs
        + seq![
        s.mult_a,
        s.mult_b,
        s.irq_target,
        flag_byte(s.irq_enabled),
        flag_byte(s.irq_pending),
        s.scanline,
    ]
}

/// Register state denoted by a save-state source at `pos`.  Decoding fails
/// on a short source or an out-of-range mirroring byte; the mode bytes are
/// masked to their two decoded bits.
pub open spec fn ex_dec(data: Seq<u8>, pos: int) -> Result<ExState, StateError> {
    if pos < 0 || data.len() < pos + 23 {
        Err(StateError::UnexpectedEnd)
    } else if mirroring_from_byte(data[pos + 3]) is None {
        Err(StateError::InvalidMirroring(data[pos + 3]))
    } else {
        Ok(
            ExState {
                prg_mode: data[pos] & 3,
                chr_mode: data[pos + 1] & 3,
                nt_map: data[pos + 2],
                mirroring: mirroring_from_byte(data[pos + 3])->0,
                prg_regs: data.subrange(pos + 4, pos + 9),
                chr_regs: data.subrange(pos + 9, pos + 17),
                mult_a: data[pos + 17],
                mult_b: data[pos + 18],
                irq_target: data[pos + 19],
                irq_enabled: data[pos + 20] != 0,
                irq_pending: data[pos + 21] != 0,
                scanline: data[pos + 22],
            },
        )
    }
}

/// Decoding an ExROM save state undoes encoding it for every state whose
/// mode bytes fit their two bits.
pub proof fn lemma_exrom_state_roundtrip(s: ExState)
    requires
        s.prg_regs.len() == 5,
        s.chr_regs.len() == 8,
        s.prg_mode <= 3,
        s.chr_mode <= 3,
    ensures
        ex_dec(ex_enc(s), 0) matches Ok(s2) && s2 == s,
{
    let data = ex_enc(s);
    assert(data.len() == 23);
    crate::mapper::lemma_mirroring_roundtrip(s.mirroring);
    let pm: u8 = s.prg_mode;
    let cm: u8 = s.chr_mode;
    assert(pm <= 3 ==> pm & 3 == pm) by (bit_vector);
    assert(cm <= 3 ==> cm & 3 == cm) by (bit_vector);
    assert(data.subrange(4, 9) =~= s.prg_regs);
    assert(data.subrange(9, 17) =~= s.chr_regs);
    assert(ex_dec(data, 0) matches Ok(s2) && s2 =~= s);
}

/// Nametable-mapping values with a classic-mirroring equivalent: the four
/// quadrant fields all drawn from the same standard pattern.
pub open spec fn nt_mirroring(v: u8) -> Option<Mirroring> {
    if v == 0x00 {
        Some(Mirroring::SingleScreenA)
    } else if v == 0x55 {
        Some(Mirroring::SingleScreenB)
    } else if v == 0x44 {
        Some(Mirroring::Vertical)
    } else if v == 0x50 {
        Some(Mirroring::Horizontal)
    } else {
        None
    }
}

/// The ExROM board.
#[derive(Debug)]
pub struct Exrom {
    pub cart: Cartridge,
    /// `$5100` low two bits: PRG window layout.
    pub prg_mode: u8,
    /// `$5101` low two bits: CHR window layout.
    pub chr_mode: u8,
    /// Raw `$5105` nametable mapping byte.
    pub nt_map: u8,
    /// Mirroring equivalent of the last standard `$5105` value written.
    pub mirroring: Mirroring,
    /// `$5113..=$5117` (always 5 entries; the first is the PRG-RAM bank).
    pub prg_regs: Vec<u8>,
    /// `$5120..=$5127` (always 8 entries).
    pub chr_regs: Vec<u8>,
    /// `$5205`: first multiplier factor.
    pub mult_a: u8,
    /// `$5206`: second multiplier factor.
    pub mult_b: u8,
    /// `$5203`: scanline the IRQ fires on.
    pub irq_target: u8,
    /// `$5204` bit 7 on write.
    pub irq_enabled: bool,
    /// Latched IRQ line, acknowledged by a `$5204` status read.
    pub irq_pending: bool,
    /// The scanline counter driven by `clock()`.
    pub scanline: u8,
}

impl Exrom {
    /// Well-formedness: a consistent cartridge, 8 KiB of PRG-RAM, 1 KiB of
    /// expansion RAM, a pattern-table store of whole 1 KiB banks, register
    /// files of their hardware sizes, and mode bits in range.
    pub open spec fn inv_spec(self) -> bool {
        &&& self.cart.wf()
        &&& self.cart.prg_ram@.len() == 0x2000
        &&& self.cart.ex_ram@.len() == 0x400
        &&& self.cart.spec_chr_len() >= 0x2000
        &&& self.cart.spec_chr_len() % 0x400 == 0
        &&& self.prg_regs@.len() == 5
        &&& self.chr_regs@.len() == 8
        &&& self.prg_mode <= 3
        &&& self.chr_mode <= 3
    }

    /// The register state this board would save.
    pub open spec fn state(self) -> ExState {
        ExState {
            prg_mode: self.prg_mode,
            chr_mode: self.chr_mode,
            nt_map: self.nt_map,
            mirroring: self.mirroring,
            prg_regs: self.prg_regs@,
            chr_regs: self.chr_regs@,
            mult_a: self.mult_a,
            mult_b: self.mult_b,
            irq_target: self.irq_target,
            irq_enabled: self.irq_enabled,
            irq_pending: self.irq_pending,
            scanline: self.scanline,
        }
    }

    /// Canonical save-state encoding of this board.
    pub open spec fn spec_save(self) -> Seq<u8> {
        ex_enc(self.state())
    }

    /// Number of 8 KiB banks in PRG-ROM.
    pub open spec fn prg_total(self) -> int {
        self.cart.prg_rom@.len() as int / 0x2000
    }

    /// Number of 1 KiB banks in the pattern-table store.
    pub open spec fn chr_total(self) -> int {
        self.cart.spec_chr_len() / 0x400
    }

    /// Pattern-table byte at physical offset `i`.
    pub open spec fn spec_chr_at(self, i: int) -> u8 {
        if self.cart.chr_rom@.len() > 0 {
            self.cart.chr_rom@[i]
        } else {
            self.cart.chr_ram@[i]
        }
    }

    /// Raw 8 KiB bank for each of the four CPU windows, by PRG mode: one
    /// 32 KiB, two 16 KiB, 16 KiB low and two 8 KiB high, or four 8 KiB
    /// banks.  Bit 7 of a register (the ROM/RAM select) is masked off.
    pub open spec fn prg_layout(self) -> Seq<int> {
        let r1 = (self.prg_regs@[1] & 0x7F) as int;
        let r2 = (self.prg_regs@[2] & 0x7F) as int;
        let r3 = (self.prg_regs@[3] & 0x7F) as int;
        let r4 = (self.prg_regs@[4] & 0x7F) as int;
        let e2 = (self.prg_regs@[2] & 0x7E) as int;
        let e4 = (self.prg_regs@[4] & 0x7E) as int;
        let q4 = (self.prg_regs@[4] & 0x7C) as int;
        if self.prg_mode == 0 {
            seq![q4, q4 + 1, q4 + 2, q4 + 3]
        } else if self.prg_mode == 1 {
            seq![e2, e2 + 1, e4, e4 + 1]
        } else if self.prg_mode == 2 {
            seq![e2, e2 + 1, r3, r4]
        } else {
            seq![r1, r2, r3, r4]
        }
    }

    /// Raw 1 KiB bank for each of the eight pattern-table windows, by CHR
    /// mode; a register counts in units of the current window size.
    pub open spec fn chr_layout(self) -> Seq<int> {
        let r1 = self.chr_regs@[1] as int;
        let r3 = self.chr_regs@[3] as int;
        let r5 = self.chr_regs@[5] as int;
        let r7 = self.chr_regs@[7] as int;
        if self.chr_mode == 0 {
            seq![
                8 * r7,
                8 * r7 + 1,
                8 * r7 + 2,
                8 * r7 + 3,
                8 * r7 + 4,
                8 * r7 + 5,
                8 * r7 + 6,
                8 * r7 + 7,
            ]
        } else if self.chr_mode == 1 {
            seq![
                4 * r3,
                4 * r3 + 1,
                4 * r3 + 2,
                4 * r3 + 3,
                4 * r7,
                4 * r7 + 1,
                4 * r7 + 2,
                4 * r7 + 3,
            ]
        } else if self.chr_mode == 2 {
            seq![
                2 * r1,
                2 * r1 + 1,
                2 * r3,
                2 * r3 + 1,
                2 * r5,
                2 * r5 + 1,
                2 * r7,
                2 * r7 + 1,
            ]
        } else {
            seq![
                self.chr_regs@[0] as int,
                r1,
                self.chr_regs@[2] as int,
                r3,
                self.chr_regs@[4] as int,
                r5,
                self.chr_regs@[6] as int,
                r7,
            ]
        }
    }

    /// The product the multiplier reports, split little-endian over
    /// `$5205`/`$5206`.
    pub open spec fn product(self) -> int {
        self.mult_a as int * self.mult_b as int
    }

    /// The byte any read of `addr` returns (before the `$5204` status read
    /// acknowledges the IRQ).
    pub open spec fn spec_peek(self, addr: u16) -> u8 {
        if addr < 0x2000 {
            self.spec_chr_at(
                (self.chr_layout()[(addr as int) / 0x400] % self.chr_total()) * 0x400 + (addr
                    & 0x3FF),
            )
        } else if addr == 0x5204 {
            if self.irq_pending {
                0x80
            } else {
                0
            }
        } else if addr == 0x5205 {
            (self.product() % 256) as u8
        } else if addr == 0x5206 {
            (self.product() / 256) as u8
        } else if 0x5C00 <= addr < 0x6000 {
            self.cart.ex_ram@[(addr & 0x3FF) as int]
        } else if 0x6000 <= addr < 0x8000 {
            self.cart.prg_ram@[addr - 0x6000]
        } else if addr >= 0x8000 {
            self.cart.prg_rom@[(self.prg_layout()[(addr - 0x8000) / 0x2000] % self.prg_total())
                * 0x2000 + (addr - 0x8000) % 0x2000]
        } else {
            0
        }
    }

    /// How a read of `addr` changes the board: a `$5204` status read
    /// acknowledges the IRQ, every other address leaves it unchanged.
    pub open spec fn read_rel(pre: Exrom, post: Exrom, addr: u16) -> bool {
        if addr == 0x5204 {
            post == Exrom { irq_pending: false, ..pre }
        } else {
            post == pre
        }
    }

    /// The register file of `post` equals that of `pre`.
    pub open spec fn regs_eq(pre: Exrom, post: Exrom) -> bool {
        &&& post.prg_mode == pre.prg_mode
        &&& post.chr_mode == pre.chr_mode
        &&& post.nt_map == pre.nt_map
        &&& post.mirroring == pre.mirroring
        &&& post.prg_regs == pre.prg_regs
        &&& post.chr_regs == pre.chr_regs
        &&& post.mult_a == pre.mult_a
        &&& post.mult_b == pre.mult_b
        &&& post.irq_target == pre.irq_target
        &&& post.irq_enabled == pre.irq_enabled
        &&& post.irq_pending == pre.irq_pending
        &&& post.scanline == pre.scanline
    }

    /// Exactly how a write changes the board: the `$5100`-page registers,
    /// expansion RAM, CHR-RAM and PRG-RAM accept bytes; ROM and unmapped
    /// space ignore them.
    pub open spec fn write_rel(pre: Exrom, post: Exrom, addr: u16, val: u8) -> bool {
        if addr < 0x2000 && pre.cart.chr_rom@.len() == 0 {
            &&& cart_like(pre.cart, post.cart)
            &&& post.cart.prg_ram@ == pre.cart.prg_ram@
            &&& post.cart.chr_ram@ == pre.cart.chr_ram@.update(
                (pre.chr_layout()[(addr as int) / 0x400] % pre.chr_total()) * 0x400 + (addr
                    & 0x3FF),
                val,
            )
            &&& post.cart.ex_ram@ == pre.cart.ex_ram@
            &&& Exrom::regs_eq(pre, post)
        } else if addr == 0x5100 {
            cart_eq(pre.cart, post.cart) && post == Exrom { prg_mode: val & 3, ..pre }
        } else if addr == 0x5101 {
            cart_eq(pre.cart, post.cart) && post == Exrom { chr_mode: val & 3, ..pre }
        } else if addr == 0x5105 {
            &&& cart_eq(pre.cart, post.cart)
            &&& post == Exrom {
                nt_map: val,
                mirroring: match nt_mirroring(val) {
                    Some(m) => m,
                    None => pre.mirroring,
                },
                ..pre
            }
        } else if 0x5113 <= addr <= 0x5117 {
            &&& cart_eq(pre.cart, post.cart)
            &&& post.prg_regs@ == pre.prg_regs@.update(addr - 0x5113, val)
            &&& post.chr_regs == pre.chr_regs
            &&& post.prg_mode == pre.prg_mode
            &&& post.chr_mode == pre.chr_mode
            &&& post.nt_map == pre.nt_map
            &&& post.mirroring == pre.mirroring
            &&& post.mult_a == pre.mult_a
            &&& post.mult_b == pre.mult_b
            &&& post.irq_target == pre.irq_target
            &&& post.irq_enabled == pre.irq_enabled
            &&& post.irq_pending == pre.irq_pending
            &&& post.scanline == pre.scanline
        } else if 0x5120 <= addr <= 0x5127 {
            &&& cart_eq(pre.cart, post.cart)
            &&& post.chr_regs@ == pre.chr_regs@.update(addr - 0x5120, val)
            &&& post.prg_regs == pre.prg_regs
            &&& post.prg_mode == pre.prg_mode
            &&& post.chr_mode == pre.chr_mode
            &&& post.nt_map == pre.nt_map
            &&& post.mirroring == pre.mirroring
            &&& post.mult_a == pre.mult_a
            &&& post.mult_b == pre.mult_b
            &&& post.irq_target == pre.irq_target
            &&& post.irq_enabled == pre.irq_enabled
            &&& post.irq_pending == pre.irq_pending
            &&& post.scanline == pre.scanline
        } else if addr == 0x5203 {
            cart_eq(pre.cart, post.cart) && post == Exrom { irq_target: val, ..pre }
        } else if addr == 0x5204 {
            cart_eq(pre.cart, post.cart) && post == Exrom {
                irq_enabled: val & 0x80 != 0,
                ..pre
            }
        } else if addr == 0x5205 {
            cart_eq(pre.cart, post.cart) && post == Exrom { mult_a: val, ..pre }
        } else if addr == 0x5206 {
            cart_eq(pre.cart, post.cart) && post == Exrom { mult_b: val, ..pre }
        } else if 0x5C00 <= addr < 0x6000 {
            &&& cart_like(pre.cart, post.cart)
            &&& post.cart.prg_ram@ == pre.cart.prg_ram@
            &&& post.cart.chr_ram@ == pre.cart.chr_ram@
            &&& post.cart.ex_ram@ == pre.cart.ex_ram@.update((addr & 0x3FF) as int, val)
            &&& Exrom::regs_eq(pre, post)
        } else if 0x6000 <= addr < 0x8000 {
            &&& cart_like(pre.cart, post.cart)
            &&& post.cart.prg_ram@ == pre.cart.prg_ram@.update(addr - 0x6000, val)
            &&& post.cart.chr_ram@ == pre.cart.chr_ram@
            &&& post.cart.ex_ram@ == pre.cart.ex_ram@
            &&& Exrom::regs_eq(pre, post)
        } else {
            cart_eq(pre.cart, post.cart) && Exrom::regs_eq(pre, post)
        }
    }

    /// Effect of one per-scanline step: the counter advances (wrapping),
    /// and the IRQ latches when it lands on a nonzero target with the IRQ
    /// enabled.
    pub open spec fn step_rel(pre: Exrom, post: Exrom) -> bool {
        let next = if pre.scanline == 255 {
            0u8
        } else {
            (pre.scanline + 1) as u8
        };
        &&& cart_eq(pre.cart, post.cart)
        &&& post == Exrom {
            scanline: next,
            irq_pending: pre.irq_pending || (next == pre.irq_target && pre.irq_target != 0
                && pre.irq_enabled),
            ..pre
        }
    }

    /// How `load` augments the cartridge and initialises the registers:
    /// everything cleared, mode 3 layouts, the header's mirroring.
    pub open spec fn load_rel(cart: Cartridge, post: Exrom) -> bool {
        &&& cart_like(cart, post.cart)
        &&& post.cart.prg_ram@ == (if cart.prg_ram@.len() == 0 {
            zero_bytes(0x2000)
        } else {
            cart.prg_ram@
        })
        &&& post.cart.chr_ram@ == (if cart.chr_rom@.len() == 0 && cart.chr_ram@.len() == 0 {
            zero_bytes(0x2000)
        } else {
            cart.chr_ram@
        })
        &&& post.cart.ex_ram@ == (if cart.ex_ram@.len() == 0 {
            zero_bytes(0x400)
        } else {
            cart.ex_ram@
        })
        &&& post.prg_mode == 3
        &&& post.chr_mode == 3
        &&& post.nt_map == 0
        &&& post.mirroring == cart.header.mirroring
        &&& post.prg_regs@ == zero_bytes(5)
        &&& post.chr_regs@ == zero_bytes(8)
        &&& post.mult_a == 0
        &&& post.mult_b == 0
        &&& post.irq_target == 0
        &&& post.irq_enabled == false
        &&& post.irq_pending == false
        &&& post.scanline == 0
    }

    /// Builds an ExROM board around the cartridge.
    pub fn load(cart: Cartridge) -> (r: MapperType)
        requires
            cart.wf(),
            cart.prg_ram@.len() == 0 || cart.prg_ram@.len() == 0x2000,
            cart.ex_ram@.len() == 0 || cart.ex_ram@.len() == 0x400,
            cart.chr_rom@.len() == 0 ==> cart.chr_ram@.len() == 0 || (cart.chr_ram@.len() >= 0x2000
                && cart.chr_ram@.len() % 0x400 == 0),
        ensures
            r matches MapperType::Exrom(n) && n.inv_spec() && Exrom::load_rel(cart, n),
    {
        let mut c = cart;
        c.add_prg_ram(0x2000);
        c.add_ex_ram(0x400);
        if !c.has_chr() {
            c.add_chr_ram(0x2000);
        }
        proof {
            lemma_mod_multiples_basic(c.header.chr_rom_size as int * 8, 0x400);
            assert(c.header.chr_rom_size as int * 0x2000 == (c.header.chr_rom_size as int * 8)
                * 0x400) by (nonlinear_arith);
        }
        let mirroring = c.header.mirroring;
        let mut prg_regs: Vec<u8> = Vec::new();
        let mut i: usize = 0;
        while i < 5
            invariant
                i <= 5,
                prg_regs@.len() == i,
                forall|j: int| 0 <= j < i ==> prg_regs@[j] == 0u8,
            decreases 5 - i,
        {
            prg_regs.push(0);
            i = i + 1;
        }
        let mut chr_regs: Vec<u8> = Vec::new();
        let mut k: usize = 0;
        while k < 8
            invariant
                k <= 8,
                chr_regs@.len() == k,
                forall|j: int| 0 <= j < k ==> chr_regs@[j] == 0u8,
            decreases 8 - k,
        {
            chr_regs.push(0);
            k = k + 1;
        }
        proof {
            assert(prg_regs@ =~= zero_bytes(5));
            assert(chr_regs@ =~= zero_bytes(8));
        }
        MapperType::Exrom(
            Exrom {
                cart: c,
                prg_mode: 3,
                chr_mode: 3,
                nt_map: 0,
                mirroring,
                prg_regs,
                chr_regs,
                mult_a: 0,
                mult_b: 0,
                irq_target: 0,
                irq_enabled: false,
                irq_pending: false,
                scanline: 0,
            },
        )
    }

    /// Effect of restoring register state from a source.
    pub open spec fn load_state_rel(
        pre: Exrom,
        post: Exrom,
        data: Seq<u8>,
        pos: int,
        r: Result<usize, StateError>,
    ) -> bool {
        match r {
            Ok(np) => {
                &&& ex_dec(data, pos) matches Ok(s)
                &&& np == pos + 23
                &&& post.state() == s
                &&& cart_eq(pre.cart, post.cart)
            },
            Err(e) => {
                &&& post == pre
                &&& ex_dec(data, pos) matches Err(e2) && e2 == e
            },
        }
    }

    /// Resolves the CHR physical offset for a pattern-table address.
    fn chr_offset(&self, addr: u16) -> (r: usize)
        requires
            self.inv_spec(),
            addr < 0x2000,
        ensures
            r == (self.chr_layout()[(addr as int) / 0x400] % self.chr_total()) * 0x400 + (addr
                & 0x3FF),
            r < self.cart.spec_chr_len(),
    {
        let len: usize = self.cart.chr_len();
        let total: usize = len / 0x400;
        let idx: usize = (addr / 0x400) as usize;
        let raw: usize = if self.chr_mode == 0 {
            8 * (self.chr_regs[7] as usize) + idx
        } else if self.chr_mode == 1 {
            if idx < 4 {
                4 * (self.chr_regs[3] as usize) + idx
            } else {
                4 * (self.chr_regs[7] as usize) + (idx - 4)
            }
        } else if self.chr_mode == 2 {
            2 * (self.chr_regs[2 * (idx / 2) + 1] as usize) + idx % 2
        } else {
            self.chr_regs[idx] as usize
        };
        proof {
            assert(idx < 8);
            assert(raw as int == self.chr_layout()[idx as int]);
            assert((addr & 0x3FF) == addr % 0x400) by (bit_vector);
        }
        let bank: usize = raw % total;
        proof {
            lemma_bank_offset_in_store(len as int, 0x400, bank as int, (addr % 0x400) as int);
        }
        bank * 0x400 + (addr % 0x400) as usize
    }

    /// Resolves the PRG-ROM physical offset for a CPU address.
    fn prg_offset(&self, addr: u16) -> (r: usize)
        requires
            self.inv_spec(),
            addr >= 0x8000,
        ensures
            r == (self.prg_layout()[(addr - 0x8000) / 0x2000] % self.prg_total()) * 0x2000 + (addr
                - 0x8000) % 0x2000,
            r < self.cart.prg_rom@.len(),
    {
        let len: usize = self.cart.prg_rom.len();
        proof {
            lemma_mod_multiples_basic(self.cart.header.prg_rom_size as int * 2, 0x2000);
            assert(self.cart.header.prg_rom_size as int * 0x4000 == (
            self.cart.header.prg_rom_size as int * 2) * 0x2000) by (nonlinear_arith);
        }
        let total: usize = len / 0x2000;
        let idx: usize = ((addr - 0x8000) / 0x2000) as usize;
        let raw: usize = if self.prg_mode == 0 {
            (self.prg_regs[4] & 0x7C) as usize + idx
        } else if self.prg_mode == 1 {
            if idx < 2 {
                (self.prg_regs[2] & 0x7E) as usize + idx
            } else {
                (self.prg_regs[4] & 0x7E) as usize + (idx - 2)
            }
        } else if self.prg_mode == 2 {
            if idx < 2 {
                (self.prg_regs[2] & 0x7E) as usize + idx
            } else {
                (self.prg_regs[idx + 1] & 0x7F) as usize
            }
        } else {
            (self.prg_regs[idx + 1] & 0x7F) as usize
        };
        proof {
            assert(idx < 4);
            assert(raw as int == self.prg_layout()[idx as int]);
        }
        let bank: usize = raw % total;
        let off: usize = ((addr - 0x8000) % 0x2000) as usize;
        proof {
            lemma_bank_offset_in_store(len as int, 0x2000, bank as int, off as int);
        }
        bank * 0x2000 + off
    }
}

/// Decoding a well-formed board's own save state restores exactly its
/// register state: saving and then loading round-trips.
pub proof fn lemma_exrom_roundtrip(e: Exrom)
    requires
        e.inv_spec(),
    ensures
        ex_dec(e.spec_save(), 0) matches Ok(s) && s == e.state(),
{
    lemma_exrom_state_roundtrip(e.state());
}

impl Mapper for Exrom {
    open spec fn inv(&self) -> bool {
        self.inv_spec()
    }

    fn readb(&mut self, addr: u16) -> (r: u8)
        ensures
            Exrom::read_rel(*old(self), *final(self), addr),
            r == old(self).spec_peek(addr),
    {
        let r: u8 = self.peekb(addr);
        if addr == 0x5204 {
            self.irq_pending = false;
        }
        r
    }

    fn peekb(&self, addr: u16) -> (r: u8)
        ensures
            r == self.spec_peek(addr),
    {
        if addr < 0x2000 {
            let o: usize = self.chr_offset(addr);
            if self.cart.chr_rom.len() > 0 {
                self.cart.chr_rom[o]
            } else {
                self.cart.chr_ram[o]
            }
        } else if addr == 0x5204 {
            if self.irq_pending {
                0x80
            } else {
                0
            }
        } else if addr == 0x5205 {
            proof {
                assert(self.mult_a as int * self.mult_b as int <= 255 * 255) by (nonlinear_arith)
                    requires
                        self.mult_a <= 255,
                        self.mult_b <= 255,
                ;
            }
            let p: u32 = self.mult_a as u32 * self.mult_b as u32;
            (p % 256) as u8
        } else if addr == 0x5206 {
            proof {
                assert(self.mult_a as int * self.mult_b as int <= 255 * 255) by (nonlinear_arith)
                    requires
                        self.mult_a <= 255,
                        self.mult_b <= 255,
                ;
            }
            let p: u32 = self.mult_a as u32 * self.mult_b as u32;
            (p / 256) as u8
        } else if 0x5C00 <= addr && addr < 0x6000 {
            proof {
                assert((addr & 0x3FF) < 0x400) by (bit_vector);
            }
            self.cart.ex_ram[(addr & 0x3FF) as usize]
        } else if 0x6000 <= addr && addr < 0x8000 {
            self.cart.prg_ram[(addr - 0x6000) as usize]
        } else if addr >= 0x8000 {
            let o: usize = self.prg_offset(addr);
            self.cart.prg_rom[o]
        } else {
            0
        }
    }

    fn writeb(&mut self, addr: u16, val: u8)
        ensures
            Exrom::write_rel(*old(self), *final(self), addr, val),
    {
        if addr < 0x2000 {
            if self.cart.chr_rom.len() == 0 {
                let o: usize = self.chr_offset(addr);
                self.cart.chr_ram.set(o, val);
            }
        } else if addr == 0x5100 {
            proof {
                assert(val & 3 <= 3) by (bit_vector);
            }
            self.prg_mode = val & 3;
        } else if addr == 0x5101 {
            proof {
                assert(val & 3 <= 3) by (bit_vector);
            }
            self.chr_mode = val & 3;
        } else if addr == 0x5105 {
            self.nt_map = val;
            if val == 0x00 {
                self.mirroring = Mirroring::SingleScreenA;
            } else if val == 0x55 {
                self.mirroring = Mirroring::SingleScreenB;
            } else if val == 0x44 {
                self.mirroring = Mirroring::Vertical;
            } else if val == 0x50 {
                self.mirroring = Mirroring::Horizontal;
            }
        } else if 0x5113 <= addr && addr <= 0x5117 {
            self.prg_regs.set((addr - 0x5113) as usize, val);
        } else if 0x5120 <= addr && addr <= 0x5127 {
            self.chr_regs.set((addr - 0x5120) as usize, val);
        } else if addr == 0x5203 {
            self.irq_target = val;
        } else if addr == 0x5204 {
            self.irq_enabled = val & 0x80 != 0;
        } else if addr == 0x5205 {
            self.mult_a = val;
        } else if addr == 0x5206 {
            self.mult_b = val;
        } else if 0x5C00 <= addr && addr < 0x6000 {
            proof {
                assert((addr & 0x3FF) < 0x400) by (bit_vector);
            }
            self.cart.ex_ram.set((addr & 0x3FF) as usize, val);
        } else if 0x6000 <= addr && addr < 0x8000 {
            self.cart.prg_ram.set((addr - 0x6000) as usize, val);
        }
    }

    fn clock(&mut self)
        ensures
            Exrom::step_rel(*old(self), *final(self)),
    {
        let next: u8 = if self.scanline == 255 {
            0
        } else {
            self.scanline + 1
        };
        if next == self.irq_target && self.irq_target != 0 && self.irq_enabled {
            self.irq_pending = true;
        }
        self.scanline = next;
    }

    fn irq_pending(&mut self) -> (r: bool)
        ensures
            r == old(self).irq_pending,
    {
        self.irq_pending
    }

    fn mirroring(&self) -> (r: Mirroring)
        ensures
            r == self.mirroring,
    {
        self.mirroring
    }

    fn battery_backed(&self) -> (r: bool)
        ensures
            r == self.cart.header.has_battery,
    {
        self.cart.header.has_battery
    }

    fn save(&self, out: &mut Vec<u8>)
        ensures
            final(out)@ == old(out)@ + self.spec_save(),
    {
        out.push(self.prg_mode);
        out.push(self.chr_mode);
        out.push(self.nt_map);
        self.mirroring.save(out);
        out.push(self.prg_regs[0]);
        out.push(self.prg_regs[1]);
        out.push(self.prg_regs[2]);
        out.push(self.prg_regs[3]);
        out.push(self.prg_regs[4]);
        out.push(self.chr_regs[0]);
        out.push(self.chr_regs[1]);
        out.push(self.chr_regs[2]);
        out.push(self.chr_regs[3]);
        out.push(self.chr_regs[4]);
        out.push(self.chr_regs[5]);
        out.push(self.chr_regs[6]);
        out.push(self.chr_regs[7]);
        out.push(self.mult_a);
        out.push(self.mult_b);
        out.push(self.irq_target);
        out.push(if self.irq_enabled {
            1
        } else {
            0
        });
        out.push(if self.irq_pending {
            1
        } else {
            0
        });
        out.push(self.scanline);
        proof {
            assert(out@ =~= old(out)@ + self.spec_save());
        }
    }

    fn load(&mut self, data: &Vec<u8>, pos: usize) -> (r: Result<usize, StateError>)
        ensures
            Exrom::load_state_rel(*old(self), *final(self), data@, pos as int, r),
    {
        let n: usize = data.len();
        if pos >= n || n - pos < 23 {
            return Err(StateError::UnexpectedEnd);
        }
        let mut m: Mirroring = self.mirroring;
        match m.load(data, pos + 3) {
            Ok(_) => {},
            Err(e) => {
                return Err(e);
            },
        }
        let pm: u8 = data[pos];
        let cm: u8 = data[pos + 1];
        proof {
            assert(pm & 3 <= 3) by (bit_vector);
            assert(cm & 3 <= 3) by (bit_vector);
        }
        self.prg_mode = pm & 3;
        self.chr_mode = cm & 3;
        self.nt_map = data[pos + 2];
        self.mirroring = m;
        let mut pr: Vec<u8> = Vec::new();
        pr.push(data[pos + 4]);
        pr.push(data[pos + 5]);
        pr.push(data[pos + 6]);
        pr.push(data[pos + 7]);
        pr.push(data[pos + 8]);
        proof {
            assert(pr@ =~= data@.subrange(pos + 4, pos + 9));
        }
        self.prg_regs = pr;
        let mut cr: Vec<u8> = Vec::new();
        cr.push(data[pos + 9]);
        cr.push(data[pos + 10]);
        cr.push(data[pos + 11]);
        cr.push(data[pos + 12]);
        cr.push(data[pos + 13]);
        cr.push(data[pos + 14]);
        cr.push(data[pos + 15]);
        cr.push(data[pos + 16]);
        proof {
            assert(cr@ =~= data@.subrange(pos + 9, pos + 17));
        }
        self.chr_regs = cr;
        self.mult_a = data[pos + 17];
        self.mult_b = data[pos + 18];
        self.irq_target = data[pos + 19];
        self.irq_enabled = read_flag(data, pos + 20);
        self.irq_pending = read_flag(data, pos + 21);
        self.scanline = data[pos + 22];
        proof {
            let d = ex_dec(data@, pos as int);
            assert(d matches Ok(s) && self.state() =~= s);
        }
        Ok(pos + 23)
    }
}

} // verus!
