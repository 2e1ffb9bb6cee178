//! Cartridge data handed to a mapper by the ROM-loading collaborator.
//!
//! The container format is parsed elsewhere; a mapper receives the already
//! extracted header fields and raw memory regions and owns them exclusively
//! for the rest of the session.

use vstd::prelude::*;
use crate::mapper::Mirroring;

verus! {

/// Parsed header fields of a cartridge image.
#[derive(Debug)]
pub struct CartHeader {
    /// Mapper-chip family number declared by the image.
    pub mapper_num: u16,
    /// PRG-ROM size in 16 KiB units; at least 1 for a valid cartridge.
    pub prg_rom_size: u16,
    /// CHR-ROM size in 8 KiB units; 0 means the board uses CHR-RAM.
    pub chr_rom_size: u16,
    /// Nametable mirroring wired on the board (solder pad hint).
    pub mirroring: Mirroring,
    /// Whether PRG-RAM is battery backed and must persist across sessions.
    pub has_battery: bool,
    /// Whether the board carries its own four-screen nametable RAM.
    pub four_screen: bool,
}

/// A cartridge: header plus raw memory regions.  PRG-RAM, CHR-RAM and
/// four-screen RAM start empty and are allocated by the variant constructor
/// that needs them.
#[derive(Debug)]
pub struct Cartridge {
    pub header: CartHeader,
    pub prg_rom: Vec<u8>,
    pub chr_rom: Vec<u8>,
    pub prg_ram: Vec<u8>,
    pub chr_ram: Vec<u8>,
    pub ex_ram: Vec<u8>,
}

impl Cartridge {
    /// Consistency of the declared sizes with the byte arrays: PRG-ROM is
    /// nonempty and both ROM regions match their declared sizes; a board
    /// with its own four-screen RAM is wired for four-screen mirroring.
    pub open spec fn wf(self) -> bool {
        &&& self.header.prg_rom_size >= 1
        &&& self.prg_rom@.len() == self.header.prg_rom_size as int * 0x4000
        &&& self.chr_rom@.len() == self.header.chr_rom_size as int * 0x2000
        &&& (self.header.four_screen ==> self.header.mirroring == Mirroring::FourScreen)
    }

    /// Size in bytes of the pattern-table backing store: CHR-ROM when the
    /// cartridge has one, CHR-RAM otherwise.
    pub open spec fn spec_chr_len(self) -> int {
        if self.chr_rom@.len() > 0 {
            self.chr_rom@.len() as int
        } else {
            self.chr_ram@.len() as int
        }
    }

    /// Checked constructor for the loader collaborator: accepts exactly the
    /// size-consistent images described by `wf`.
    pub fn new(
        mapper_num: u16,
        prg_rom_size: u16,
        chr_rom_size: u16,
        mirroring: Mirroring,
        has_battery: bool,
        four_screen: bool,
        prg_rom: Vec<u8>,
        chr_rom: Vec<u8>,
    ) -> (r: Option<Cartridge>)
        ensures
            r matches Some(c) ==> {
                &&& c.wf()
                &&& c.header.mapper_num == mapper_num
                &&& c.header.prg_rom_size == prg_rom_size
                &&& c.header.chr_rom_size == chr_rom_size
                &&& c.header.mirroring == mirroring
                &&& c.header.has_battery == has_battery
                &&& c.header.four_screen == four_screen
                &&& c.prg_rom@ == prg_rom@
                &&& c.chr_rom@ == chr_rom@
                &&& c.prg_ram@.len() == 0
                &&& c.chr_ram@.len() == 0
                &&& c.ex_ram@.len() == 0
            },
            r is None <==> {
                ||| prg_rom_size < 1
                ||| prg_rom@.len() != prg_rom_size as int * 0x4000
                ||| chr_rom@.len() != chr_rom_size as int * 0x2000
                ||| (four_screen && mirroring != Mirroring::FourScreen)
            },
    {
        if prg_rom_size < 1 {
            return None;
        }
        if prg_rom.len() != prg_rom_size as usize * 0x4000 {
            return None;
        }
        if chr_rom.len() != chr_rom_size as usize * 0x2000 {
            return None;
        }
        if four_screen && mirroring != Mirroring::FourScreen {
            return None;
        }
        Some(Cartridge {
            header: CartHeader {
                mapper_num,
                prg_rom_size,
                chr_rom_size,
                mirroring,
                has_battery,
                four_screen,
            },
            prg_rom,
            chr_rom,
            prg_ram: Vec::new(),
            chr_ram: Vec::new(),
            ex_ram: Vec::new(),
        })
    }

    /// Whether the cartridge supplies pattern data from CHR-ROM.
    pub fn has_chr(&self) -> (r: bool)
        ensures
            r == (self.chr_rom@.len() > 0),
    {
        self.chr_rom.len() > 0
    }

    /// Size in bytes of the pattern-table backing store.
    pub fn chr_len(&self) -> (r: usize)
        ensures
            r == self.spec_chr_len(),
    {
        if self.chr_rom.len() > 0 {
            self.chr_rom.len()
        } else {
            self.chr_ram.len()
        }
    }

    /// Allocates zero-filled PRG-RAM if the cartridge has none yet.
    pub fn add_prg_ram(&mut self, size: usize)
        ensures
            final(self).header == old(self).header,
            final(self).prg_rom@ == old(self).prg_rom@,
            final(self).chr_rom@ == old(self).chr_rom@,
            final(self).chr_ram@ == old(self).chr_ram@,
            final(self).ex_ram@ == old(self).ex_ram@,
            final(self).prg_ram@ == (if old(self).prg_ram@.len() == 0 {
                zero_bytes(size as nat)
            } else {
                old(self).prg_ram@
            }),
    {
        if self.prg_ram.len() == 0 {
            self.prg_ram = zero_vec(size);
        }
    }

    /// Allocates zero-filled CHR-RAM if the cartridge has none yet.
    pub fn add_chr_ram(&mut self, size: usize)
        ensures
            final(self).header == old(self).header,
            final(self).prg_rom@ == old(self).prg_rom@,
            final(self).chr_rom@ == old(self).chr_rom@,
            final(self).prg_ram@ == old(self).prg_ram@,
            final(self).ex_ram@ == old(self).ex_ram@,
            final(self).chr_ram@ == (if old(self).chr_ram@.len() == 0 {
                zero_bytes(size as nat)
            } else {
                old(self).chr_ram@
            }),
    {
        if self.chr_ram.len() == 0 {
            self.chr_ram = zero_vec(size);
        }
    }

    /// Allocates zero-filled four-screen nametable RAM if none exists yet.
    pub fn add_ex_ram(&mut self, size: usize)
        ensures
            final(self).header == old(self).header,
            final(self).prg_rom@ == old(self).prg_rom@,
            final(self).chr_rom@ == old(self).chr_rom@,
            final(self).prg_ram@ == old(self).prg_ram@,
            final(self).chr_ram@ == old(self).chr_ram@,
            final(self).ex_ram@ == (if old(self).ex_ram@.len() == 0 {
                zero_bytes(size as nat)
            } else {
                old(self).ex_ram@
            }),
    {
        if self.ex_ram.len() == 0 {
            self.ex_ram = zero_vec(size);
        }
    }
}

/// The header and ROM regions of `b` are those of `a`: a mapper never
/// rewrites them, only the RAM regions.
pub open spec fn cart_like(a: Cartridge, b: Cartridge) -> bool {
    &&& b.header == a.header
    &&& b.prg_rom@ == a.prg_rom@
    &&& b.chr_rom@ == a.chr_rom@
}

/// Every region of `b` holds the same bytes as in `a`.
pub open spec fn cart_eq(a: Cartridge, b: Cartridge) -> bool {
    &&& cart_like(a, b)
    &&& b.prg_ram@ == a.prg_ram@
    &&& b.chr_ram@ == a.chr_ram@
    &&& b.ex_ram@ == a.ex_ram@
}

/// A run of `n` zero bytes.
pub open spec fn zero_bytes(n: nat) -> Seq<u8> {
    Seq::new(n, |i: int| 0u8)
}

/// Allocates a zero-filled byte vector.
fn zero_vec(n: usize) -> (r: Vec<u8>)
    ensures
        r@ == zero_bytes(n as nat),
{
    let mut v: Vec<u8> = Vec::new();
    let mut i: usize = 0;
    while i < n
        invariant
            i <= n,
            v@.len() == i,
            forall|j: int| 0 <= j < i ==> v@[j] == 0u8,
        decreases n - i,
    {
        v.push(0);
        i = i + 1;
    }
    proof {
        assert(v@ =~= zero_bytes(n as nat));
    }
    v
}

} // verus!
