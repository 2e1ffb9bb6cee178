//! TxROM / MMC3 (mapper family 4): the hardest state machine here.
//!
//! An 8-entry bank-value table and a bank-select byte drive four 8 KiB PRG
//! windows and eight 1 KiB CHR windows; bit 6 of the select byte swaps the
//! PRG layout and bit 7 the CHR layout.  A scanline counter is clocked by
//! transitions of PPU address bit 12 ("A12") and raises an IRQ when it hits
//! zero, with sub-conditions that differ between silicon revisions.

use vstd::prelude::*;
use vstd::arithmetic::div_mod::lemma_mod_multiples_basic;
use crate::banks::MemBanks;
use crate::cartridge::{cart_eq, cart_like, zero_bytes, Cartridge};
use crate::mapper::{
    flag_byte, hi_byte, lo_byte, mirroring_byte, mirroring_from_byte, push_word, read_flag,
    read_word, word_from, MappedRead, MappedWrite, Mapper, MapperType, Mirroring, ResetKind,
    StateError,
};

verus! {

/// Which MMC3 silicon the board carries; the revisions fire their IRQ on
/// different sub-conditions, and Acclaim's clone clocks on the opposite
/// A12 edge.
#[derive(Debug, Copy, Clone, PartialEq, Eq, Hash, Structural)]
pub enum Mmc3Revision {
    /// Revision A.
    A,
    /// Revisions B and C.
    BC,
    /// Acclaim's MMC3 clone: clocks on the falling edge.
    Acc,
}

/// Byte encoding a revision in a save state.
pub open spec fn revision_byte(r: Mmc3Revision) -> u8 {
    match r {
        Mmc3Revision::A => 0,
        Mmc3Revision::BC => 1,
        Mmc3Revision::Acc => 2,
    }
}

/// Revision denoted by a save-state byte; out-of-range values decode to
/// nothing.
pub open spec fn revision_from_byte(b: u8) -> Option<Mmc3Revision> {
    if b == 0 {
        Some(Mmc3Revision::A)
    } else if b == 1 {
        Some(Mmc3Revision::BC)
    } else if b == 2 {
        Some(Mmc3Revision::Acc)
    } else {
        None
    }
}

/// Decoding a revision byte undoes encoding it.
pub proof fn lemma_revision_roundtrip(r: Mmc3Revision)
    ensures
        revision_from_byte(revision_byte(r)) == Some(r),
{
}

/// The MMC3 register file.
#[derive(Debug)]
pub struct TxRegs {
    /// `$8000`: low 3 bits pick the bank-value entry the next `$8001` write
    /// updates; bit 6 is the PRG layout, bit 7 the CHR layout.
    pub bank_select: u8,
    /// The eight bank values (always 8 entries).
    pub bank_values: Vec<u8>,
    /// `$C000`: value the IRQ counter reloads from.
    pub irq_latch: u8,
    /// The scanline counter itself.
    pub irq_counter: u8,
    /// `$E001` sets, `$E000` clears.
    pub irq_enabled: bool,
    /// `$C001` requests a reload on the next qualifying edge.
    pub irq_reload: bool,
    /// Last sampled level of PPU address bit 12.
    pub last_clock: u16,
}

impl TxRegs {
    /// Power-on register file: everything cleared.
    pub fn new() -> (r: TxRegs)
        ensures
            r.bank_select == 0,
            r.bank_values@ == zero_bytes(8),
            r.irq_latch == 0,
            r.irq_counter == 0,
            r.irq_enabled == false,
            r.irq_reload == false,
            r.last_clock == 0,
    {
        let mut bank_values: Vec<u8> = Vec::new();
        let mut i: usize = 0;
        while i < 8
            invariant
                i <= 8,
                bank_values@.len() == i,
                forall|j: int| 0 <= j < i ==> bank_values@[j] == 0u8,
            decreases 8 - i,
        {
            bank_values.push(0);
            i = i + 1;
        }
        proof {
            assert(bank_values@ =~= zero_bytes(8));
        }
        TxRegs {
            bank_select: 0,
            bank_values,
            irq_latch: 0,
            irq_counter: 0,
            irq_enabled: false,
            irq_reload: false,
            last_clock: 0,
        }
    }
}

/// The IRQ-relevant slice of the register state, as plain values; the spec
/// of one qualifying A12 edge is a function on this.
#[verifier::ext_equal]
pub struct IrqState {
    pub counter: u8,
    pub latch: u8,
    pub enabled: bool,
    pub reload: bool,
    pub pending: bool,
}

/// Effect of one qualifying A12 edge: a zero or reload-pending counter
/// reloads from the latch, any other decrements; the IRQ fires when the new
/// counter is zero, generation is enabled, and (the counter was odd before
/// decrementing, or the silicon is the B/C revision, or a reload was
/// pending).  The reload request is consumed either way.
pub open spec fn irq_step(s: IrqState, rev: Mmc3Revision) -> IrqState {
    let reloaded = s.counter == 0 || s.reload;
    let c2 = if reloaded {
        s.latch
    } else {
        (s.counter - 1) as u8
    };
    let fires = ((s.counter & 1) == 1 || rev == Mmc3Revision::BC || s.reload) && c2 == 0
        && s.enabled;
    IrqState {
        counter: c2,
        latch: s.latch,
        enabled: s.enabled,
        reload: false,
        pending: s.pending || fires,
    }
}

/// `n` qualifying A12 edges in sequence.
pub open spec fn irq_steps(s: IrqState, rev: Mmc3Revision, n: nat) -> IrqState
    decreases n,
{
    if n == 0 {
        s
    } else {
        irq_step(irq_steps(s, rev, (n - 1) as nat), rev)
    }
}

/// With the IRQ enabled, no reload requested and a positive counter value,
/// a run of qualifying A12 edges decrements the counter once per edge, and
/// the IRQ becomes pending exactly on the edge where the counter reaches
/// zero — on every revision.
pub proof fn lemma_irq_countdown(s: IrqState, rev: Mmc3Revision, n: nat)
    requires
        s.enabled,
        !s.reload,
        s.counter > 0,
        n <= s.counter,
    ensures
        irq_steps(s, rev, n).counter == s.counter - n,
        irq_steps(s, rev, n).pending == (s.pending || n == s.counter),
        irq_steps(s, rev, n).reload == false,
        irq_steps(s, rev, n).enabled == s.enabled,
        irq_steps(s, rev, n).latch == s.latch,
    decreases n,
{
    if n > 0 {
        lemma_irq_countdown(s, rev, (n - 1) as nat);
        let t = irq_steps(s, rev, (n - 1) as nat);
        assert(t.counter == s.counter - (n - 1));
        assert(t.counter > 0);
        if t.counter == 1 {
            let cv: u8 = t.counter;
            assert(cv & 1 == 1) by (bit_vector)
                requires
                    cv == 1,
            ;
        } else {
            assert((t.counter - 1) as u8 != 0);
        }
    }
}

/// The TxROM board.
#[derive(Debug)]
pub struct Txrom {
    pub cart: Cartridge,
    pub regs: TxRegs,
    /// Current effective mirroring; writable through `$A000` unless the
    /// board is wired for four-screen mirroring.
    pub mirroring: Mirroring,
    /// Latched IRQ line, cleared by a `$E000` write.
    pub irq_pending: bool,
    pub revision: Mmc3Revision,
    /// Eight 1 KiB CHR windows over `$0000..=$1FFF`.
    pub chr_banks: MemBanks,
    /// One 8 KiB PRG-RAM window over `$6000..=$7FFF`.
    pub prg_ram_banks: MemBanks,
    /// Four 8 KiB PRG-ROM windows over `$8000..=$FFFF`.
    pub prg_rom_banks: MemBanks,
}

impl Txrom {
    /// Well-formedness: consistent cartridge, the three translators sized
    /// and positioned as the hardware wires them, eight bank values, at
    /// least two PRG banks (so the two fixed top windows exist), and
    /// four-screen RAM present whenever four-screen mirroring is active.
    pub open spec fn inv_spec(self) -> bool {
        &&& self.cart.wf()
        &&& self.cart.prg_ram@.len() == 0x2000
        &&& self.regs.bank_values@.len() == 8
        &&& self.chr_banks.inv()
        &&& self.chr_banks.start == 0
        &&& self.chr_banks.end == 0x1FFF
        &&& self.chr_banks.window == 0x400
        &&& self.chr_banks.size == self.cart.spec_chr_len()
        &&& self.prg_ram_banks.inv()
        &&& self.prg_ram_banks.start == 0x6000
        &&& self.prg_ram_banks.end == 0x7FFF
        &&& self.prg_ram_banks.window == 0x2000
        &&& self.prg_ram_banks.size == self.cart.prg_ram@.len()
        &&& self.prg_rom_banks.inv()
        &&& self.prg_rom_banks.start == 0x8000
        &&& self.prg_rom_banks.end == 0xFFFF
        &&& self.prg_rom_banks.window == 0x2000
        &&& self.prg_rom_banks.size == self.cart.prg_rom@.len()
        &&& self.prg_rom_banks.total_banks() >= 2
        &&& (self.mirroring == Mirroring::FourScreen ==> self.cart.ex_ram@.len() == 0x1000)
    }

    /// Pattern-table byte at physical offset `i`.
    pub open spec fn spec_chr_at(self, i: int) -> u8 {
        if self.cart.chr_rom@.len() > 0 {
            self.cart.chr_rom@[i]
        } else {
            self.cart.chr_ram@[i]
        }
    }

    /// Where a bus address maps, as decoded by this board.
    pub open spec fn spec_map_peek(self, addr: u16) -> MappedRead {
        if addr < 0x2000 {
            MappedRead::Chr(self.chr_banks.spec_translate(addr) as usize)
        } else if 0x2000 <= addr <= 0x3EFF {
            if self.mirroring == Mirroring::FourScreen {
                MappedRead::ExRam((addr & 0x0FFF) as usize)
            } else {
                MappedRead::OpenBus
            }
        } else if 0x6000 <= addr < 0x8000 {
            MappedRead::PrgRam(self.prg_ram_banks.spec_translate(addr) as usize)
        } else if addr >= 0x8000 {
            MappedRead::PrgRom(self.prg_rom_banks.spec_translate(addr) as usize)
        } else {
            MappedRead::OpenBus
        }
    }

    /// The byte any read of `addr` returns.
    pub open spec fn spec_peek(self, addr: u16) -> u8 {
        match self.spec_map_peek(addr) {
            MappedRead::Chr(o) => self.spec_chr_at(o as int),
            MappedRead::ExRam(o) => self.cart.ex_ram@[o as int],
            MappedRead::PrgRam(o) => self.cart.prg_ram@[o as int],
            MappedRead::PrgRom(o) => self.cart.prg_rom@[o as int],
            MappedRead::OpenBus => 0,
        }
    }

    /// PRG window layout determined by the register file: the two
    /// switchable 8 KiB windows sit low or high depending on bit 6 of the
    /// bank select, the other two are fixed to the last two banks.
    pub open spec fn prg_layout(self) -> Seq<usize> {
        let last = self.prg_rom_banks.total_banks() - 1;
        let lo = self.regs.bank_values@[6] as usize;
        let hi = self.regs.bank_values@[7] as usize;
        if self.regs.bank_select & 0x40 == 0x40 {
            seq![(last - 1) as usize, hi, lo, last as usize]
        } else {
            seq![lo, hi, (last - 1) as usize, last as usize]
        }
    }

    /// CHR window layout determined by the register file: two 2 KiB pairs
    /// (bank values masked to even indices, hardware ties adjacent banks)
    /// and four 1 KiB windows, swapped between the low and high half by
    /// bit 7 of the bank select.
    pub open spec fn chr_layout(self) -> Seq<usize> {
        let c = self.regs.bank_values@;
        let e0 = (c[0] & 0xFE) as usize;
        let e1 = (c[1] & 0xFE) as usize;
        if self.regs.bank_select & 0x80 == 0x80 {
            seq![
                c[2] as usize,
                c[3] as usize,
                c[4] as usize,
                c[5] as usize,
                e0,
                (e0 + 1) as usize,
                e1,
                (e1 + 1) as usize,
            ]
        } else {
            seq![
                e0,
                (e0 + 1) as usize,
                e1,
                (e1 + 1) as usize,
                c[2] as usize,
                c[3] as usize,
                c[4] as usize,
                c[5] as usize,
            ]
        }
    }

    /// The IRQ-relevant slice of this board's state.
    pub open spec fn irq_state(self) -> IrqState {
        IrqState {
            counter: self.regs.irq_counter,
            latch: self.regs.irq_latch,
            enabled: self.regs.irq_enabled,
            reload: self.regs.irq_reload,
            pending: self.irq_pending,
        }
    }

    /// Level of PPU address bit 12.
    pub open spec fn a12_level(addr: u16) -> u16 {
        (addr >> 12) & 1
    }

    /// Whether a pattern-table address transition is a qualifying A12 edge
    /// for this revision: rising for the standard silicon, falling for the
    /// Acclaim clone.
    pub open spec fn qualifying(self, addr: u16) -> bool {
        &&& addr < 0x2000
        &&& self.regs.last_clock == (if self.revision == Mmc3Revision::Acc {
            1int
        } else {
            0int
        })
        &&& Txrom::a12_level(addr) == (if self.revision == Mmc3Revision::Acc {
            0int
        } else {
            1int
        })
    }

    /// Exactly how watching one bus address changes the board: outside the
    /// pattern tables nothing happens; inside, the A12 level is resampled
    /// and a qualifying edge steps the IRQ state machine.
    pub open spec fn clock_rel(pre: Txrom, post: Txrom, addr: u16) -> bool {
        if addr >= 0x2000 {
            post == pre
        } else {
            &&& post.cart == pre.cart
            &&& post.mirroring == pre.mirroring
            &&& post.revision == pre.revision
            &&& post.chr_banks == pre.chr_banks
            &&& post.prg_ram_banks == pre.prg_ram_banks
            &&& post.prg_rom_banks == pre.prg_rom_banks
            &&& post.regs.bank_select == pre.regs.bank_select
            &&& post.regs.bank_values == pre.regs.bank_values
            &&& post.regs.last_clock == Txrom::a12_level(addr)
            &&& if pre.qualifying(addr) {
                post.irq_state() == irq_step(pre.irq_state(), pre.revision)
            } else {
                &&& post.regs.irq_latch == pre.regs.irq_latch
                &&& post.regs.irq_counter == pre.regs.irq_counter
                &&& post.regs.irq_enabled == pre.regs.irq_enabled
                &&& post.regs.irq_reload == pre.regs.irq_reload
                &&& post.irq_pending == pre.irq_pending
            }
        }
    }

    /// Everything a register write leaves alone: the cartridge bytes, the
    /// revision, and the geometry of the three translators.
    pub open spec fn same_shell(pre: Txrom, post: Txrom) -> bool {
        &&& cart_eq(pre.cart, post.cart)
        &&& post.revision == pre.revision
        &&& post.prg_ram_banks == pre.prg_ram_banks
        &&& post.chr_banks.start == pre.chr_banks.start
        &&& post.chr_banks.end == pre.chr_banks.end
        &&& post.chr_banks.window == pre.chr_banks.window
        &&& post.chr_banks.size == pre.chr_banks.size
        &&& post.prg_rom_banks.start == pre.prg_rom_banks.start
        &&& post.prg_rom_banks.end == pre.prg_rom_banks.end
        &&& post.prg_rom_banks.window == pre.prg_rom_banks.window
        &&& post.prg_rom_banks.size == pre.prg_rom_banks.size
    }

    /// The IRQ registers of `post` equal those of `pre`.
    pub open spec fn irq_regs_eq(pre: Txrom, post: Txrom) -> bool {
        &&& post.regs.irq_latch == pre.regs.irq_latch
        &&& post.regs.irq_counter == pre.regs.irq_counter
        &&& post.regs.irq_enabled == pre.regs.irq_enabled
        &&& post.regs.irq_reload == pre.regs.irq_reload
        &&& post.regs.last_clock == pre.regs.last_clock
        &&& post.irq_pending == pre.irq_pending
    }

    /// The bank registers and window tables of `post` equal those of `pre`.
    pub open spec fn bank_state_eq(pre: Txrom, post: Txrom) -> bool {
        &&& post.regs.bank_select == pre.regs.bank_select
        &&& post.regs.bank_values == pre.regs.bank_values
        &&& post.chr_banks == pre.chr_banks
        &&& post.prg_rom_banks == pre.prg_rom_banks
    }

    /// Effect of a write into the register space `$8000..=$FFFF`.  Hardware
    /// decodes only the bits of mask `$E001`, so each register answers for a
    /// quarter of the range, even and odd addresses apart.
    pub open spec fn reg_write_rel(pre: Txrom, post: Txrom, addr: u16, val: u8) -> bool {
        let masked = addr & 0xE001;
        &&& Txrom::same_shell(pre, post)
        &&& if masked == 0x8000 {
            &&& post.regs.bank_select == val
            &&& post.regs.bank_values@ == pre.regs.bank_values@
            &&& Txrom::irq_regs_eq(pre, post)
            &&& post.mirroring == pre.mirroring
            &&& post.prg_rom_banks.banks@ == post.prg_layout()
            &&& post.chr_banks.banks@ == post.chr_layout()
        } else if masked == 0x8001 {
            &&& post.regs.bank_select == pre.regs.bank_select
            &&& post.regs.bank_values@ == pre.regs.bank_values@.update(
                (pre.regs.bank_select & 0x07) as int,
                val,
            )
            &&& Txrom::irq_regs_eq(pre, post)
            &&& post.mirroring == pre.mirroring
            &&& post.prg_rom_banks.banks@ == post.prg_layout()
            &&& post.chr_banks.banks@ == post.chr_layout()
        } else if masked == 0xA000 {
            if pre.mirroring != Mirroring::FourScreen {
                &&& post.mirroring == (if val & 0x01 == 0 {
                    Mirroring::Vertical
                } else {
                    Mirroring::Horizontal
                })
                &&& post.regs.bank_select == pre.regs.bank_select
                &&& post.regs.bank_values@ == pre.regs.bank_values@
                &&& Txrom::irq_regs_eq(pre, post)
                &&& post.prg_rom_banks.banks@ == post.prg_layout()
                &&& post.chr_banks.banks@ == post.chr_layout()
            } else {
                post == pre
            }
        } else if masked == 0xA001 {
            // RAM protect: reserved, unimplemented (would conflict with MMC6).
            post == pre
        } else if masked == 0xC000 {
            &&& Txrom::bank_state_eq(pre, post)
            &&& post.mirroring == pre.mirroring
            &&& post.regs.irq_latch == val
            &&& post.regs.irq_counter == pre.regs.irq_counter
            &&& post.regs.irq_enabled == pre.regs.irq_enabled
            &&& post.regs.irq_reload == pre.regs.irq_reload
            &&& post.regs.last_clock == pre.regs.last_clock
            &&& post.irq_pending == pre.irq_pending
        } else if masked == 0xC001 {
            &&& Txrom::bank_state_eq(pre, post)
            &&& post.mirroring == pre.mirroring
            &&& post.regs.irq_latch == pre.regs.irq_latch
            &&& post.regs.irq_counter == pre.regs.irq_counter
            &&& post.regs.irq_enabled == pre.regs.irq_enabled
            &&& post.regs.irq_reload == true
            &&& post.regs.last_clock == pre.regs.last_clock
            &&& post.irq_pending == pre.irq_pending
        } else if masked == 0xE000 {
            &&& Txrom::bank_state_eq(pre, post)
            &&& post.mirroring == pre.mirroring
            &&& post.regs.irq_latch == pre.regs.irq_latch
            &&& post.regs.irq_counter == pre.regs.irq_counter
            &&& post.regs.irq_enabled == false
            &&& post.regs.irq_reload == pre.regs.irq_reload
            &&& post.regs.last_clock == pre.regs.last_clock
            &&& post.irq_pending == false
        } else if masked == 0xE001 {
            &&& Txrom::bank_state_eq(pre, post)
            &&& post.mirroring == pre.mirroring
            &&& post.regs.irq_latch == pre.regs.irq_latch
            &&& post.regs.irq_counter == pre.regs.irq_counter
            &&& post.regs.irq_enabled == true
            &&& post.regs.irq_reload == pre.regs.irq_reload
            &&& post.regs.last_clock == pre.regs.last_clock
            &&& post.irq_pending == pre.irq_pending
        } else {
            post == pre
        }
    }

    /// Exactly how a write changes the board: CHR-RAM, four-screen RAM and
    /// PRG-RAM accept bytes; the register space decodes per `reg_write_rel`;
    /// everything else ignores the write.
    pub open spec fn write_rel(pre: Txrom, post: Txrom, addr: u16, val: u8) -> bool {
        if addr < 0x2000 {
            if pre.cart.chr_rom@.len() == 0 {
                &&& cart_like(pre.cart, post.cart)
                &&& post.cart.prg_ram@ == pre.cart.prg_ram@
                &&& post.cart.chr_ram@ == pre.cart.chr_ram@.update(
                    pre.chr_banks.spec_translate(addr),
                    val,
                )
                &&& post.cart.ex_ram@ == pre.cart.ex_ram@
                &&& Txrom::non_cart_eq(pre, post)
            } else {
                post == pre
            }
        } else if 0x2000 <= addr <= 0x3EFF {
            if pre.mirroring == Mirroring::FourScreen {
                &&& cart_like(pre.cart, post.cart)
                &&& post.cart.prg_ram@ == pre.cart.prg_ram@
                &&& post.cart.chr_ram@ == pre.cart.chr_ram@
                &&& post.cart.ex_ram@ == pre.cart.ex_ram@.update((addr & 0x0FFF) as int, val)
                &&& Txrom::non_cart_eq(pre, post)
            } else {
                post == pre
            }
        } else if 0x6000 <= addr < 0x8000 {
            &&& cart_like(pre.cart, post.cart)
            &&& post.cart.prg_ram@ == pre.cart.prg_ram@.update(
                pre.prg_ram_banks.spec_translate(addr),
                val,
            )
            &&& post.cart.chr_ram@ == pre.cart.chr_ram@
            &&& post.cart.ex_ram@ == pre.cart.ex_ram@
            &&& Txrom::non_cart_eq(pre, post)
        } else if addr >= 0x8000 {
            Txrom::reg_write_rel(pre, post, addr, val)
        } else {
            post == pre
        }
    }

    /// Everything outside the cartridge bytes is unchanged.
    pub open spec fn non_cart_eq(pre: Txrom, post: Txrom) -> bool {
        &&& post.regs == pre.regs
        &&& post.mirroring == pre.mirroring
        &&& post.irq_pending == pre.irq_pending
        &&& post.revision == pre.revision
        &&& post.chr_banks == pre.chr_banks
        &&& post.prg_ram_banks == pre.prg_ram_banks
        &&& post.prg_rom_banks == pre.prg_rom_banks
    }

    /// How `load` augments the cartridge and initialises the board: cleared
    /// registers, the header's mirroring, the B/C revision until configured
    /// otherwise, and the two top PRG windows pinned to the last two banks.
    pub open spec fn load_rel(cart: Cartridge, post: Txrom) -> bool {
        &&& cart_like(cart, post.cart)
        &&& post.cart.prg_ram@ == (if cart.prg_ram@.len() == 0 {
            zero_bytes(0x2000)
        } else {
            cart.prg_ram@
        })
        &&& post.cart.chr_ram@ == (if cart.chr_rom@.len() == 0 && cart.chr_ram@.len() == 0 {
            zero_bytes(0x2000)
        } else {
            cart.chr_ram@
        })
        &&& post.cart.ex_ram@ == (if cart.header.mirroring == Mirroring::FourScreen
            && cart.ex_ram@.len() == 0 {
            zero_bytes(0x1000)
        } else {
            cart.ex_ram@
        })
        &&& post.regs.bank_select == 0
        &&& post.regs.bank_values@ == zero_bytes(8)
        &&& post.regs.irq_latch == 0
        &&& post.regs.irq_counter == 0
        &&& post.regs.irq_enabled == false
        &&& post.regs.irq_reload == false
        &&& post.regs.last_clock == 0
        &&& post.mirroring == cart.header.mirroring
        &&& post.irq_pending == false
        &&& post.revision == Mmc3Revision::BC
        &&& post.chr_banks.banks@ == Seq::new(8, |i: int| 0usize)
        &&& post.prg_ram_banks.banks@ == Seq::new(1, |i: int| 0usize)
        &&& post.prg_rom_banks.banks@ == seq![
            0usize,
            0usize,
            (post.prg_rom_banks.total_banks() - 2) as usize,
            (post.prg_rom_banks.total_banks() - 1) as usize,
        ]
    }

    /// Builds a TxROM board: PRG-RAM, CHR-RAM and four-screen RAM are
    /// allocated as needed, and the two top PRG windows are fixed to the
    /// last two banks.
    pub fn load(cart: Cartridge) -> (r: MapperType)
        requires
            cart.wf(),
            cart.prg_ram@.len() == 0 || cart.prg_ram@.len() == 0x2000,
            cart.chr_rom@.len() == 0 ==> cart.chr_ram@.len() == 0 || (cart.chr_ram@.len() > 0
                && cart.chr_ram@.len() % 0x400 == 0),
            cart.ex_ram@.len() == 0 || cart.ex_ram@.len() == 0x1000,
        ensures
            r matches MapperType::Txrom(t) && t.inv_spec() && Txrom::load_rel(cart, t),
    {
        let mut c = cart;
        c.add_prg_ram(0x2000);
        if c.header.mirroring == Mirroring::FourScreen {
            c.add_ex_ram(0x1000);
        }
        if !c.has_chr() {
            c.add_chr_ram(0x2000);
        }
        proof {
            lemma_mod_multiples_basic(c.header.chr_rom_size as int * 8, 0x400);
            assert(c.header.chr_rom_size as int * 0x2000 == (c.header.chr_rom_size as int * 8)
                * 0x400) by (nonlinear_arith);
            lemma_mod_multiples_basic(c.header.prg_rom_size as int * 2, 0x2000);
            assert(c.header.prg_rom_size as int * 0x4000 == (c.header.prg_rom_size as int * 2)
                * 0x2000) by (nonlinear_arith);
        }
        let chr_len: usize = c.chr_len();
        let prg_ram_len: usize = c.prg_ram.len();
        let prg_rom_len: usize = c.prg_rom.len();
        let chr_banks = MemBanks::new(0x0000, 0x1FFF, chr_len, 0x400);
        let prg_ram_banks = MemBanks::new(0x6000, 0x7FFF, prg_ram_len, 0x2000);
        let mut prg_rom_banks = MemBanks::new(0x8000, 0xFFFF, prg_rom_len, 0x2000);
        let last: usize = prg_rom_banks.last();
        prg_rom_banks.set(2, last - 1);
        prg_rom_banks.set(3, last);
        let mirroring = c.header.mirroring;
        let txrom = Txrom {
            cart: c,
            regs: TxRegs::new(),
            mirroring,
            irq_pending: false,
            revision: Mmc3Revision::BC,
            chr_banks,
            prg_ram_banks,
            prg_rom_banks,
        };
        proof {
            assert(txrom.chr_banks.banks@ =~= Seq::new(8, |i: int| 0usize));
            assert(txrom.prg_ram_banks.banks@ =~= Seq::new(1, |i: int| 0usize));
            assert(txrom.prg_rom_banks.banks@ =~= seq![
                0usize,
                0usize,
                (txrom.prg_rom_banks.total_banks() - 2) as usize,
                (txrom.prg_rom_banks.total_banks() - 1) as usize,
            ]);
        }
        MapperType::Txrom(txrom)
    }

    /// Selects which silicon revision's IRQ quirks to emulate.  Revision
    /// detection from ROM metadata is unspecified, so it is an explicit
    /// configuration input.
    pub fn set_revision(&mut self, revision: Mmc3Revision)
        requires
            old(self).inv_spec(),
        ensures
            final(self).inv_spec(),
            final(self).revision == revision,
            final(self).cart == old(self).cart,
            final(self).regs == old(self).regs,
            final(self).mirroring == old(self).mirroring,
            final(self).irq_pending == old(self).irq_pending,
            final(self).chr_banks == old(self).chr_banks,
            final(self).prg_ram_banks == old(self).prg_ram_banks,
            final(self).prg_rom_banks == old(self).prg_rom_banks,
    {
        self.revision = revision;
    }

    /// Recomputes every PRG and CHR window slot from the eight bank values
    /// and the two mode bits of the bank select.
    pub fn update_banks(&mut self)
        requires
            old(self).inv_spec(),
        ensures
            final(self).inv_spec(),
            final(self).cart == old(self).cart,
            final(self).regs == old(self).regs,
            final(self).mirroring == old(self).mirroring,
            final(self).irq_pending == old(self).irq_pending,
            final(self).revision == old(self).revision,
            final(self).prg_ram_banks == old(self).prg_ram_banks,
            Txrom::same_shell(*old(self), *final(self)),
            final(self).prg_rom_banks.banks@ == final(self).prg_layout(),
            final(self).chr_banks.banks@ == final(self).chr_layout(),
    {
        let prg_last: usize = self.prg_rom_banks.last();
        let prg_lo: usize = self.regs.bank_values[6] as usize;
        let prg_hi: usize = self.regs.bank_values[7] as usize;
        if self.regs.bank_select & 0x40 == 0x40 {
            self.prg_rom_banks.set(0, prg_last - 1);
            self.prg_rom_banks.set(1, prg_hi);
            self.prg_rom_banks.set(2, prg_lo);
        } else {
            self.prg_rom_banks.set(0, prg_lo);
            self.prg_rom_banks.set(1, prg_hi);
            self.prg_rom_banks.set(2, prg_last - 1);
        }
        self.prg_rom_banks.set(3, prg_last);
        proof {
            assert(self.prg_rom_banks.banks@ =~= self.prg_layout());
        }

        let c2: usize = self.regs.bank_values[2] as usize;
        let c3: usize = self.regs.bank_values[3] as usize;
        let c4: usize = self.regs.bank_values[4] as usize;
        let c5: usize = self.regs.bank_values[5] as usize;
        let e0: usize = (self.regs.bank_values[0] & 0xFE) as usize;
        let e1: usize = (self.regs.bank_values[1] & 0xFE) as usize;
        if self.regs.bank_select & 0x80 == 0x80 {
            self.chr_banks.set(0, c2);
            self.chr_banks.set(1, c3);
            self.chr_banks.set(2, c4);
            self.chr_banks.set(3, c5);
            self.chr_banks.set_range(4, 5, e0);
            self.chr_banks.set_range(6, 7, e1);
        } else {
            self.chr_banks.set_range(0, 1, e0);
            self.chr_banks.set_range(2, 3, e1);
            self.chr_banks.set(4, c2);
            self.chr_banks.set(5, c3);
            self.chr_banks.set(6, c4);
            self.chr_banks.set(7, c5);
        }
        proof {
            assert(self.chr_banks.banks@ =~= self.chr_layout());
        }
    }

    /// Samples one PPU address transition and clocks the IRQ counter on a
    /// qualifying A12 edge.
    pub fn clock_irq(&mut self, addr: u16)
        requires
            old(self).inv_spec(),
        ensures
            final(self).inv_spec(),
            Txrom::clock_rel(*old(self), *final(self), addr),
    {
        if addr < 0x2000 {
            let next_clock: u16 = (addr >> 12) & 1;
            let last_level: u16 = if self.revision == Mmc3Revision::Acc {
                1
            } else {
                0
            };
            let next_level: u16 = if self.revision == Mmc3Revision::Acc {
                0
            } else {
                1
            };
            if self.regs.last_clock == last_level && next_clock == next_level {
                let counter: u8 = self.regs.irq_counter;
                if counter == 0 || self.regs.irq_reload {
                    self.regs.irq_counter = self.regs.irq_latch;
                } else {
                    self.regs.irq_counter = counter - 1;
                }
                if (counter & 0x01 == 0x01 || self.revision == Mmc3Revision::BC
                    || self.regs.irq_reload) && self.regs.irq_counter == 0
                    && self.regs.irq_enabled {
                    self.irq_pending = true;
                }
                self.regs.irq_reload = false;
            }
            self.regs.last_clock = next_clock;
        }
    }

    /// Where a bus address maps, without side effects.
    pub fn map_peek(&self, addr: u16) -> (r: MappedRead)
        requires
            self.inv_spec(),
        ensures
            r == self.spec_map_peek(addr),
    {
        if addr < 0x2000 {
            MappedRead::Chr(self.chr_banks.translate(addr))
        } else if addr <= 0x3EFF {
            if self.mirroring == Mirroring::FourScreen {
                MappedRead::ExRam((addr & 0x0FFF) as usize)
            } else {
                MappedRead::OpenBus
            }
        } else if 0x6000 <= addr && addr < 0x8000 {
            MappedRead::PrgRam(self.prg_ram_banks.translate(addr))
        } else if addr >= 0x8000 {
            MappedRead::PrgRom(self.prg_rom_banks.translate(addr))
        } else {
            MappedRead::OpenBus
        }
    }

    /// Where a bus address maps; reading clocks the IRQ counter, since a
    /// pattern-table fetch is an A12 transition.
    pub fn map_read(&mut self, addr: u16) -> (r: MappedRead)
        requires
            old(self).inv_spec(),
        ensures
            final(self).inv_spec(),
            Txrom::clock_rel(*old(self), *final(self), addr),
            r == old(self).spec_map_peek(addr),
    {
        self.clock_irq(addr);
        self.map_peek(addr)
    }

    /// Decodes a write: RAM regions report the target offset back, register
    /// writes are applied to the board and report nothing.
    pub fn map_write(&mut self, addr: u16, val: u8) -> (r: MappedWrite)
        requires
            old(self).inv_spec(),
        ensures
            final(self).inv_spec(),
            addr < 0x2000 ==> *final(self) == *old(self) && r == MappedWrite::Chr(
                old(self).chr_banks.spec_translate(addr) as usize,
                val,
            ),
            0x2000 <= addr <= 0x3EFF ==> *final(self) == *old(self) && r == (if old(
                self,
            ).mirroring == Mirroring::FourScreen {
                MappedWrite::ExRam((addr & 0x0FFF) as usize, val)
            } else {
                MappedWrite::OpenBus
            }),
            0x3F00 <= addr < 0x6000 ==> *final(self) == *old(self) && r == MappedWrite::OpenBus,
            0x6000 <= addr < 0x8000 ==> *final(self) == *old(self) && r == MappedWrite::PrgRam(
                old(self).prg_ram_banks.spec_translate(addr) as usize,
                val,
            ),
            addr >= 0x8000 ==> Txrom::reg_write_rel(*old(self), *final(self), addr, val) && r
                == MappedWrite::OpenBus,
    {
        if addr < 0x2000 {
            MappedWrite::Chr(self.chr_banks.translate(addr), val)
        } else if addr <= 0x3EFF {
            if self.mirroring == Mirroring::FourScreen {
                MappedWrite::ExRam((addr & 0x0FFF) as usize, val)
            } else {
                MappedWrite::OpenBus
            }
        } else if addr < 0x6000 {
            MappedWrite::OpenBus
        } else if addr < 0x8000 {
            MappedWrite::PrgRam(self.prg_ram_banks.translate(addr), val)
        } else {
            let masked: u16 = addr & 0xE001;
            proof {
                assert(masked == 0x8000 || masked == 0x8001 || masked == 0xA000 || masked == 0xA001
                    || masked == 0xC000 || masked == 0xC001 || masked == 0xE000 || masked
                    == 0xE001) by (bit_vector)
                    requires
                        masked == addr & 0xE001,
                        addr >= 0x8000,
                ;
            }
            if masked == 0x8000 {
                self.regs.bank_select = val;
                self.update_banks();
            } else if masked == 0x8001 {
                let sel: u8 = self.regs.bank_select;
                let bank: u8 = sel & 0x07;
                proof {
                    assert((sel & 0x07) < 8) by (bit_vector);
                }
                self.regs.bank_values.set(bank as usize, val);
                self.update_banks();
            } else if masked == 0xA000 {
                if self.mirroring != Mirroring::FourScreen {
                    self.mirroring = if val & 0x01 == 0 {
                        Mirroring::Vertical
                    } else {
                        Mirroring::Horizontal
                    };
                    self.update_banks();
                }
            } else if masked == 0xA001 {
                // RAM protect: reserved, unimplemented (would conflict with MMC6).
            } else if masked == 0xC000 {
                self.regs.irq_latch = val;
            } else if masked == 0xC001 {
                self.regs.irq_reload = true;
            } else if masked == 0xE000 {
                self.irq_pending = false;
                self.regs.irq_enabled = false;
            } else {
                self.regs.irq_enabled = true;
            }
            MappedWrite::OpenBus
        }
    }
}

/// The mutable register state a TxROM save state carries, as plain values.
#[verifier::ext_equal]
pub struct TxState {
    pub mirroring: Mirroring,
    pub irq_pending: bool,
    pub revision: Mmc3Revision,
    pub bank_select: u8,
    pub bank_values: Seq<u8>,
    pub irq_latch: u8,
    pub irq_counter: u8,
    pub irq_enabled: bool,
    pub irq_reload: bool,
    pub last_clock: u16,
}

/// Canonical 18-byte encoding of a TxROM register state: mirroring,
/// IRQ line, revision, bank select, the eight bank values, then the IRQ
/// registers, with the A12 level last as a little-endian word.
pub open spec fn tx_enc(s: TxState) -> Seq<u8> {
    seq![
        mirroring_byte(s.mirroring),
        flag_byte(s.irq_pending),
        revision_byte(s.revision),
        s.bank_select,
    ] + s.bank_values + seq![
        s.irq_latch,
        s.irq_counter,
        flag_byte(s.irq_enabled),
        flag_byte(s.irq_reload),
        lo_byte(s.last_clock),
        hi_byte(s.last_clock),
    ]
}

/// Register state denoted by a save-state source at `pos`.  Decoding fails
/// on a short source, an out-of-range mirroring or revision byte, and on a
/// four-screen mode that the board (`four_screen_ok`) cannot hold.
pub open spec fn tx_dec(data: Seq<u8>, pos: int, four_screen_ok: bool) -> Result<
    TxState,
    StateError,
> {
    if pos < 0 || data.len() < pos + 18 {
        Err(StateError::UnexpectedEnd)
    } else if mirroring_from_byte(data[pos]) is None {
        Err(StateError::InvalidMirroring(data[pos]))
    } else if data[pos] == 4 && !four_screen_ok {
        Err(StateError::InvalidMirroring(data[pos]))
    } else if revision_from_byte(data[pos + 2]) is None {
        Err(StateError::InvalidRevision(data[pos + 2]))
    } else {
        Ok(
            TxState {
                mirroring: mirroring_from_byte(data[pos])->0,
                irq_pending: data[pos + 1] != 0,
                revision: revision_from_byte(data[pos + 2])->0,
                bank_select: data[pos + 3],
                bank_values: data.subrange(pos + 4, pos + 12),
                irq_latch: data[pos + 12],
                irq_counter: data[pos + 13],
                irq_enabled: data[pos + 14] != 0,
                irq_reload: data[pos + 15] != 0,
                last_clock: word_from(data[pos + 16], data[pos + 17]),
            },
        )
    }
}

/// Decoding a TxROM save state undoes encoding it: every register state a
/// board can hold round-trips bit for bit.
pub proof fn lemma_txrom_state_roundtrip(s: TxState, four_screen_ok: bool)
    requires
        s.bank_values.len() == 8,
        s.mirroring == Mirroring::FourScreen ==> four_screen_ok,
    ensures
        tx_dec(tx_enc(s), 0, four_screen_ok) matches Ok(s2) && s2 == s,
{
    let data = tx_enc(s);
    assert(data.len() == 18);
    crate::mapper::lemma_mirroring_roundtrip(s.mirroring);
    lemma_revision_roundtrip(s.revision);
    crate::mapper::lemma_word_roundtrip(s.last_clock);
    assert(data[0] == mirroring_byte(s.mirroring));
    assert(data[2] == revision_byte(s.revision));
    assert(data.subrange(4, 12) =~= s.bank_values);
    assert(tx_dec(data, 0, four_screen_ok) matches Ok(s2) && s2 =~= s);
}

/// A well-formed board's own save state always decodes, and decodes to
/// exactly the board's register state: saving and then loading restores it.
pub proof fn lemma_txrom_roundtrip(t: Txrom)
    requires
        t.inv_spec(),
    ensures
        tx_dec(t.spec_save(), 0, t.cart.ex_ram@.len() == 0x1000) matches Ok(s) && s == t.state(),
{
    lemma_txrom_state_roundtrip(t.state(), t.cart.ex_ram@.len() == 0x1000);
}

impl Txrom {
    /// The register state this board would save.
    pub open spec fn state(self) -> TxState {
        TxState {
            mirroring: self.mirroring,
            irq_pending: self.irq_pending,
            revision: self.revision,
            bank_select: self.regs.bank_select,
            bank_values: self.regs.bank_values@,
            irq_latch: self.regs.irq_latch,
            irq_counter: self.regs.irq_counter,
            irq_enabled: self.regs.irq_enabled,
            irq_reload: self.regs.irq_reload,
            last_clock: self.regs.last_clock,
        }
    }

    /// Canonical save-state encoding of this board.
    pub open spec fn spec_save(self) -> Seq<u8> {
        tx_enc(self.state())
    }

    /// Effect of a reset: the register file returns to its power-on
    /// defaults, the IRQ line drops, and the windows are recomputed, which
    /// reproduces the fixed-bank layout the loader established.
    pub open spec fn reset_rel(pre: Txrom, post: Txrom) -> bool {
        &&& post.cart == pre.cart
        &&& post.mirroring == pre.mirroring
        &&& post.revision == pre.revision
        &&& post.irq_pending == false
        &&& post.regs.bank_select == 0
        &&& post.regs.bank_values@ == zero_bytes(8)
        &&& post.regs.irq_latch == 0
        &&& post.regs.irq_counter == 0
        &&& post.regs.irq_enabled == false
        &&& post.regs.irq_reload == false
        &&& post.regs.last_clock == 0
        &&& post.prg_ram_banks == pre.prg_ram_banks
        &&& Txrom::same_shell(pre, post)
        &&& post.prg_rom_banks.banks@ == post.prg_layout()
        &&& post.chr_banks.banks@ == post.chr_layout()
    }

    /// Effect of restoring register state from a source: on success the
    /// board holds exactly the decoded state with its windows recomputed;
    /// on failure it is unchanged and the decode failure is reported.
    pub open spec fn load_state_rel(
        pre: Txrom,
        post: Txrom,
        data: Seq<u8>,
        pos: int,
        r: Result<usize, StateError>,
    ) -> bool {
        match r {
            Ok(np) => {
                &&& tx_dec(data, pos, pre.cart.ex_ram@.len() == 0x1000) matches Ok(s)
                &&& np == pos + 18
                &&& post.state() == s
                &&& cart_eq(pre.cart, post.cart)
                &&& post.prg_ram_banks == pre.prg_ram_banks
                &&& post.chr_banks.start == pre.chr_banks.start
                &&& post.chr_banks.end == pre.chr_banks.end
                &&& post.chr_banks.window == pre.chr_banks.window
                &&& post.chr_banks.size == pre.chr_banks.size
                &&& post.prg_rom_banks.start == pre.prg_rom_banks.start
                &&& post.prg_rom_banks.end == pre.prg_rom_banks.end
                &&& post.prg_rom_banks.window == pre.prg_rom_banks.window
                &&& post.prg_rom_banks.size == pre.prg_rom_banks.size
                &&& post.prg_rom_banks.banks@ == post.prg_layout()
                &&& post.chr_banks.banks@ == post.chr_layout()
            },
            Err(e) => {
                &&& post == pre
                &&& tx_dec(data, pos, pre.cart.ex_ram@.len() == 0x1000) matches Err(e2) && e2 == e
            },
        }
    }
}

impl Mapper for Txrom {
    open spec fn inv(&self) -> bool {
        self.inv_spec()
    }

    fn readb(&mut self, addr: u16) -> (r: u8)
        ensures
            Txrom::clock_rel(*old(self), *final(self), addr),
            r == old(self).spec_peek(addr),
    {
        self.clock_irq(addr);
        self.peekb(addr)
    }

    fn peekb(&self, addr: u16) -> (r: u8)
        ensures
            r == self.spec_peek(addr),
    {
        if addr < 0x2000 {
            let o: usize = self.chr_banks.translate(addr);
            if self.cart.chr_rom.len() > 0 {
                self.cart.chr_rom[o]
            } else {
                self.cart.chr_ram[o]
            }
        } else if addr <= 0x3EFF {
            if self.mirroring == Mirroring::FourScreen {
                proof {
                    assert((addr & 0x0FFF) < 0x1000) by (bit_vector);
                }
                self.cart.ex_ram[(addr & 0x0FFF) as usize]
            } else {
                0
            }
        } else if 0x6000 <= addr && addr < 0x8000 {
            let o: usize = self.prg_ram_banks.translate(addr);
            self.cart.prg_ram[o]
        } else if addr >= 0x8000 {
            let o: usize = self.prg_rom_banks.translate(addr);
            self.cart.prg_rom[o]
        } else {
            0
        }
    }

    fn writeb(&mut self, addr: u16, val: u8)
        ensures
            Txrom::write_rel(*old(self), *final(self), addr, val),
    {
        let w: MappedWrite = self.map_write(addr, val);
        match w {
            MappedWrite::Chr(o, v) => {
                if self.cart.chr_rom.len() == 0 {
                    self.cart.chr_ram.set(o, v);
                }
            },
            MappedWrite::ExRam(o, v) => {
                proof {
                    assert((addr & 0x0FFF) < 0x1000) by (bit_vector);
                }
                self.cart.ex_ram.set(o, v);
            },
            MappedWrite::PrgRam(o, v) => {
                self.cart.prg_ram.set(o, v);
            },
            MappedWrite::OpenBus => {},
        }
    }

    fn clock(&mut self)
        ensures
            *final(self) == *old(self),
    {
    }

    fn reset(&mut self, _kind: ResetKind)
        ensures
            Txrom::reset_rel(*old(self), *final(self)),
    {
        self.irq_pending = false;
        self.regs = TxRegs::new();
        self.update_banks();
    }

    fn irq_pending(&mut self) -> (r: bool)
        ensures
            r == old(self).irq_pending,
    {
        self.irq_pending
    }

    fn mirroring(&self) -> (r: Mirroring)
        ensures
            r == self.mirroring,
    {
        self.mirroring
    }

    fn vram_change(&mut self, addr: u16)
        ensures
            Txrom::clock_rel(*old(self), *final(self), addr),
    {
        self.clock_irq(addr);
    }

    fn battery_backed(&self) -> (r: bool)
        ensures
            r == self.cart.header.has_battery,
    {
        self.cart.header.has_battery
    }

    fn save(&self, out: &mut Vec<u8>)
        ensures
            final(out)@ == old(out)@ + self.spec_save(),
    {
        self.mirroring.save(out);
        out.push(if self.irq_pending {
            1
        } else {
            0
        });
        out.push(
            match self.revision {
                Mmc3Revision::A => 0,
                Mmc3Revision::BC => 1,
                Mmc3Revision::Acc => 2,
            },
        );
        out.push(self.regs.bank_select);
        out.push(self.regs.bank_values[0]);
        out.push(self.regs.bank_values[1]);
        out.push(self.regs.bank_values[2]);
        out.push(self.regs.bank_values[3]);
        out.push(self.regs.bank_values[4]);
        out.push(self.regs.bank_values[5]);
        out.push(self.regs.bank_values[6]);
        out.push(self.regs.bank_values[7]);
        out.push(self.regs.irq_latch);
        out.push(self.regs.irq_counter);
        out.push(if self.regs.irq_enabled {
            1
        } else {
            0
        });
        out.push(if self.regs.irq_reload {
            1
        } else {
            0
        });
        push_word(out, self.regs.last_clock);
        proof {
            assert(out@ =~= old(out)@ + self.spec_save());
        }
    }

    fn load(&mut self, data: &Vec<u8>, pos: usize) -> (r: Result<usize, StateError>)
        ensures
            Txrom::load_state_rel(*old(self), *final(self), data@, pos as int, r),
    {
        let n: usize = data.len();
        if pos >= n || n - pos < 18 {
            return Err(StateError::UnexpectedEnd);
        }
        let mb: u8 = data[pos];
        if mb > 4 {
            return Err(StateError::InvalidMirroring(mb));
        }
        if mb == 4 && self.cart.ex_ram.len() != 0x1000 {
            return Err(StateError::InvalidMirroring(mb));
        }
        let rb: u8 = data[pos + 2];
        if rb > 2 {
            return Err(StateError::InvalidRevision(rb));
        }
        self.mirroring = if mb == 0 {
            Mirroring::Horizontal
        } else if mb == 1 {
            Mirroring::Vertical
        } else if mb == 2 {
            Mirroring::SingleScreenA
        } else if mb == 3 {
            Mirroring::SingleScreenB
        } else {
            Mirroring::FourScreen
        };
        self.irq_pending = read_flag(data, pos + 1);
        self.revision = if rb == 0 {
            Mmc3Revision::A
        } else if rb == 1 {
            Mmc3Revision::BC
        } else {
            Mmc3Revision::Acc
        };
        self.regs.bank_select = data[pos + 3];
        let mut bv: Vec<u8> = Vec::new();
        bv.push(data[pos + 4]);
        bv.push(data[pos + 5]);
        bv.push(data[pos + 6]);
        bv.push(data[pos + 7]);
        bv.push(data[pos + 8]);
        bv.push(data[pos + 9]);
        bv.push(data[pos + 10]);
        bv.push(data[pos + 11]);
        proof {
            assert(bv@ =~= data@.subrange(pos + 4, pos + 12));
        }
        self.regs.bank_values = bv;
        self.regs.irq_latch = data[pos + 12];
        self.regs.irq_counter = data[pos + 13];
        self.regs.irq_enabled = read_flag(data, pos + 14);
        self.regs.irq_reload = read_flag(data, pos + 15);
        self.regs.last_clock = read_word(data, pos + 16);
        self.update_banks();
        proof {
            let d = tx_dec(data@, pos as int, old(self).cart.ex_ram@.len() == 0x1000);
            assert(d matches Ok(s) && self.state() =~= s);
        }
        Ok(pos + 18)
    }
}

} // verus!

