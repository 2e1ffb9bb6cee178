//! The shared mapper capability contract and the dispatch over chip families.
//!
//! Every CPU/PPU bus access flows through a single `MapperType` handle into
//! the active variant's translation and register logic.  The variant set is
//! closed: it is resolved once at load time from the cartridge header and
//! never changes afterwards.

pub mod axrom;
pub mod cnrom;
pub mod exrom;
pub mod nrom;
pub mod pxrom;
pub mod sxrom;
pub mod txrom;
pub mod uxrom;

use vstd::prelude::*;
use crate::cartridge::Cartridge;
use self::axrom::Axrom;
use self::cnrom::Cnrom;
use self::exrom::Exrom;
use self::nrom::Nrom;
use self::pxrom::Pxrom;
use self::sxrom::{MMC1Variant, Sxrom};
use self::txrom::Txrom;
use self::uxrom::Uxrom;

verus! {

/// Nametable mirroring mode, read by the PPU collaborator whenever it
/// resolves a nametable address.
#[derive(Debug, Copy, Clone, PartialEq, Eq, Structural)]
pub enum Mirroring {
    Horizontal,
    Vertical,
    SingleScreenA,
    SingleScreenB,
    FourScreen,
}

impl Default for Mirroring {
    fn default() -> (r: Self)
        ensures
            r == Mirroring::Horizontal,
    {
        Mirroring::Horizontal
    }
}

/// Byte encoding a mirroring mode in a save state.
pub open spec fn mirroring_byte(m: Mirroring) -> u8 {
    match m {
        Mirroring::Horizontal => 0,
        Mirroring::Vertical => 1,
        Mirroring::SingleScreenA => 2,
        Mirroring::SingleScreenB => 3,
        Mirroring::FourScreen => 4,
    }
}

/// Mirroring mode denoted by a save-state byte; out-of-range values denote
/// corrupt data and decode to nothing.
pub open spec fn mirroring_from_byte(b: u8) -> Option<Mirroring> {
    if b == 0 {
        Some(Mirroring::Horizontal)
    } else if b == 1 {
        Some(Mirroring::Vertical)
    } else if b == 2 {
        Some(Mirroring::SingleScreenA)
    } else if b == 3 {
        Some(Mirroring::SingleScreenB)
    } else if b == 4 {
        Some(Mirroring::FourScreen)
    } else {
        None
    }
}

/// Decoding a mirroring byte undoes encoding it: every mode round-trips
/// through a save state.
pub proof fn lemma_mirroring_roundtrip(m: Mirroring)
    ensures
        mirroring_from_byte(mirroring_byte(m)) == Some(m),
{
}

impl Mirroring {
    /// Appends this mode's save-state byte to the sink.
    pub fn save(&self, out: &mut Vec<u8>)
        ensures
            final(out)@ == old(out)@.push(mirroring_byte(*self)),
    {
        let b: u8 = match self {
            Mirroring::Horizontal => 0,
            Mirroring::Vertical => 1,
            Mirroring::SingleScreenA => 2,
            Mirroring::SingleScreenB => 3,
            Mirroring::FourScreen => 4,
        };
        out.push(b);
    }

    /// Restores the mode from one byte of the source.  An out-of-range value
    /// is a hard failure for the load, reported rather than defaulted, since
    /// silently accepting corrupt save data risks desynchronised emulation.
    pub fn load(&mut self, data: &Vec<u8>, pos: usize) -> (r: Result<usize, StateError>)
        ensures
            match r {
                Ok(np) => {
                    &&& pos < data@.len()
                    &&& np == pos + 1
                    &&& mirroring_from_byte(data@[pos as int]) == Some(*final(self))
                },
                Err(e) => {
                    &&& *final(self) == *old(self)
                    &&& if pos >= data@.len() {
                        e == StateError::UnexpectedEnd
                    } else {
                        mirroring_from_byte(data@[pos as int]) is None
                            && e == StateError::InvalidMirroring(data@[pos as int])
                    }
                },
            },
    {
        if pos >= data.len() {
            return Err(StateError::UnexpectedEnd);
        }
        let b: u8 = data[pos];
        *self = match b {
            0 => Mirroring::Horizontal,
            1 => Mirroring::Vertical,
            2 => Mirroring::SingleScreenA,
            3 => Mirroring::SingleScreenB,
            4 => Mirroring::FourScreen,
            _ => {
                return Err(StateError::InvalidMirroring(b));
            },
        };
        Ok(pos + 1)
    }
}

/// Low byte of a 16-bit register in a save state.
pub open spec fn lo_byte(x: u16) -> u8 {
    (x & 0xFF) as u8
}

/// High byte of a 16-bit register in a save state.
pub open spec fn hi_byte(x: u16) -> u8 {
    (x >> 8) as u8
}

/// 16-bit value denoted by a little-endian byte pair.
pub open spec fn word_from(lo: u8, hi: u8) -> u16 {
    (lo + hi * 256) as u16
}

/// Splitting a word into its little-endian bytes and reassembling them
/// yields the word back.
pub proof fn lemma_word_roundtrip(x: u16)
    ensures
        word_from(lo_byte(x), hi_byte(x)) == x,
{
    assert(((x & 0xFF) as u8) + ((x >> 8) as u8) * 256 == x) by (bit_vector);
}

/// Appends a 16-bit register to the sink, low byte first.
pub fn push_word(out: &mut Vec<u8>, x: u16)
    ensures
        final(out)@ == old(out)@.push(lo_byte(x)).push(hi_byte(x)),
{
    out.push((x & 0xFF) as u8);
    out.push((x >> 8) as u8);
}

/// Reads a 16-bit register from a little-endian byte pair of the source.
pub fn read_word(data: &Vec<u8>, pos: usize) -> (r: u16)
    requires
        pos + 1 < data@.len(),
    ensures
        r == word_from(data@[pos as int], data@[pos + 1]),
{
    let _n: usize = data.len();
    let lo: u16 = data[pos] as u16;
    let hi: u16 = data[pos + 1] as u16;
    lo + hi * 256
}

/// Reads one bool flag; any nonzero byte counts as set.
pub fn read_flag(data: &Vec<u8>, pos: usize) -> (r: bool)
    requires
        pos < data@.len(),
    ensures
        r == (data@[pos as int] != 0),
{
    data[pos] != 0
}

/// Byte encoding a bool flag in a save state.
pub open spec fn flag_byte(b: bool) -> u8 {
    if b {
        1
    } else {
        0
    }
}

/// Failure while restoring mapper state from a save-state byte source.
#[derive(Debug, Copy, Clone, PartialEq, Eq, Structural)]
pub enum StateError {
    /// The source ran out of bytes before the variant's state was complete.
    UnexpectedEnd,
    /// A byte that should encode a mirroring mode was out of range.
    InvalidMirroring(u8),
    /// A byte that should encode an MMC3 revision was out of range.
    InvalidRevision(u8),
    /// A byte that should encode an MMC1 variant was out of range.
    InvalidVariant(u8),
    /// A serial shift-register bit count was past the register's width.
    InvalidShiftCount(u8),
}

/// Failure while resolving a cartridge to a mapper variant.
#[derive(Debug, Copy, Clone, PartialEq, Eq, Structural)]
pub enum LoadError {
    /// The cartridge names a mapper-chip family this subsystem does not
    /// implement; the value carries the numeric id.  This is a hard
    /// load-time failure: no partial mapper is constructed.
    UnsupportedMapper(u16),
}

/// Where a read of a bus address lands: a physical offset into one of the
/// cartridge's memory regions, or nothing (open bus).
#[derive(Debug, Copy, Clone, PartialEq, Eq, Structural)]
pub enum MappedRead {
    OpenBus,
    Chr(usize),
    ExRam(usize),
    PrgRam(usize),
    PrgRom(usize),
}

/// Where a write of a bus address lands; register writes and writes into
/// ROM or unmapped space land nowhere.
#[derive(Debug, Copy, Clone, PartialEq, Eq, Structural)]
pub enum MappedWrite {
    OpenBus,
    Chr(usize, u8),
    ExRam(usize, u8),
    PrgRam(usize, u8),
}

/// Kind of reset requested by the console collaborator.
#[derive(Debug, Copy, Clone, PartialEq, Eq, Structural)]
pub enum ResetKind {
    /// Console reset button: registers return to their power-on defaults.
    Soft,
    /// Power cycle: same register defaults for every variant modelled here.
    Hard,
}

/// The capability contract every mapper variant supports.  Methods a family
/// has no hardware for keep the explicit defaults below, so the interface is
/// total: every variant has a defined, testable value for every method.
pub trait Mapper: Sized {
    /// Internal well-formedness: bank tables sized to their stores, RAM
    /// regions present where the variant's decoding can reach them.
    spec fn inv(&self) -> bool;

    /// Reads one byte; may have side effects (an MMC3 clocks its IRQ counter
    /// on pattern-table fetches).
    fn readb(&mut self, addr: u16) -> (r: u8)
        requires
            old(self).inv(),
        ensures
            final(self).inv(),
        default_ensures
            *final(self) == *old(self),
            r == 0,
    {
        0
    }

    /// Side-effect-free variant of `readb`: returns the byte `readb` would
    /// for the same state, for introspection and debugging.
    fn peekb(&self, addr: u16) -> (r: u8)
        requires
            self.inv(),
        default_ensures
            r == 0,
    {
        0
    }

    /// Writes one byte: PRG-RAM, CHR-RAM or a mapper register depending on
    /// the address; writes to ROM ranges are ignored except where a register
    /// overlays the ROM address space.
    fn writeb(&mut self, addr: u16, val: u8)
        requires
            old(self).inv(),
        ensures
            final(self).inv(),
        default_ensures
            *final(self) == *old(self),
    {
    }

    /// Advances internal counters not driven directly by bus access.
    fn clock(&mut self)
        requires
            old(self).inv(),
        ensures
            final(self).inv(),
        default_ensures
            *final(self) == *old(self),
    {
    }

    /// Reinitialises registers to their power-on defaults, reproducing the
    /// fixed-bank layout the loader established.
    fn reset(&mut self, kind: ResetKind)
        requires
            old(self).inv(),
        ensures
            final(self).inv(),
        default_ensures
            *final(self) == *old(self),
    {
    }

    /// True exactly while the variant's interrupt condition has fired and
    /// has not yet been acknowledged.
    fn irq_pending(&mut self) -> (r: bool)
        requires
            old(self).inv(),
        ensures
            final(self).inv(),
            *final(self) == *old(self),
        default_ensures
            r == false,
    {
        false
    }

    /// Current effective nametable mirroring mode.
    fn mirroring(&self) -> (r: Mirroring)
        requires
            self.inv(),
        default_ensures
            r == Mirroring::Horizontal,
    {
        Mirroring::Horizontal
    }

    /// Called once per PPU address-line transition, read or not; required
    /// for edge-triggered IRQ logic.
    fn vram_change(&mut self, addr: u16)
        requires
            old(self).inv(),
        ensures
            final(self).inv(),
        default_ensures
            *final(self) == *old(self),
    {
    }

    /// Whether PRG-RAM must be persisted across sessions.
    fn battery_backed(&self) -> (r: bool)
        requires
            self.inv(),
        default_ensures
            r == false,
    {
        false
    }

    /// Whether the PPU should resolve this nametable address in console
    /// VRAM rather than cartridge memory.
    fn use_ciram(&self, addr: u16) -> (r: bool)
        requires
            self.inv(),
        default_ensures
            r == true,
    {
        true
    }

    /// Physical nametable page for boards that remap nametables.
    fn nametable_page(&self, addr: u16) -> (r: u16)
        requires
            self.inv(),
        default_ensures
            r == 0,
    {
        0
    }

    /// PPU-side write notification for boards that snoop it.
    fn ppu_write(&mut self, addr: u16, val: u8)
        requires
            old(self).inv(),
        ensures
            final(self).inv(),
        default_ensures
            *final(self) == *old(self),
    {
    }

    /// Last value driven on the bus, for open-bus reads.
    fn open_bus(&mut self, addr: u16, val: u8)
        requires
            old(self).inv(),
        ensures
            final(self).inv(),
        default_ensures
            *final(self) == *old(self),
    {
    }

    /// Appends the variant's mutable register state to the sink.  The layout
    /// is variant-specific with a fixed field order, self-describing enough
    /// to round-trip without external metadata.
    fn save(&self, out: &mut Vec<u8>)
        requires
            self.inv(),
        default_ensures
            final(out)@ == old(out)@,
    {
    }

    /// Restores the variant's mutable register state from the source,
    /// starting at `pos`; returns the position after the consumed bytes.
    /// Corrupt data is a hard failure that leaves the state unchanged.
    fn load(&mut self, data: &Vec<u8>, pos: usize) -> (r: Result<usize, StateError>)
        requires
            old(self).inv(),
        ensures
            final(self).inv(),
        default_ensures
            *final(self) == *old(self),
            r matches Ok(np) && np == pos,
    {
        Ok(pos)
    }

    /// Appends battery-backed PRG-RAM to the sink; nothing for boards
    /// without a battery.
    fn save_sram(&self, out: &mut Vec<u8>)
        requires
            self.inv(),
        default_ensures
            final(out)@ == old(out)@,
    {
    }

    /// Restores battery-backed PRG-RAM from the source; nothing for boards
    /// without a battery.
    fn load_sram(&mut self, data: &Vec<u8>, pos: usize) -> (r: Result<usize, StateError>)
        requires
            old(self).inv(),
        ensures
            final(self).inv(),
        default_ensures
            *final(self) == *old(self),
            r matches Ok(np) && np == pos,
    {
        Ok(pos)
    }
}

/// The mapper used while no cartridge is loaded: every method keeps its
/// default no-op behaviour.
#[derive(Debug, Copy, Clone)]
pub struct NullMapper {}

impl Mapper for NullMapper {
    open spec fn inv(&self) -> bool {
        true
    }
}

/// The closed union over the supported mapper-chip families.  Calling code
/// holds one instance of this union and invokes the shared contract without
/// knowing the concrete variant.
pub enum MapperType {
    NullMapper(NullMapper),
    Nrom(Nrom),
    Sxrom(Sxrom),
    Uxrom(Uxrom),
    Cnrom(Cnrom),
    Txrom(Txrom),
    Axrom(Axrom),
    Pxrom(Pxrom),
    Exrom(Exrom),
}

impl Mapper for MapperType {
    open spec fn inv(&self) -> bool {
        match self {
            MapperType::NullMapper(m) => m.inv(),
            MapperType::Nrom(m) => m.inv(),
            MapperType::Sxrom(m) => m.inv(),
            MapperType::Uxrom(m) => m.inv(),
            MapperType::Cnrom(m) => m.inv(),
            MapperType::Txrom(m) => m.inv(),
            MapperType::Axrom(m) => m.inv(),
            MapperType::Pxrom(m) => m.inv(),
            MapperType::Exrom(m) => m.inv(),
        }
    }

    fn readb(&mut self, addr: u16) -> (r: u8)
        ensures
            *old(self) matches MapperType::NullMapper(_) ==> *final(self) == *old(self) && r == 0,
            *old(self) matches MapperType::Nrom(pre) ==> *final(self) == *old(self) && r
                == pre.spec_peek(addr),
            *old(self) matches MapperType::Sxrom(pre) ==> *final(self) == *old(self) && r
                == pre.spec_peek(addr),
            *old(self) matches MapperType::Uxrom(pre) ==> *final(self) == *old(self) && r
                == pre.spec_peek(addr),
            *old(self) matches MapperType::Cnrom(pre) ==> *final(self) == *old(self) && r
                == pre.spec_peek(addr),
            *old(self) matches MapperType::Axrom(pre) ==> *final(self) == *old(self) && r
                == pre.spec_peek(addr),
            *old(self) matches MapperType::Txrom(pre) ==> (*final(self) matches MapperType::Txrom(
                post,
            ) && Txrom::clock_rel(pre, post, addr) && r == pre.spec_peek(addr)),
            *old(self) matches MapperType::Pxrom(pre) ==> (*final(self) matches MapperType::Pxrom(
                post,
            ) && Pxrom::read_rel(pre, post, addr) && r == pre.spec_peek(addr)),
            *old(self) matches MapperType::Exrom(pre) ==> (*final(self) matches MapperType::Exrom(
                post,
            ) && Exrom::read_rel(pre, post, addr) && r == pre.spec_peek(addr)),
    {
        match self {
            MapperType::NullMapper(m) => m.readb(addr),
            MapperType::Nrom(m) => m.readb(addr),
            MapperType::Sxrom(m) => m.readb(addr),
            MapperType::Uxrom(m) => m.readb(addr),
            MapperType::Cnrom(m) => m.readb(addr),
            MapperType::Txrom(m) => m.readb(addr),
            MapperType::Axrom(m) => m.readb(addr),
            MapperType::Pxrom(m) => m.readb(addr),
            MapperType::Exrom(m) => m.readb(addr),
        }
    }

    fn peekb(&self, addr: u16) -> (r: u8)
        ensures
            *self matches MapperType::NullMapper(_) ==> r == 0,
            *self matches MapperType::Nrom(m) ==> r == m.spec_peek(addr),
            *self matches MapperType::Sxrom(m) ==> r == m.spec_peek(addr),
            *self matches MapperType::Uxrom(m) ==> r == m.spec_peek(addr),
            *self matches MapperType::Cnrom(m) ==> r == m.spec_peek(addr),
            *self matches MapperType::Axrom(m) ==> r == m.spec_peek(addr),
            *self matches MapperType::Txrom(m) ==> r == m.spec_peek(addr),
            *self matches MapperType::Pxrom(m) ==> r == m.spec_peek(addr),
            *self matches MapperType::Exrom(m) ==> r == m.spec_peek(addr),
    {
        match self {
            MapperType::NullMapper(m) => m.peekb(addr),
            MapperType::Nrom(m) => m.peekb(addr),
            MapperType::Sxrom(m) => m.peekb(addr),
            MapperType::Uxrom(m) => m.peekb(addr),
            MapperType::Cnrom(m) => m.peekb(addr),
            MapperType::Txrom(m) => m.peekb(addr),
            MapperType::Axrom(m) => m.peekb(addr),
            MapperType::Pxrom(m) => m.peekb(addr),
            MapperType::Exrom(m) => m.peekb(addr),
        }
    }

    fn writeb(&mut self, addr: u16, val: u8)
        ensures
            *old(self) matches MapperType::NullMapper(_) ==> *final(self) == *old(self),
            *old(self) matches MapperType::Nrom(pre) ==> (*final(self) matches MapperType::Nrom(
                post,
            ) && Nrom::write_rel(pre, post, addr, val)),
            *old(self) matches MapperType::Sxrom(pre) ==> (*final(self) matches MapperType::Sxrom(
                post,
            ) && Sxrom::write_rel(pre, post, addr, val)),
            *old(self) matches MapperType::Uxrom(pre) ==> (*final(self) matches MapperType::Uxrom(
                post,
            ) && Uxrom::write_rel(pre, post, addr, val)),
            *old(self) matches MapperType::Cnrom(pre) ==> (*final(self) matches MapperType::Cnrom(
                post,
            ) && Cnrom::write_rel(pre, post, addr, val)),
            *old(self) matches MapperType::Axrom(pre) ==> (*final(self) matches MapperType::Axrom(
                post,
            ) && Axrom::write_rel(pre, post, addr, val)),
            *old(self) matches MapperType::Txrom(pre) ==> (*final(self) matches MapperType::Txrom(
                post,
            ) && Txrom::write_rel(pre, post, addr, val)),
            *old(self) matches MapperType::Pxrom(pre) ==> (*final(self) matches MapperType::Pxrom(
                post,
            ) && Pxrom::write_rel(pre, post, addr, val)),
            *old(self) matches MapperType::Exrom(pre) ==> (*final(self) matches MapperType::Exrom(
                post,
            ) && Exrom::write_rel(pre, post, addr, val)),
    {
        match self {
            MapperType::NullMapper(m) => m.writeb(addr, val),
            MapperType::Nrom(m) => m.writeb(addr, val),
            MapperType::Sxrom(m) => m.writeb(addr, val),
            MapperType::Uxrom(m) => m.writeb(addr, val),
            MapperType::Cnrom(m) => m.writeb(addr, val),
            MapperType::Txrom(m) => m.writeb(addr, val),
            MapperType::Axrom(m) => m.writeb(addr, val),
            MapperType::Pxrom(m) => m.writeb(addr, val),
            MapperType::Exrom(m) => m.writeb(addr, val),
        }
    }

    fn mirroring(&self) -> (r: Mirroring)
        ensures
            *self matches MapperType::NullMapper(_) ==> r == Mirroring::Horizontal,
            *self matches MapperType::Nrom(m) ==> r == m.cart.header.mirroring,
            *self matches MapperType::Sxrom(m) ==> r == crate::mapper::sxrom::mmc1_mirroring(
                m.control,
            ),
            *self matches MapperType::Uxrom(m) ==> r == m.cart.header.mirroring,
            *self matches MapperType::Cnrom(m) ==> r == m.cart.header.mirroring,
            *self matches MapperType::Txrom(m) ==> r == m.mirroring,
            *self matches MapperType::Axrom(m) ==> r == m.mirroring,
            *self matches MapperType::Pxrom(m) ==> r == m.mirroring,
            *self matches MapperType::Exrom(m) ==> r == m.mirroring,
    {
        match self {
            MapperType::NullMapper(m) => m.mirroring(),
            MapperType::Nrom(m) => m.mirroring(),
            MapperType::Sxrom(m) => m.mirroring(),
            MapperType::Uxrom(m) => m.mirroring(),
            MapperType::Cnrom(m) => m.mirroring(),
            MapperType::Txrom(m) => m.mirroring(),
            MapperType::Axrom(m) => m.mirroring(),
            MapperType::Pxrom(m) => m.mirroring(),
            MapperType::Exrom(m) => m.mirroring(),
        }
    }

    fn battery_backed(&self) -> (r: bool)
        ensures
            *self matches MapperType::NullMapper(_) ==> r == false,
            *self matches MapperType::Nrom(m) ==> r == m.cart.header.has_battery,
            *self matches MapperType::Sxrom(m) ==> r == m.cart.header.has_battery,
            *self matches MapperType::Uxrom(m) ==> r == m.cart.header.has_battery,
            *self matches MapperType::Cnrom(m) ==> r == m.cart.header.has_battery,
            *self matches MapperType::Txrom(m) ==> r == m.cart.header.has_battery,
            *self matches MapperType::Axrom(m) ==> r == m.cart.header.has_battery,
            *self matches MapperType::Pxrom(m) ==> r == m.cart.header.has_battery,
            *self matches MapperType::Exrom(m) ==> r == m.cart.header.has_battery,
    {
        match self {
            MapperType::NullMapper(m) => m.battery_backed(),
            MapperType::Nrom(m) => m.battery_backed(),
            MapperType::Sxrom(m) => m.battery_backed(),
            MapperType::Uxrom(m) => m.battery_backed(),
            MapperType::Cnrom(m) => m.battery_backed(),
            MapperType::Txrom(m) => m.battery_backed(),
            MapperType::Axrom(m) => m.battery_backed(),
            MapperType::Pxrom(m) => m.battery_backed(),
            MapperType::Exrom(m) => m.battery_backed(),
        }
    }

    fn irq_pending(&mut self) -> (r: bool)
        ensures
            *old(self) matches MapperType::NullMapper(_) ==> r == false,
            *old(self) matches MapperType::Nrom(_) ==> r == false,
            *old(self) matches MapperType::Sxrom(_) ==> r == false,
            *old(self) matches MapperType::Uxrom(_) ==> r == false,
            *old(self) matches MapperType::Cnrom(_) ==> r == false,
            *old(self) matches MapperType::Axrom(_) ==> r == false,
            *old(self) matches MapperType::Txrom(pre) ==> *final(self) == *old(self) && r
                == pre.irq_pending,
            *old(self) matches MapperType::Pxrom(_) ==> r == false,
            *old(self) matches MapperType::Exrom(pre) ==> *final(self) == *old(self) && r
                == pre.irq_pending,
    {
        match self {
            MapperType::NullMapper(m) => m.irq_pending(),
            MapperType::Nrom(m) => m.irq_pending(),
            MapperType::Sxrom(m) => m.irq_pending(),
            MapperType::Uxrom(m) => m.irq_pending(),
            MapperType::Cnrom(m) => m.irq_pending(),
            MapperType::Txrom(m) => m.irq_pending(),
            MapperType::Axrom(m) => m.irq_pending(),
            MapperType::Pxrom(m) => m.irq_pending(),
            MapperType::Exrom(m) => m.irq_pending(),
        }
    }

    fn vram_change(&mut self, addr: u16)
        ensures
            *old(self) matches MapperType::NullMapper(_) ==> *final(self) == *old(self),
            *old(self) matches MapperType::Nrom(_) ==> *final(self) == *old(self),
            *old(self) matches MapperType::Sxrom(_) ==> *final(self) == *old(self),
            *old(self) matches MapperType::Uxrom(_) ==> *final(self) == *old(self),
            *old(self) matches MapperType::Cnrom(_) ==> *final(self) == *old(self),
            *old(self) matches MapperType::Axrom(_) ==> *final(self) == *old(self),
            *old(self) matches MapperType::Txrom(pre) ==> (*final(self) matches MapperType::Txrom(
                post,
            ) && Txrom::clock_rel(pre, post, addr)),
            *old(self) matches MapperType::Pxrom(pre) ==> (*final(self) matches MapperType::Pxrom(
                post,
            ) && Pxrom::read_rel(pre, post, addr)),
            *old(self) matches MapperType::Exrom(_) ==> *final(self) == *old(self),
    {
        match self {
            MapperType::NullMapper(m) => m.vram_change(addr),
            MapperType::Nrom(m) => m.vram_change(addr),
            MapperType::Sxrom(m) => m.vram_change(addr),
            MapperType::Uxrom(m) => m.vram_change(addr),
            MapperType::Cnrom(m) => m.vram_change(addr),
            MapperType::Txrom(m) => m.vram_change(addr),
            MapperType::Axrom(m) => m.vram_change(addr),
            MapperType::Pxrom(m) => m.vram_change(addr),
            MapperType::Exrom(m) => m.vram_change(addr),
        }
    }

    fn clock(&mut self)
        ensures
            !(*old(self) matches MapperType::Exrom(_)) ==> *final(self) == *old(self),
            *old(self) matches MapperType::Exrom(pre) ==> (*final(self) matches MapperType::Exrom(
                post,
            ) && Exrom::step_rel(pre, post)),
    {
        match self {
            MapperType::NullMapper(m) => m.clock(),
            MapperType::Nrom(m) => m.clock(),
            MapperType::Sxrom(m) => m.clock(),
            MapperType::Uxrom(m) => m.clock(),
            MapperType::Cnrom(m) => m.clock(),
            MapperType::Txrom(m) => m.clock(),
            MapperType::Axrom(m) => m.clock(),
            MapperType::Pxrom(m) => m.clock(),
            MapperType::Exrom(m) => m.clock(),
        }
    }

    fn reset(&mut self, kind: ResetKind)
        ensures
            *old(self) matches MapperType::NullMapper(_) ==> *final(self) == *old(self),
            *old(self) matches MapperType::Nrom(_) ==> *final(self) == *old(self),
            *old(self) matches MapperType::Sxrom(_) ==> *final(self) == *old(self),
            *old(self) matches MapperType::Uxrom(_) ==> *final(self) == *old(self),
            *old(self) matches MapperType::Cnrom(_) ==> *final(self) == *old(self),
            *old(self) matches MapperType::Axrom(_) ==> *final(self) == *old(self),
            *old(self) matches MapperType::Txrom(pre) ==> (*final(self) matches MapperType::Txrom(
                post,
            ) && Txrom::reset_rel(pre, post)),
            *old(self) matches MapperType::Pxrom(_) ==> *final(self) == *old(self),
            *old(self) matches MapperType::Exrom(_) ==> *final(self) == *old(self),
    {
        match self {
            MapperType::NullMapper(m) => m.reset(kind),
            MapperType::Nrom(m) => m.reset(kind),
            MapperType::Sxrom(m) => m.reset(kind),
            MapperType::Uxrom(m) => m.reset(kind),
            MapperType::Cnrom(m) => m.reset(kind),
            MapperType::Txrom(m) => m.reset(kind),
            MapperType::Axrom(m) => m.reset(kind),
            MapperType::Pxrom(m) => m.reset(kind),
            MapperType::Exrom(m) => m.reset(kind),
        }
    }

    fn save(&self, out: &mut Vec<u8>)
        ensures
            *self matches MapperType::NullMapper(_) ==> final(out)@ == old(out)@,
            *self matches MapperType::Nrom(_) ==> final(out)@ == old(out)@,
            *self matches MapperType::Sxrom(m) ==> final(out)@ == old(out)@ + m.spec_save(),
            *self matches MapperType::Uxrom(m) ==> final(out)@ == old(out)@ + m.spec_save(),
            *self matches MapperType::Cnrom(m) ==> final(out)@ == old(out)@ + m.spec_save(),
            *self matches MapperType::Axrom(m) ==> final(out)@ == old(out)@ + m.spec_save(),
            *self matches MapperType::Txrom(m) ==> final(out)@ == old(out)@ + m.spec_save(),
            *self matches MapperType::Pxrom(m) ==> final(out)@ == old(out)@ + m.spec_save(),
            *self matches MapperType::Exrom(m) ==> final(out)@ == old(out)@ + m.spec_save(),
    {
        match self {
            MapperType::NullMapper(m) => m.save(out),
            MapperType::Nrom(m) => m.save(out),
            MapperType::Sxrom(m) => m.save(out),
            MapperType::Uxrom(m) => m.save(out),
            MapperType::Cnrom(m) => m.save(out),
            MapperType::Txrom(m) => m.save(out),
            MapperType::Axrom(m) => m.save(out),
            MapperType::Pxrom(m) => m.save(out),
            MapperType::Exrom(m) => m.save(out),
        }
    }

    fn load(&mut self, data: &Vec<u8>, pos: usize) -> (r: Result<usize, StateError>)
        ensures
            *old(self) matches MapperType::NullMapper(_) ==> *final(self) == *old(self) && (
            r matches Ok(np) && np == pos),
            *old(self) matches MapperType::Nrom(_) ==> *final(self) == *old(self) && (
            r matches Ok(np) && np == pos),
            *old(self) matches MapperType::Sxrom(pre) ==> (*final(self) matches MapperType::Sxrom(
                post,
            ) && Sxrom::load_state_rel(pre, post, data@, pos as int, r)),
            *old(self) matches MapperType::Uxrom(pre) ==> (*final(self) matches MapperType::Uxrom(
                post,
            ) && match r {
                Ok(np) => {
                    &&& Uxrom::spec_decode(data@, pos as int) matches Some(b)
                    &&& np == pos + 2
                    &&& post.prg_bank == b
                    &&& crate::cartridge::cart_eq(pre.cart, post.cart)
                },
                Err(e) => {
                    &&& post == pre
                    &&& Uxrom::spec_decode(data@, pos as int) is None
                    &&& e == StateError::UnexpectedEnd
                },
            }),
            *old(self) matches MapperType::Axrom(pre) ==> (*final(self) matches MapperType::Axrom(
                post,
            ) && match r {
                Ok(np) => {
                    &&& Axrom::spec_decode(data@, pos as int) matches Ok(t)
                    &&& np == pos + 3
                    &&& post.prg_bank == t.0
                    &&& post.mirroring == t.1
                    &&& crate::cartridge::cart_eq(pre.cart, post.cart)
                },
                Err(e) => {
                    &&& post == pre
                    &&& Axrom::spec_decode(data@, pos as int) matches Err(e2) && e2 == e
                },
            }),
            *old(self) matches MapperType::Cnrom(pre) ==> (*final(self) matches MapperType::Cnrom(
                post,
            ) && match r {
                Ok(np) => {
                    &&& Cnrom::spec_decode(data@, pos as int) matches Some(t)
                    &&& np == pos + 6
                    &&& post.chr_bank == t.0
                    &&& post.prg_bank_1 == t.1
                    &&& post.prg_bank_2 == t.2
                    &&& post.chr_mask == pre.chr_mask
                    &&& crate::cartridge::cart_eq(pre.cart, post.cart)
                },
                Err(e) => {
                    &&& post == pre
                    &&& Cnrom::spec_decode(data@, pos as int) is None
                    &&& e == StateError::UnexpectedEnd
                },
            }),
            *old(self) matches MapperType::Txrom(pre) ==> (*final(self) matches MapperType::Txrom(
                post,
            ) && Txrom::load_state_rel(pre, post, data@, pos as int, r)),
            *old(self) matches MapperType::Pxrom(pre) ==> (*final(self) matches MapperType::Pxrom(
                post,
            ) && Pxrom::load_state_rel(pre, post, data@, pos as int, r)),
            *old(self) matches MapperType::Exrom(pre) ==> (*final(self) matches MapperType::Exrom(
                post,
            ) && Exrom::load_state_rel(pre, post, data@, pos as int, r)),
    {
        match self {
            MapperType::NullMapper(m) => m.load(data, pos),
            MapperType::Nrom(m) => m.load(data, pos),
            MapperType::Sxrom(m) => m.load(data, pos),
            MapperType::Uxrom(m) => m.load(data, pos),
            MapperType::Cnrom(m) => m.load(data, pos),
            MapperType::Txrom(m) => m.load(data, pos),
            MapperType::Axrom(m) => m.load(data, pos),
            MapperType::Pxrom(m) => m.load(data, pos),
            MapperType::Exrom(m) => m.load(data, pos),
        }
    }

    fn use_ciram(&self, addr: u16) -> (r: bool)
        ensures
            r == true,
    {
        match self {
            MapperType::NullMapper(m) => m.use_ciram(addr),
            MapperType::Nrom(m) => m.use_ciram(addr),
            MapperType::Sxrom(m) => m.use_ciram(addr),
            MapperType::Uxrom(m) => m.use_ciram(addr),
            MapperType::Cnrom(m) => m.use_ciram(addr),
            MapperType::Txrom(m) => m.use_ciram(addr),
            MapperType::Axrom(m) => m.use_ciram(addr),
            MapperType::Pxrom(m) => m.use_ciram(addr),
            MapperType::Exrom(m) => m.use_ciram(addr),
        }
    }

    fn nametable_page(&self, addr: u16) -> (r: u16)
        ensures
            r == 0,
    {
        match self {
            MapperType::NullMapper(m) => m.nametable_page(addr),
            MapperType::Nrom(m) => m.nametable_page(addr),
            MapperType::Sxrom(m) => m.nametable_page(addr),
            MapperType::Uxrom(m) => m.nametable_page(addr),
            MapperType::Cnrom(m) => m.nametable_page(addr),
            MapperType::Txrom(m) => m.nametable_page(addr),
            MapperType::Axrom(m) => m.nametable_page(addr),
            MapperType::Pxrom(m) => m.nametable_page(addr),
            MapperType::Exrom(m) => m.nametable_page(addr),
        }
    }

    fn ppu_write(&mut self, addr: u16, val: u8)
        ensures
            *final(self) == *old(self),
    {
        match self {
            MapperType::NullMapper(m) => m.ppu_write(addr, val),
            MapperType::Nrom(m) => m.ppu_write(addr, val),
            MapperType::Sxrom(m) => m.ppu_write(addr, val),
            MapperType::Uxrom(m) => m.ppu_write(addr, val),
            MapperType::Cnrom(m) => m.ppu_write(addr, val),
            MapperType::Txrom(m) => m.ppu_write(addr, val),
            MapperType::Axrom(m) => m.ppu_write(addr, val),
            MapperType::Pxrom(m) => m.ppu_write(addr, val),
            MapperType::Exrom(m) => m.ppu_write(addr, val),
        }
    }

    fn open_bus(&mut self, addr: u16, val: u8)
        ensures
            *final(self) == *old(self),
    {
        match self {
            MapperType::NullMapper(m) => m.open_bus(addr, val),
            MapperType::Nrom(m) => m.open_bus(addr, val),
            MapperType::Sxrom(m) => m.open_bus(addr, val),
            MapperType::Uxrom(m) => m.open_bus(addr, val),
            MapperType::Cnrom(m) => m.open_bus(addr, val),
            MapperType::Txrom(m) => m.open_bus(addr, val),
            MapperType::Axrom(m) => m.open_bus(addr, val),
            MapperType::Pxrom(m) => m.open_bus(addr, val),
            MapperType::Exrom(m) => m.open_bus(addr, val),
        }
    }

    fn save_sram(&self, out: &mut Vec<u8>)
        ensures
            final(out)@ == old(out)@,
    {
        match self {
            MapperType::NullMapper(m) => m.save_sram(out),
            MapperType::Nrom(m) => m.save_sram(out),
            MapperType::Sxrom(m) => m.save_sram(out),
            MapperType::Uxrom(m) => m.save_sram(out),
            MapperType::Cnrom(m) => m.save_sram(out),
            MapperType::Txrom(m) => m.save_sram(out),
            MapperType::Axrom(m) => m.save_sram(out),
            MapperType::Pxrom(m) => m.save_sram(out),
            MapperType::Exrom(m) => m.save_sram(out),
        }
    }

    fn load_sram(&mut self, data: &Vec<u8>, pos: usize) -> (r: Result<usize, StateError>)
        ensures
            *final(self) == *old(self),
            r matches Ok(np) && np == pos,
    {
        match self {
            MapperType::NullMapper(m) => m.load_sram(data, pos),
            MapperType::Nrom(m) => m.load_sram(data, pos),
            MapperType::Sxrom(m) => m.load_sram(data, pos),
            MapperType::Uxrom(m) => m.load_sram(data, pos),
            MapperType::Cnrom(m) => m.load_sram(data, pos),
            MapperType::Txrom(m) => m.load_sram(data, pos),
            MapperType::Axrom(m) => m.load_sram(data, pos),
            MapperType::Pxrom(m) => m.load_sram(data, pos),
            MapperType::Exrom(m) => m.load_sram(data, pos),
        }
    }
}

/// Resolves a freshly parsed cartridge to its mapper variant: a fixed
/// lookup from the header's mapper number to the matching constructor.  An
/// unsupported number is a hard load-time failure carrying the numeric id;
/// no partial mapper is constructed.
pub fn load_rom(cart: Cartridge) -> (r: Result<MapperType, LoadError>)
    requires
        cart.wf(),
        cart.prg_ram@.len() == 0,
        cart.chr_ram@.len() == 0,
        cart.ex_ram@.len() == 0,
    ensures
        r is Err <==> !(cart.header.mapper_num == 0 || cart.header.mapper_num == 1
            || cart.header.mapper_num == 2 || cart.header.mapper_num == 3
            || cart.header.mapper_num == 4 || cart.header.mapper_num == 5
            || cart.header.mapper_num == 7 || cart.header.mapper_num == 9
            || cart.header.mapper_num == 71 || cart.header.mapper_num == 155),
        r is Err ==> r == Err::<MapperType, LoadError>(
            LoadError::UnsupportedMapper(cart.header.mapper_num),
        ),
        r matches Ok(m) ==> m.inv(),
        cart.header.mapper_num == 0 ==> (r matches Ok(m) && m matches MapperType::Nrom(n)
            && Nrom::load_rel(cart, n)),
        cart.header.mapper_num == 1 || cart.header.mapper_num == 155 ==> (r matches Ok(m)
            && m matches MapperType::Sxrom(n) && Sxrom::load_rel(
            cart,
            if cart.header.mapper_num == 155 {
                MMC1Variant::A
            } else {
                MMC1Variant::B
            },
            n,
        )),
        cart.header.mapper_num == 2 || cart.header.mapper_num == 71 ==> (r matches Ok(m)
            && m matches MapperType::Uxrom(n) && Uxrom::load_rel(cart, n)),
        cart.header.mapper_num == 3 ==> (r matches Ok(m) && m matches MapperType::Cnrom(n)
            && Cnrom::load_rel(cart, n)),
        cart.header.mapper_num == 5 ==> (r matches Ok(m) && m matches MapperType::Exrom(n)
            && Exrom::load_rel(cart, n)),
        cart.header.mapper_num == 7 ==> (r matches Ok(m) && m matches MapperType::Axrom(n)
            && Axrom::load_rel(cart, n)),
        cart.header.mapper_num == 9 ==> (r matches Ok(m) && m matches MapperType::Pxrom(n)
            && Pxrom::load_rel(cart, n)),
        cart.header.mapper_num == 4 ==> (r matches Ok(m) && m matches MapperType::Txrom(n)
            && Txrom::load_rel(cart, n)),
{
    let num: u16 = cart.header.mapper_num;
    if num == 0 {
        Ok(Nrom::load(cart))
    } else if num == 1 {
        Ok(Sxrom::load(cart, MMC1Variant::B))
    } else if num == 155 {
        Ok(Sxrom::load(cart, MMC1Variant::A))
    } else if num == 2 || num == 71 {
        Ok(Uxrom::load(cart))
    } else if num == 5 {
        Ok(Exrom::load(cart))
    } else if num == 7 {
        Ok(Axrom::load(cart))
    } else if num == 9 {
        Ok(Pxrom::load(cart))
    } else if num == 3 {
        Ok(Cnrom::load(cart))
    } else if num == 4 {
        Ok(Txrom::load(cart))
    } else {
        Err(LoadError::UnsupportedMapper(num))
    }
}

/// Builds the mapper handle used while no cartridge is loaded.
pub fn null() -> (r: MapperType)
    ensures
        r.inv(),
        r matches MapperType::NullMapper(_),
{
    let null_mapper = NullMapper {  };
    MapperType::NullMapper(null_mapper)
}

} // verus!
