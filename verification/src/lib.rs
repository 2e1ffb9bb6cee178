//! NES cartridge memory mappers.
//!
//! Real NES cartridges carry circuitry that intercepts the CPU and PPU
//! address buses to provide bank switching, extra RAM, mirroring overrides
//! and scanline-synchronised interrupts.  This crate models those chips as
//! verified state machines: a reusable bank-window translator, a shared
//! mapper capability trait, a closed dispatch enum over the supported chip
//! families, and a loader that picks the family from the cartridge header.

pub mod banks;
pub mod cartridge;
pub mod mapper;
