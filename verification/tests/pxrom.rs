use nes_mappers::cartridge::Cartridge;
use nes_mappers::mapper::{load_rom, Mapper, MapperType, Mirroring, StateError};

fn prg_byte(i: usize) -> u8 {
    (i % 251) as u8
}

fn chr_byte(i: usize) -> u8 {
    ((i * 7 + 3) % 249) as u8
}

/// 64 KiB PRG-ROM (eight 8 KiB banks) and 32 KiB CHR-ROM (eight 4 KiB banks).
fn make_pxrom() -> MapperType {
    let prg: Vec<u8> = (0..4 * 0x4000).map(prg_byte).collect();
    let chr: Vec<u8> = (0..4 * 0x2000).map(chr_byte).collect();
    let cart = match Cartridge::new(9, 4, 4, Mirroring::Vertical, false, false, prg, chr) {
        Some(c) => c,
        None => panic!("cartridge data rejected"),
    };
    match load_rom(cart) {
        Ok(m) => m,
        Err(_) => panic!("loader rejected mapper 9"),
    }
}

#[test]
fn pxrom_fixes_the_last_three_prg_banks() {
    let mut m = make_pxrom();
    assert_eq!(m.readb(0x8000), prg_byte(0));
    assert_eq!(m.readb(0xA000), prg_byte(5 * 0x2000));
    assert_eq!(m.readb(0xC000), prg_byte(6 * 0x2000));
    assert_eq!(m.readb(0xE000), prg_byte(7 * 0x2000));
    // $A000..=$AFFF writes switch only the low window.
    m.writeb(0xA123, 3);
    assert_eq!(m.readb(0x8000), prg_byte(3 * 0x2000));
    assert_eq!(m.readb(0xA000), prg_byte(5 * 0x2000));
}

#[test]
fn pxrom_latches_flip_on_marker_fetches() {
    let mut m = make_pxrom();
    m.writeb(0xB000, 1); // $FD bank, low half
    m.writeb(0xC000, 2); // $FE bank, low half
    m.writeb(0xD000, 4); // $FD bank, high half
    m.writeb(0xE000, 5); // $FE bank, high half
    // Both latches power on holding $FD.
    assert_eq!(m.readb(0x0000), chr_byte(0x1000));
    assert_eq!(m.readb(0x1000), chr_byte(4 * 0x1000));
    // The $0FE8 fetch returns its byte first, then flips latch 0.
    assert_eq!(m.readb(0x0FE8), chr_byte(0x1000 + 0xFE8));
    assert_eq!(m.readb(0x0000), chr_byte(2 * 0x1000));
    // Latch 1 answers to the $1FE8..=$1FEF range.
    m.readb(0x1FEC);
    assert_eq!(m.readb(0x1000), chr_byte(5 * 0x1000));
    // And both flip back on the $FD markers.
    m.readb(0x0FD8);
    m.readb(0x1FDA);
    assert_eq!(m.readb(0x0000), chr_byte(0x1000));
    assert_eq!(m.readb(0x1000), chr_byte(4 * 0x1000));
    // The PPU address bus notification flips them too.
    m.vram_change(0x0FE8);
    assert_eq!(m.readb(0x0000), chr_byte(2 * 0x1000));
}

#[test]
fn pxrom_mirroring_register() {
    let mut m = make_pxrom();
    assert_eq!(m.mirroring(), Mirroring::Vertical);
    m.writeb(0xF000, 1);
    assert_eq!(m.mirroring(), Mirroring::Horizontal);
    m.writeb(0xFABC, 0);
    assert_eq!(m.mirroring(), Mirroring::Vertical);
}

#[test]
fn pxrom_save_then_load_restores_reads() {
    let mut m = make_pxrom();
    m.writeb(0xA000, 2);
    m.writeb(0xB000, 3);
    m.readb(0x0FE8); // flip latch 0
    let mut state: Vec<u8> = Vec::new();
    m.save(&mut state);
    assert_eq!(state.len(), 8);

    let mut fresh = make_pxrom();
    assert_eq!(fresh.load(&state, 0), Ok(8));
    for &addr in &[0x0000u16, 0x1000, 0x8000, 0xA000, 0xE000] {
        assert_eq!(fresh.peekb(addr), m.peekb(addr));
    }
    assert_eq!(fresh.mirroring(), m.mirroring());

    let mut bad = state.clone();
    bad[7] = 9;
    assert_eq!(fresh.load(&bad, 0), Err(StateError::InvalidMirroring(9)));
    let short = vec![0u8; 7];
    assert_eq!(fresh.load(&short, 0), Err(StateError::UnexpectedEnd));
}
