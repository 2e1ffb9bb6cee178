use nes_mappers::cartridge::Cartridge;
use nes_mappers::mapper::{load_rom, Mapper, MapperType, Mirroring, StateError};

fn prg_byte(i: usize) -> u8 {
    (i % 251) as u8
}

fn chr_byte(i: usize) -> u8 {
    ((i * 7 + 3) % 249) as u8
}

/// 64 KiB PRG-ROM (eight 8 KiB banks) and 32 KiB CHR-ROM (32 1 KiB banks).
fn make_exrom() -> MapperType {
    let prg: Vec<u8> = (0..4 * 0x4000).map(prg_byte).collect();
    let chr: Vec<u8> = (0..4 * 0x2000).map(chr_byte).collect();
    let cart = match Cartridge::new(5, 4, 4, Mirroring::Horizontal, false, false, prg, chr) {
        Some(c) => c,
        None => panic!("cartridge data rejected"),
    };
    match load_rom(cart) {
        Ok(m) => m,
        Err(_) => panic!("loader rejected mapper 5"),
    }
}

#[test]
fn exrom_prg_banking_follows_the_mode_register() {
    let mut m = make_exrom();
    // Mode 3 (power-on): four independent 8 KiB windows.
    m.writeb(0x5114, 1);
    m.writeb(0x5115, 2);
    m.writeb(0x5116, 3);
    m.writeb(0x5117, 4);
    assert_eq!(m.readb(0x8000), prg_byte(0x2000));
    assert_eq!(m.readb(0xA000), prg_byte(2 * 0x2000));
    assert_eq!(m.readb(0xC000), prg_byte(3 * 0x2000));
    assert_eq!(m.readb(0xE000), prg_byte(4 * 0x2000));
    // Mode 1: two 16 KiB windows from $5115 and $5117 (low bit ignored).
    m.writeb(0x5100, 1);
    assert_eq!(m.readb(0x8000), prg_byte(2 * 0x2000));
    assert_eq!(m.readb(0xA000), prg_byte(3 * 0x2000));
    assert_eq!(m.readb(0xC000), prg_byte(4 * 0x2000));
    assert_eq!(m.readb(0xE000), prg_byte(5 * 0x2000));
    // Mode 0: one 32 KiB window from $5117, masked to a multiple of four.
    m.writeb(0x5100, 0);
    m.writeb(0x5117, 5); // masked to 4
    assert_eq!(m.readb(0x8000), prg_byte(4 * 0x2000));
    assert_eq!(m.readb(0xE000), prg_byte(7 * 0x2000));
}

#[test]
fn exrom_chr_banking_follows_the_mode_register() {
    let mut m = make_exrom();
    // Mode 3 (power-on): eight 1 KiB windows.
    m.writeb(0x5120, 9);
    assert_eq!(m.readb(0x0000), chr_byte(9 * 0x400));
    m.writeb(0x5127, 12);
    assert_eq!(m.readb(0x1C00), chr_byte(12 * 0x400));
    // Mode 0: one 8 KiB window from $5127, in 8 KiB units.
    m.writeb(0x5101, 0);
    m.writeb(0x5127, 2);
    assert_eq!(m.readb(0x0000), chr_byte(16 * 0x400));
    assert_eq!(m.readb(0x0400), chr_byte(17 * 0x400));
    // Mode 2: four 2 KiB windows from the odd registers, in 2 KiB units.
    m.writeb(0x5101, 2);
    m.writeb(0x5121, 3);
    assert_eq!(m.readb(0x0000), chr_byte(6 * 0x400));
    assert_eq!(m.readb(0x0400), chr_byte(7 * 0x400));
}

#[test]
fn exrom_expansion_ram_reads_and_writes() {
    let mut m = make_exrom();
    assert_eq!(m.readb(0x5C05), 0);
    m.writeb(0x5C05, 0xAB);
    assert_eq!(m.readb(0x5C05), 0xAB);
    m.writeb(0x5FFF, 0xCD);
    assert_eq!(m.readb(0x5FFF), 0xCD);
}

#[test]
fn exrom_multiplier_reports_the_product() {
    let mut m = make_exrom();
    m.writeb(0x5205, 7);
    m.writeb(0x5206, 9);
    assert_eq!(m.readb(0x5205), 63);
    assert_eq!(m.readb(0x5206), 0);
    m.writeb(0x5205, 200);
    m.writeb(0x5206, 201);
    assert_eq!(m.readb(0x5205), 0x08); // 200 * 201 == 0x9D08
    assert_eq!(m.readb(0x5206), 0x9D);
}

#[test]
fn exrom_nametable_register_drives_mirroring() {
    let mut m = make_exrom();
    assert_eq!(m.mirroring(), Mirroring::Horizontal);
    m.writeb(0x5105, 0x44);
    assert_eq!(m.mirroring(), Mirroring::Vertical);
    m.writeb(0x5105, 0x00);
    assert_eq!(m.mirroring(), Mirroring::SingleScreenA);
    m.writeb(0x5105, 0x55);
    assert_eq!(m.mirroring(), Mirroring::SingleScreenB);
    // A non-standard mapping leaves the reported mode unchanged.
    m.writeb(0x5105, 0x13);
    assert_eq!(m.mirroring(), Mirroring::SingleScreenB);
    m.writeb(0x5105, 0x50);
    assert_eq!(m.mirroring(), Mirroring::Horizontal);
}

#[test]
fn exrom_scanline_irq_fires_at_the_target_and_acknowledges() {
    let mut m = make_exrom();
    m.writeb(0x5203, 3); // target scanline
    m.writeb(0x5204, 0x80); // enable
    m.clock();
    m.clock();
    assert!(!m.irq_pending());
    m.clock(); // scanline counter reaches 3
    assert!(m.irq_pending());
    // The $5204 status read reports and acknowledges the IRQ.
    assert_eq!(m.readb(0x5204), 0x80);
    assert!(!m.irq_pending());
    assert_eq!(m.readb(0x5204), 0);
}

#[test]
fn exrom_save_then_load_restores_reads() {
    let mut m = make_exrom();
    m.writeb(0x5100, 1);
    m.writeb(0x5115, 2);
    m.writeb(0x5117, 4);
    m.writeb(0x5120, 9);
    m.writeb(0x5105, 0x44);
    m.writeb(0x5C05, 0x5A);
    m.writeb(0x5203, 10);
    m.writeb(0x5204, 0x80);
    m.clock();
    let mut state: Vec<u8> = Vec::new();
    m.save(&mut state);
    assert_eq!(state.len(), 23);

    let mut fresh = make_exrom();
    assert_eq!(fresh.load(&state, 0), Ok(23));
    for &addr in &[0x0000u16, 0x1000, 0x8000, 0xA000, 0xE000, 0x5205, 0x5206] {
        assert_eq!(fresh.peekb(addr), m.peekb(addr));
    }
    assert_eq!(fresh.mirroring(), m.mirroring());

    let mut bad = state.clone();
    bad[3] = 9;
    assert_eq!(fresh.load(&bad, 0), Err(StateError::InvalidMirroring(9)));
    let short = vec![0u8; 22];
    assert_eq!(fresh.load(&short, 0), Err(StateError::UnexpectedEnd));
}
