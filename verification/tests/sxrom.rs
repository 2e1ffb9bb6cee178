use nes_mappers::cartridge::Cartridge;
use nes_mappers::mapper::{load_rom, Mapper, MapperType, Mirroring, StateError};

fn prg_byte(i: usize) -> u8 {
    (i % 251) as u8
}

fn chr_byte(i: usize) -> u8 {
    ((i * 7 + 3) % 249) as u8
}

/// 64 KiB PRG-ROM (four 16 KiB banks) and 32 KiB CHR-ROM (eight 4 KiB banks).
fn make_cart(mapper_num: u16) -> Cartridge {
    let prg: Vec<u8> = (0..4 * 0x4000).map(prg_byte).collect();
    let chr: Vec<u8> = (0..4 * 0x2000).map(chr_byte).collect();
    match Cartridge::new(mapper_num, 4, 4, Mirroring::Horizontal, false, false, prg, chr) {
        Some(c) => c,
        None => panic!("cartridge data rejected"),
    }
}

fn load_ok(cart: Cartridge) -> MapperType {
    match load_rom(cart) {
        Ok(m) => m,
        Err(_) => panic!("loader rejected the MMC1 family"),
    }
}

fn make_sxrom() -> MapperType {
    load_ok(make_cart(1))
}

/// Feeds a 5-bit value through the serial port, least significant bit first.
fn write_serial(m: &mut MapperType, addr: u16, value: u8) {
    for i in 0..5 {
        m.writeb(addr, (value >> i) & 1);
    }
}

#[test]
fn sxrom_powers_on_with_last_bank_fixed_high() {
    let mut m = make_sxrom();
    assert_eq!(m.readb(0x8000), prg_byte(0));
    assert_eq!(m.readb(0xC000), prg_byte(3 * 0x4000));
    assert_eq!(m.readb(0xFFFF), prg_byte(4 * 0x4000 - 1));
    assert_eq!(m.mirroring(), Mirroring::SingleScreenA);
}

#[test]
fn sxrom_serial_write_switches_prg_bank() {
    let mut m = make_sxrom();
    write_serial(&mut m, 0xE000, 2);
    assert_eq!(m.readb(0x8000), prg_byte(2 * 0x4000));
    assert_eq!(m.readb(0xBFFF), prg_byte(2 * 0x4000 + 0x3FFF));
    // The high window stays fixed to the last bank in the power-on mode.
    assert_eq!(m.readb(0xC000), prg_byte(3 * 0x4000));
}

#[test]
fn sxrom_prg_modes_follow_the_control_register() {
    let mut m = make_sxrom();
    write_serial(&mut m, 0xE000, 2); // PRG bank 2
    // Mode 2: first bank fixed at $8000, the register switches $C000.
    write_serial(&mut m, 0x8000, (2 << 2) | 3);
    assert_eq!(m.readb(0x8000), prg_byte(0));
    assert_eq!(m.readb(0xC000), prg_byte(2 * 0x4000));
    // Mode 0: one 32 KiB window; the bank's low bit is ignored.
    write_serial(&mut m, 0x8000, 3);
    assert_eq!(m.readb(0x8000), prg_byte(2 * 0x4000));
    assert_eq!(m.readb(0xC000), prg_byte(3 * 0x4000));
    write_serial(&mut m, 0xE000, 3); // bank 3: masked even to 2
    assert_eq!(m.readb(0x8000), prg_byte(2 * 0x4000));
}

#[test]
fn sxrom_mirroring_is_software_controlled() {
    let mut m = make_sxrom();
    write_serial(&mut m, 0x8000, 0x0E); // mode 3, mirroring bits = 2
    assert_eq!(m.mirroring(), Mirroring::Vertical);
    write_serial(&mut m, 0x8000, 0x0F);
    assert_eq!(m.mirroring(), Mirroring::Horizontal);
    write_serial(&mut m, 0x8000, 0x0D);
    assert_eq!(m.mirroring(), Mirroring::SingleScreenB);
}

#[test]
fn sxrom_chr_modes_switch_4k_and_8k_windows() {
    let mut m = make_sxrom();
    // 8 KiB mode (control bit 4 clear): the register's low bit is ignored.
    write_serial(&mut m, 0xA000, 5);
    assert_eq!(m.readb(0x0000), chr_byte(4 * 0x1000));
    assert_eq!(m.readb(0x1000), chr_byte(5 * 0x1000));
    // 4 KiB mode: the two registers switch independently.
    write_serial(&mut m, 0x8000, 0x10 | 0x0C);
    write_serial(&mut m, 0xA000, 2);
    write_serial(&mut m, 0xC000, 7);
    assert_eq!(m.readb(0x0000), chr_byte(2 * 0x1000));
    assert_eq!(m.readb(0x1000), chr_byte(7 * 0x1000));
}

#[test]
fn sxrom_reset_bit_clears_the_serial_port() {
    let mut m = make_sxrom();
    // Two stray bits, then a reset write: the next full sequence works.
    m.writeb(0x8000, 1);
    m.writeb(0x8000, 1);
    m.writeb(0x8000, 0x80);
    write_serial(&mut m, 0xE000, 1);
    assert_eq!(m.readb(0x8000), prg_byte(0x4000));
    // The reset also restores the fixed-high PRG mode.
    assert_eq!(m.readb(0xC000), prg_byte(3 * 0x4000));
}

#[test]
fn sxrom_save_then_load_restores_reads_and_partial_shifts() {
    let mut m = make_sxrom();
    write_serial(&mut m, 0xE000, 2);
    // Leave two bits sitting in the shift register.
    m.writeb(0x8000, 1);
    m.writeb(0x8000, 0);
    let mut state: Vec<u8> = Vec::new();
    m.save(&mut state);
    assert_eq!(state.len(), 7);

    let mut fresh = load_ok(make_cart(1));
    assert_eq!(fresh.load(&state, 0), Ok(7));
    for &addr in &[0x0000u16, 0x1234, 0x8000, 0xC000, 0xFFFF] {
        assert_eq!(fresh.readb(addr), m.readb(addr));
    }
    // Finishing the interrupted sequence gives the same result on both.
    for w in [1u8, 0, 0] {
        m.writeb(0x8000, w);
        fresh.writeb(0x8000, w);
    }
    assert_eq!(fresh.mirroring(), m.mirroring());
    assert_eq!(fresh.readb(0x8000), m.readb(0x8000));
}

#[test]
fn sxrom_load_rejects_corrupt_state() {
    let mut m = make_sxrom();
    let mut good: Vec<u8> = Vec::new();
    m.save(&mut good);

    let mut short = good.clone();
    short.truncate(6);
    assert_eq!(m.load(&short, 0), Err(StateError::UnexpectedEnd));

    let mut bad_count = good.clone();
    bad_count[1] = 5;
    assert_eq!(m.load(&bad_count, 0), Err(StateError::InvalidShiftCount(5)));

    let mut bad_variant = good.clone();
    bad_variant[6] = 2;
    assert_eq!(m.load(&bad_variant, 0), Err(StateError::InvalidVariant(2)));

    let mut after: Vec<u8> = Vec::new();
    m.save(&mut after);
    assert_eq!(after, good);
}

#[test]
fn mapper_numbers_pick_the_mmc1_revision() {
    // Mapper 1 loads the B revision, mapper 155 the A revision; the save
    // state's last byte carries it.
    let m1 = load_ok(make_cart(1));
    let mut out1: Vec<u8> = Vec::new();
    m1.save(&mut out1);
    assert_eq!(out1[6], 1);

    let m155 = load_ok(make_cart(155));
    let mut out155: Vec<u8> = Vec::new();
    m155.save(&mut out155);
    assert_eq!(out155[6], 0);
}
