use nes_mappers::cartridge::Cartridge;
use nes_mappers::mapper::{
    load_rom, null, LoadError, Mapper, MapperType, Mirroring, ResetKind, StateError,
};

fn prg_byte(i: usize) -> u8 {
    (i % 251) as u8
}

fn chr_byte(i: usize) -> u8 {
    ((i * 7 + 3) % 249) as u8
}

fn make_cart(
    mapper_num: u16,
    prg_16k: u16,
    chr_8k: u16,
    mirroring: Mirroring,
    battery: bool,
    four_screen: bool,
) -> Cartridge {
    let prg: Vec<u8> = (0..prg_16k as usize * 0x4000).map(prg_byte).collect();
    let chr: Vec<u8> = (0..chr_8k as usize * 0x2000).map(chr_byte).collect();
    match Cartridge::new(mapper_num, prg_16k, chr_8k, mirroring, battery, four_screen, prg, chr) {
        Some(c) => c,
        None => panic!("cartridge data rejected"),
    }
}

fn load_ok(cart: Cartridge) -> MapperType {
    match load_rom(cart) {
        Ok(m) => m,
        Err(_) => panic!("loader rejected a supported mapper"),
    }
}

#[test]
fn cartridge_constructor_rejects_inconsistent_sizes() {
    let prg = vec![0u8; 0x4000];
    // Declared two banks, supplied one.
    assert!(Cartridge::new(0, 2, 0, Mirroring::Horizontal, false, false, prg, vec![]).is_none());
    // No PRG at all.
    assert!(Cartridge::new(0, 0, 0, Mirroring::Horizontal, false, false, vec![], vec![]).is_none());
}

#[test]
fn unsupported_mapper_number_fails_load() {
    let cart = make_cart(250, 1, 1, Mirroring::Horizontal, false, false);
    match load_rom(cart) {
        Err(LoadError::UnsupportedMapper(n)) => assert_eq!(n, 250),
        Ok(_) => panic!("mapper 250 must not load"),
    }
}

#[test]
fn null_mapper_has_default_behaviour() {
    let mut m = null();
    assert_eq!(m.readb(0x8000), 0);
    assert_eq!(m.peekb(0x8000), 0);
    m.writeb(0x8000, 0xFF);
    assert_eq!(m.readb(0x8000), 0);
    assert_eq!(m.mirroring(), Mirroring::Horizontal);
    assert!(!m.irq_pending());
    assert!(!m.battery_backed());
    assert!(m.use_ciram(0x2000));
    assert_eq!(m.nametable_page(0x2000), 0);
    m.clock();
    m.reset(ResetKind::Hard);
    m.vram_change(0x1000);
    m.ppu_write(0x2000, 0x55);
    m.open_bus(0x4000, 0x55);
    let mut out: Vec<u8> = Vec::new();
    m.save(&mut out);
    assert!(out.is_empty());
    assert_eq!(m.load(&out, 0), Ok(0));
    m.save_sram(&mut out);
    assert!(out.is_empty());
    assert_eq!(m.load_sram(&out, 0), Ok(0));
}

#[test]
fn nrom_16k_prg_is_mirrored() {
    // Both $8000..=$BFFF and $C000..=$FFFF read identical bytes from the
    // same physical region.
    let mut m = load_ok(make_cart(0, 1, 1, Mirroring::Vertical, false, false));
    for addr in 0x8000u16..=0xBFFF {
        let low = m.readb(addr);
        let high = m.readb(addr + 0x4000);
        assert_eq!(low, high);
        assert_eq!(low, prg_byte((addr - 0x8000) as usize));
    }
}

#[test]
fn nrom_32k_prg_is_not_mirrored() {
    let mut m = load_ok(make_cart(0, 2, 1, Mirroring::Vertical, false, false));
    assert_eq!(m.readb(0x8000), prg_byte(0));
    assert_eq!(m.readb(0xC000), prg_byte(0x4000));
    assert_eq!(m.readb(0xFFFF), prg_byte(0x7FFF));
}

#[test]
fn nrom_reads_chr_and_prg_ram() {
    let mut m = load_ok(make_cart(0, 1, 1, Mirroring::Vertical, false, false));
    assert_eq!(m.readb(0x0000), chr_byte(0));
    assert_eq!(m.readb(0x1FFF), chr_byte(0x1FFF));
    // CHR-ROM ignores writes.
    m.writeb(0x0000, 0xAB);
    assert_eq!(m.readb(0x0000), chr_byte(0));
    // PRG-RAM accepts them.
    assert_eq!(m.readb(0x6000), 0);
    m.writeb(0x6000, 0xCD);
    assert_eq!(m.readb(0x6000), 0xCD);
    // PRG-ROM ignores writes.
    m.writeb(0x8000, 0xEE);
    assert_eq!(m.readb(0x8000), prg_byte(0));
    // Unmapped space reads 0.
    assert_eq!(m.readb(0x4000), 0);
    assert_eq!(m.mirroring(), Mirroring::Vertical);
}

#[test]
fn nrom_chr_ram_accepts_writes() {
    let mut m = load_ok(make_cart(0, 1, 0, Mirroring::Horizontal, false, false));
    assert_eq!(m.readb(0x0000), 0);
    m.writeb(0x0000, 0x5A);
    assert_eq!(m.readb(0x0000), 0x5A);
}

#[test]
fn nrom_battery_flag_is_reported() {
    let m = load_ok(make_cart(0, 1, 1, Mirroring::Horizontal, true, false));
    assert!(m.battery_backed());
}

#[test]
fn cnrom_register_write_switches_chr_bank() {
    // Writing byte v to any address in $8000..=$FFFF sets the CHR bank to
    // v masked to the bank-count mask; pattern reads reflect it at once.
    let mut m = load_ok(make_cart(3, 2, 4, Mirroring::Horizontal, false, false));
    for &(reg_addr, val) in
        &[(0x8000u16, 1u8), (0x9ABC, 2), (0xFFFF, 3), (0xC123, 0), (0x8001, 0xFF), (0xE000, 0xFE)]
    {
        m.writeb(reg_addr, val);
        let bank = (val & 3) as usize;
        for &off in &[0usize, 1, 0x1000, 0x1FFF] {
            assert_eq!(m.readb(off as u16), chr_byte(bank * 0x2000 + off));
        }
    }
}

#[test]
fn cnrom_prg_windows_are_fixed() {
    let mut m = load_ok(make_cart(3, 2, 4, Mirroring::Horizontal, false, false));
    assert_eq!(m.readb(0x8000), prg_byte(0));
    assert_eq!(m.readb(0xC000), prg_byte(0x4000));
    // The register write changes only the CHR bank.
    m.writeb(0x8000, 2);
    assert_eq!(m.readb(0x8000), prg_byte(0));
    assert_eq!(m.readb(0xC000), prg_byte(0x4000));
}

#[test]
fn cnrom_save_then_load_restores_reads() {
    let mut m = load_ok(make_cart(3, 2, 4, Mirroring::Horizontal, false, false));
    m.writeb(0x8000, 2);
    let mut state: Vec<u8> = Vec::new();
    m.save(&mut state);
    assert_eq!(state.len(), 6);

    let mut fresh = load_ok(make_cart(3, 2, 4, Mirroring::Horizontal, false, false));
    assert_eq!(fresh.load(&state, 0), Ok(6));
    for &addr in &[0x0000u16, 0x1234, 0x1FFF, 0x8000, 0xC000, 0xFFFF] {
        assert_eq!(fresh.readb(addr), m.readb(addr));
    }
}

#[test]
fn cnrom_load_rejects_short_data() {
    let mut m = load_ok(make_cart(3, 2, 4, Mirroring::Horizontal, false, false));
    let short = vec![0u8; 5];
    assert_eq!(m.load(&short, 0), Err(StateError::UnexpectedEnd));
    // A failed load leaves the state unchanged.
    assert_eq!(m.readb(0x0000), chr_byte(0));
}

#[test]
fn mirroring_byte_round_trips() {
    for m in [
        Mirroring::Horizontal,
        Mirroring::Vertical,
        Mirroring::SingleScreenA,
        Mirroring::SingleScreenB,
        Mirroring::FourScreen,
    ] {
        let mut out: Vec<u8> = Vec::new();
        m.save(&mut out);
        assert_eq!(out.len(), 1);
        let mut back = Mirroring::default();
        assert_eq!(back.load(&out, 0), Ok(1));
        assert_eq!(back, m);
    }
}

#[test]
fn mirroring_load_rejects_out_of_range_byte() {
    let mut m = Mirroring::default();
    assert_eq!(m.load(&vec![9u8], 0), Err(StateError::InvalidMirroring(9)));
    assert_eq!(m.load(&Vec::new(), 0), Err(StateError::UnexpectedEnd));
    assert_eq!(m, Mirroring::Horizontal);
}

#[test]
fn uxrom_switches_low_window_and_fixes_last() {
    let mut m = load_ok(make_cart(2, 4, 1, Mirroring::Vertical, false, false));
    assert_eq!(m.readb(0x8000), prg_byte(0));
    assert_eq!(m.readb(0xC000), prg_byte(3 * 0x4000));
    m.writeb(0x9123, 2);
    assert_eq!(m.readb(0x8000), prg_byte(2 * 0x4000));
    assert_eq!(m.readb(0xBFFF), prg_byte(2 * 0x4000 + 0x3FFF));
    // The high window stays fixed to the last bank.
    assert_eq!(m.readb(0xC000), prg_byte(3 * 0x4000));
    assert_eq!(m.readb(0xFFFF), prg_byte(4 * 0x4000 - 1));
    // Only the low four bits of the written byte select the bank.
    m.writeb(0x8000, 0xF1);
    assert_eq!(m.readb(0x8000), prg_byte(0x4000));
}

#[test]
fn uxrom_loads_under_both_family_numbers() {
    for num in [2u16, 71] {
        let mut m = load_ok(make_cart(num, 2, 1, Mirroring::Horizontal, false, false));
        m.writeb(0x8000, 1);
        assert_eq!(m.readb(0x8000), prg_byte(0x4000));
    }
}

#[test]
fn uxrom_save_then_load_restores_reads() {
    let mut m = load_ok(make_cart(2, 4, 1, Mirroring::Vertical, false, false));
    m.writeb(0x8000, 3);
    let mut state: Vec<u8> = Vec::new();
    m.save(&mut state);
    assert_eq!(state.len(), 2);
    let mut fresh = load_ok(make_cart(2, 4, 1, Mirroring::Vertical, false, false));
    assert_eq!(fresh.load(&state, 0), Ok(2));
    for &addr in &[0x8000u16, 0xA000, 0xC000, 0xFFFF] {
        assert_eq!(fresh.readb(addr), m.readb(addr));
    }
    assert_eq!(fresh.load(&vec![1u8], 0), Err(StateError::UnexpectedEnd));
}

#[test]
fn axrom_switches_32k_banks_and_single_screen() {
    // 64 KiB PRG-ROM: two 32 KiB banks; CHR-RAM board.
    let mut m = load_ok(make_cart(7, 4, 0, Mirroring::Horizontal, false, false));
    assert_eq!(m.mirroring(), Mirroring::SingleScreenA);
    assert_eq!(m.readb(0x8000), prg_byte(0));
    assert_eq!(m.readb(0xFFFF), prg_byte(0x7FFF));
    m.writeb(0x8000, 1);
    assert_eq!(m.readb(0x8000), prg_byte(0x8000));
    assert_eq!(m.readb(0xFFFF), prg_byte(0xFFFF));
    assert_eq!(m.mirroring(), Mirroring::SingleScreenA);
    // Bit 4 selects the second single-screen nametable.
    m.writeb(0x8000, 0x10);
    assert_eq!(m.mirroring(), Mirroring::SingleScreenB);
    assert_eq!(m.readb(0x8000), prg_byte(0));
    // Out-of-range banks wrap instead of faulting.
    m.writeb(0x8000, 0x07);
    assert_eq!(m.readb(0x8000), prg_byte(0x8000)); // 7 mod 2 == 1
    // CHR-RAM accepts writes.
    m.writeb(0x0123, 0x42);
    assert_eq!(m.readb(0x0123), 0x42);
}

#[test]
fn axrom_save_then_load_restores_state() {
    let mut m = load_ok(make_cart(7, 4, 0, Mirroring::Horizontal, false, false));
    m.writeb(0x8000, 0x11);
    let mut state: Vec<u8> = Vec::new();
    m.save(&mut state);
    assert_eq!(state.len(), 3);
    let mut fresh = load_ok(make_cart(7, 4, 0, Mirroring::Horizontal, false, false));
    assert_eq!(fresh.load(&state, 0), Ok(3));
    assert_eq!(fresh.mirroring(), Mirroring::SingleScreenB);
    assert_eq!(fresh.readb(0x8000), m.readb(0x8000));
    // A corrupt mirroring byte is reported, not defaulted.
    let bad = vec![0u8, 0u8, 9u8];
    assert_eq!(fresh.load(&bad, 0), Err(StateError::InvalidMirroring(9)));
    assert_eq!(fresh.mirroring(), Mirroring::SingleScreenB);
}

#[test]
fn loader_supports_every_family_of_the_lookup_table() {
    for num in [0u16, 1, 2, 3, 4, 5, 7, 9, 71, 155] {
        assert!(load_rom(make_cart(num, 2, 2, Mirroring::Horizontal, false, false)).is_ok());
    }
    for num in [6u16, 8, 10, 66, 250] {
        match load_rom(make_cart(num, 2, 2, Mirroring::Horizontal, false, false)) {
            Err(LoadError::UnsupportedMapper(n)) => assert_eq!(n, num),
            Ok(_) => panic!("unsupported mapper number must not load"),
        }
    }
}
