use nes_mappers::cartridge::Cartridge;
use nes_mappers::mapper::txrom::Mmc3Revision;
use nes_mappers::mapper::{load_rom, Mapper, MapperType, Mirroring, ResetKind, StateError};

fn prg_byte(i: usize) -> u8 {
    (i % 251) as u8
}

fn chr_byte(i: usize) -> u8 {
    ((i * 7 + 3) % 249) as u8
}

/// 64 KiB PRG-ROM (eight 8 KiB banks) and 32 KiB CHR-ROM (32 1 KiB banks).
fn make_cart(mirroring: Mirroring, four_screen: bool) -> Cartridge {
    let prg: Vec<u8> = (0..4 * 0x4000).map(prg_byte).collect();
    let chr: Vec<u8> = (0..4 * 0x2000).map(chr_byte).collect();
    match Cartridge::new(4, 4, 4, mirroring, false, four_screen, prg, chr) {
        Some(c) => c,
        None => panic!("cartridge data rejected"),
    }
}

fn load_ok(cart: Cartridge) -> MapperType {
    match load_rom(cart) {
        Ok(m) => m,
        Err(_) => panic!("loader rejected mapper 4"),
    }
}

fn make_txrom() -> MapperType {
    load_ok(make_cart(Mirroring::Horizontal, false))
}

#[test]
fn power_on_layout_fixes_top_two_prg_banks() {
    let mut m = make_txrom();
    assert_eq!(m.readb(0x8000), prg_byte(0));
    assert_eq!(m.readb(0xA000), prg_byte(0));
    assert_eq!(m.readb(0xC000), prg_byte(6 * 0x2000)); // second-to-last bank
    assert_eq!(m.readb(0xE000), prg_byte(7 * 0x2000)); // last bank
    assert_eq!(m.readb(0xFFFF), prg_byte(8 * 0x2000 - 1));
}

#[test]
fn prg_bank_switching_follows_mode_bit() {
    let mut m = make_txrom();
    m.writeb(0x8000, 6);
    m.writeb(0x8001, 2); // R6 = 2
    m.writeb(0x8000, 7);
    m.writeb(0x8001, 3); // R7 = 3
    // Mode 0: $8000 shows R6, $A000 shows R7, $C000 fixed to next-to-last.
    m.writeb(0x8000, 0);
    assert_eq!(m.readb(0x8000), prg_byte(2 * 0x2000));
    assert_eq!(m.readb(0xA000), prg_byte(3 * 0x2000));
    assert_eq!(m.readb(0xC000), prg_byte(6 * 0x2000));
    assert_eq!(m.readb(0xE000), prg_byte(7 * 0x2000));
    // Mode 1 (bit 6): $8000 and $C000 swap roles.
    m.writeb(0x8000, 0x40);
    assert_eq!(m.readb(0x8000), prg_byte(6 * 0x2000));
    assert_eq!(m.readb(0xA000), prg_byte(3 * 0x2000));
    assert_eq!(m.readb(0xC000), prg_byte(2 * 0x2000));
    assert_eq!(m.readb(0xE000), prg_byte(7 * 0x2000));
}

#[test]
fn chr_bank_switching_masks_2k_banks_to_even() {
    let mut m = make_txrom();
    m.writeb(0x8000, 0);
    m.writeb(0x8001, 5); // R0 = 5, masked to 4 for the 2 KiB pair
    assert_eq!(m.readb(0x0000), chr_byte(4 * 0x400));
    assert_eq!(m.readb(0x0400), chr_byte(5 * 0x400));
    m.writeb(0x8000, 2);
    m.writeb(0x8001, 9); // R2 = 9: first 1 KiB window of the high half
    assert_eq!(m.readb(0x1000), chr_byte(9 * 0x400));
    // CHR inversion (bit 7) swaps the halves: R2 now answers at $0000.
    m.writeb(0x8000, 0x80);
    assert_eq!(m.readb(0x0000), chr_byte(9 * 0x400));
    assert_eq!(m.readb(0x1000), chr_byte(4 * 0x400));
    assert_eq!(m.readb(0x1400), chr_byte(5 * 0x400));
}

#[test]
fn mmc3_irq_counts_down_on_qualifying_edges() {
    // With latch L = 5, reload requested, IRQ enabled: the first qualifying
    // edge reloads the counter, each further edge decrements it, and the
    // IRQ becomes pending exactly on the edge where it reaches zero.
    let mut m = make_txrom();
    m.writeb(0xC000, 5); // latch
    m.writeb(0xC001, 0); // reload request
    m.writeb(0xE001, 0); // enable
    assert!(!m.irq_pending());
    for edge in 1..=10u32 {
        m.vram_change(0x1000); // A12 rising edge (standard silicon)
        m.vram_change(0x0000); // back low; not a qualifying edge
        let expect = edge >= 6; // reload on edge 1, then 5 decrements
        assert_eq!(m.irq_pending(), expect, "after edge {edge}");
    }
    // $E000 acknowledges and disables.
    m.writeb(0xE000, 0);
    assert!(!m.irq_pending());
    m.vram_change(0x1000);
    assert!(!m.irq_pending());
}

#[test]
fn mmc3_irq_sequence_is_reproducible() {
    let run = || {
        let mut m = make_txrom();
        m.writeb(0xC000, 3);
        m.writeb(0xC001, 0);
        m.writeb(0xE001, 0);
        let mut fired_at: Vec<u32> = Vec::new();
        for edge in 1..=8u32 {
            m.vram_change(0x1000);
            m.vram_change(0x0000);
            if m.irq_pending() {
                fired_at.push(edge);
            }
        }
        fired_at
    };
    let a = run();
    let b = run();
    assert_eq!(a, b);
    assert_eq!(a.first(), Some(&4u32)); // reload edge + 3 decrements
}

#[test]
fn non_pattern_addresses_do_not_clock_the_counter() {
    let mut m = make_txrom();
    m.writeb(0xC000, 1);
    m.writeb(0xC001, 0);
    m.writeb(0xE001, 0);
    for _ in 0..100 {
        m.vram_change(0x2000);
        m.vram_change(0x3F00);
    }
    assert!(!m.irq_pending());
}

#[test]
fn mirroring_register_switches_on_next_call() {
    let mut m = make_txrom();
    assert_eq!(m.mirroring(), Mirroring::Horizontal);
    m.writeb(0xA000, 0);
    assert_eq!(m.mirroring(), Mirroring::Vertical);
    m.writeb(0xA000, 1);
    assert_eq!(m.mirroring(), Mirroring::Horizontal);
    // Only bit 0 is decoded.
    m.writeb(0xA000, 0xFE);
    assert_eq!(m.mirroring(), Mirroring::Vertical);
}

#[test]
fn four_screen_board_ignores_mirroring_writes() {
    let mut m = load_ok(make_cart(Mirroring::FourScreen, true));
    assert_eq!(m.mirroring(), Mirroring::FourScreen);
    m.writeb(0xA000, 0);
    assert_eq!(m.mirroring(), Mirroring::FourScreen);
    m.writeb(0xA000, 1);
    assert_eq!(m.mirroring(), Mirroring::FourScreen);
    // The four-screen RAM overlay is readable and writable, and
    // $3000..=$3EFF mirrors $2000..=$2EFF as on real hardware.
    assert_eq!(m.readb(0x2000), 0);
    m.writeb(0x2000, 0x77);
    assert_eq!(m.readb(0x2000), 0x77);
    assert_eq!(m.readb(0x3000), 0x77);
    m.writeb(0x3456, 0x12);
    assert_eq!(m.readb(0x2456), 0x12);
}

#[test]
fn prg_ram_reads_and_writes() {
    let mut m = make_txrom();
    assert_eq!(m.readb(0x6000), 0);
    m.writeb(0x6000, 0x12);
    m.writeb(0x7FFF, 0x34);
    assert_eq!(m.readb(0x6000), 0x12);
    assert_eq!(m.readb(0x7FFF), 0x34);
    // Unmapped space reads 0.
    assert_eq!(m.readb(0x5000), 0);
}

#[test]
fn reset_restores_the_power_on_layout() {
    let mut m = make_txrom();
    m.writeb(0x8000, 6);
    m.writeb(0x8001, 5);
    m.writeb(0xC000, 9);
    m.writeb(0xC001, 0);
    m.writeb(0xE001, 0);
    m.vram_change(0x1000);
    m.reset(ResetKind::Soft);
    assert!(!m.irq_pending());
    assert_eq!(m.readb(0x8000), prg_byte(0));
    assert_eq!(m.readb(0xC000), prg_byte(6 * 0x2000));
    assert_eq!(m.readb(0xE000), prg_byte(7 * 0x2000));
}

fn next(state: &mut u64) -> u64 {
    *state = state
        .wrapping_mul(6364136223846793005)
        .wrapping_add(1442695040888963407);
    *state >> 33
}

#[test]
fn save_then_load_round_trips_randomized_register_states() {
    // For randomized register-write sequences, saving and then loading into
    // a freshly constructed instance reproduces identical subsequent reads.
    let mut seed: u64 = 0x1234_5678_9ABC_DEF0;
    let probe: Vec<u16> = (0..16)
        .map(|i| (i as u16) * 0x400)
        .chain((0..16).map(|i| 0x6000 + (i as u16) * 0xA7))
        .chain((0..16).map(|i| 0x8000 + (i as u16) * 0x7FF))
        .collect();
    for _round in 0..1000 {
        let mut m = make_txrom();
        for _w in 0..20 {
            let addr = 0x8000 + (next(&mut seed) % 0x8000) as u16;
            let val = (next(&mut seed) % 256) as u8;
            m.writeb(addr, val);
            if next(&mut seed) % 4 == 0 {
                m.vram_change(0x1000);
                m.vram_change(0x0000);
            }
        }
        let mut state: Vec<u8> = Vec::new();
        m.save(&mut state);
        assert_eq!(state.len(), 18);

        let mut fresh = make_txrom();
        assert_eq!(fresh.load(&state, 0), Ok(18));
        // Saving the restored instance reproduces the state bit for bit.
        let mut state2: Vec<u8> = Vec::new();
        fresh.save(&mut state2);
        assert_eq!(state2, state);
        assert_eq!(fresh.mirroring(), m.mirroring());
        assert_eq!(fresh.irq_pending(), m.irq_pending());
        for &addr in &probe {
            assert_eq!(fresh.readb(addr), m.readb(addr));
        }
    }
}

#[test]
fn load_rejects_corrupt_state() {
    let mut m = make_txrom();
    let mut good: Vec<u8> = Vec::new();
    m.save(&mut good);

    let mut short = good.clone();
    short.truncate(17);
    assert_eq!(m.load(&short, 0), Err(StateError::UnexpectedEnd));

    let mut bad_mirroring = good.clone();
    bad_mirroring[0] = 7;
    assert_eq!(m.load(&bad_mirroring, 0), Err(StateError::InvalidMirroring(7)));

    let mut bad_revision = good.clone();
    bad_revision[2] = 9;
    assert_eq!(m.load(&bad_revision, 0), Err(StateError::InvalidRevision(9)));

    // A four-screen state cannot be restored onto a board without the RAM.
    let mut four = good.clone();
    four[0] = 4;
    assert_eq!(m.load(&four, 0), Err(StateError::InvalidMirroring(4)));

    // The failed loads left the state unchanged.
    let mut after: Vec<u8> = Vec::new();
    m.save(&mut after);
    assert_eq!(after, good);
}

#[test]
fn acclaim_revision_clocks_on_falling_edge() {
    let mut m = make_txrom();
    match &mut m {
        MapperType::Txrom(t) => t.set_revision(Mmc3Revision::Acc),
        _ => panic!("expected a TxROM"),
    }
    m.writeb(0xC000, 1);
    m.writeb(0xC001, 0);
    m.writeb(0xE001, 0);
    // Rising edges alone never qualify on the Acclaim clone.
    m.vram_change(0x1000);
    assert!(!m.irq_pending());
    // Falling edges do: reload on the first, decrement to zero on the next.
    m.vram_change(0x0000);
    assert!(!m.irq_pending());
    m.vram_change(0x1000);
    m.vram_change(0x0000);
    assert!(m.irq_pending());
}

#[test]
fn pattern_reads_clock_the_counter_too() {
    let mut m = make_txrom();
    m.writeb(0xC000, 1);
    m.writeb(0xC001, 0);
    m.writeb(0xE001, 0);
    // readb on pattern addresses drives A12 just like vram_change.
    m.readb(0x1000);
    m.readb(0x0000);
    m.readb(0x1000);
    m.readb(0x0000);
    assert!(m.irq_pending());
}
