use nes_mappers::banks::MemBanks;

fn make() -> MemBanks {
    // 16 banks of 8 KiB backing a 32 KiB window row at $8000..=$FFFF.
    MemBanks::new(0x8000, 0xFFFF, 16 * 0x2000, 0x2000)
}

#[test]
fn new_starts_on_bank_zero() {
    let b = make();
    assert_eq!(b.translate(0x8000), 0);
    assert_eq!(b.translate(0x8123), 0x123);
    assert_eq!(b.translate(0xA000), 0);
    assert_eq!(b.translate(0xFFFF), 0x1FFF);
}

#[test]
fn set_selects_bank_for_one_slot() {
    let mut b = make();
    b.set(1, 5);
    assert_eq!(b.translate(0xA000), 5 * 0x2000);
    assert_eq!(b.translate(0xA037), 5 * 0x2000 + 0x37);
    // Other slots keep bank 0.
    assert_eq!(b.translate(0x8000), 0);
    assert_eq!(b.translate(0xC000), 0);
}

#[test]
fn out_of_range_bank_wraps_instead_of_faulting() {
    let mut b = make();
    b.set(0, 17);
    assert_eq!(b.translate(0x8000), 0x2000); // 17 mod 16 == 1
    b.set(0, usize::MAX);
    assert_eq!(b.translate(0x8000), (usize::MAX % 16) * 0x2000);
}

#[test]
fn set_range_assigns_consecutive_banks() {
    let mut b = make();
    b.set_range(0, 3, 4);
    assert_eq!(b.translate(0x8000), 4 * 0x2000);
    assert_eq!(b.translate(0xA000), 5 * 0x2000);
    assert_eq!(b.translate(0xC000), 6 * 0x2000);
    assert_eq!(b.translate(0xE000), 7 * 0x2000);
}

#[test]
fn last_is_top_bank_of_store() {
    let b = make();
    assert_eq!(b.last(), 15);
    let small = MemBanks::new(0x8000, 0xFFFF, 0x8000, 0x2000);
    assert_eq!(small.last(), 3);
}

#[test]
fn translate_after_set_follows_the_formula() {
    // For bank b and slot s, translate of an address inside slot s after
    // set(s, b) is (b mod total) * window + intra_offset.
    let total: usize = 16;
    let window: usize = 0x2000;
    for s in 0..4usize {
        for &bank in &[0usize, 1, 7, 15, 16, 33, 250] {
            let mut b = make();
            b.set(s, bank);
            let base: u16 = 0x8000 + (s as u16) * 0x2000;
            for &off in &[0usize, 1, 0x1FFF] {
                let addr = base + off as u16;
                assert_eq!(b.translate(addr), (bank % total) * window + off);
            }
        }
    }
}
