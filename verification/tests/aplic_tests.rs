use hs::aplic::{aplic_init, Aplic, InterruptDeliveryControl, SourceModes};
use hs::mmio::RegWrite;

const BASE: usize = 0xd00_0000;

fn aplic() -> Aplic {
    Aplic::new(BASE, 0x8000)
}

#[test]
fn new_keeps_base_and_size() {
    let a = Aplic::new(0x1234_0000, 0x4000);
    assert_eq!(a.base, 0x1234_0000);
    assert_eq!(a.size, 0x4000);
}

#[test]
fn domaincfg_encodes_flags() {
    let w = aplic().set_domaincfg(false, true, true);
    assert_eq!(w, RegWrite { addr: BASE, value: 0x104 });
    assert_eq!(aplic().set_domaincfg(true, false, false).value, 0x1);
    assert_eq!(aplic().set_domaincfg(true, true, true).value, 0x105);
    assert_eq!(aplic().set_domaincfg(false, false, false).value, 0);
}

#[test]
fn sourcecfg_addresses_and_modes() {
    let w = aplic().set_sourcecfg(10, SourceModes::LevelHigh);
    assert_eq!(w, RegWrite { addr: BASE + 0x28, value: 6 });
    assert_eq!(aplic().set_sourcecfg(1, SourceModes::Detached), RegWrite { addr: BASE + 4, value: 1 });
    assert_eq!(aplic().set_sourcecfg(1023, SourceModes::Inactive).addr, BASE + 0xFFC);
}

#[test]
fn source_mode_codes() {
    assert_eq!(SourceModes::Inactive.code(), 0);
    assert_eq!(SourceModes::Detached.code(), 1);
    assert_eq!(SourceModes::RisingEdge.code(), 4);
    assert_eq!(SourceModes::FallingEdge.code(), 5);
    assert_eq!(SourceModes::LevelHigh.code(), 6);
    assert_eq!(SourceModes::LevelLow.code(), 7);
}

#[test]
fn sourcecfg_delegate_keeps_ten_bits_of_child() {
    assert_eq!(aplic().set_sourcecfg_delegate(3, 5), RegWrite { addr: BASE + 12, value: 0x405 });
    assert_eq!(aplic().set_sourcecfg_delegate(3, 0xfff).value, 0x7ff);
}

#[test]
fn msiaddr_takes_page_number() {
    let (lo, hi) = aplic().set_msiaddr(0x2800_0000);
    assert_eq!(lo, RegWrite { addr: BASE + 0x1BC8, value: 0x28000 });
    assert_eq!(hi, RegWrite { addr: BASE + 0x1BCC, value: 0 });
}

#[test]
fn msiaddr_truncates_to_32_bits() {
    let (lo, _) = aplic().set_msiaddr(0x1_2345_6789_0000usize);
    assert_eq!(lo.value, 0x3456_7890);
}

#[test]
fn pending_words() {
    assert_eq!(aplic().read_pending(33), BASE + 0x1C04);
    assert_eq!(aplic().set_pending(33, true), RegWrite { addr: BASE + 0x1C04, value: 2 });
    assert_eq!(aplic().set_pending(33, false), RegWrite { addr: BASE + 0x1D04, value: 2 });
    assert_eq!(aplic().set_pending(31, true), RegWrite { addr: BASE + 0x1C00, value: 0x8000_0000 });
}

#[test]
fn pending_set_and_clear_share_index_and_mask() {
    for irq in 1..1024u32 {
        let s = aplic().set_pending(irq, true);
        let c = aplic().set_pending(irq, false);
        assert_eq!(s.value, c.value);
        assert_eq!(c.addr, s.addr + 0x100);
        assert_eq!(s.addr, aplic().read_pending(irq));
        assert_eq!(s.value.count_ones(), 1);
    }
}

#[test]
fn enable_words() {
    assert_eq!(aplic().read_enable(65), BASE + 0x1E08);
    assert_eq!(aplic().set_enable(1, 0xf0, true), RegWrite { addr: BASE + 0x1E04, value: 0xf0 });
    assert_eq!(aplic().set_enable(1, 0xf0, false), RegWrite { addr: BASE + 0x1F04, value: 0xf0 });
    assert_eq!(aplic().clrie_addr(2), BASE + 0x1F08);
}

#[test]
fn target_msi_encoding() {
    let w = aplic().set_target_msi(10, 1, 1, 10);
    assert_eq!(w, RegWrite { addr: BASE + 0x3004 + 36, value: 0x4100A });
    let v = aplic().set_target_msi(1, 3, 5, 0x7ff).value;
    assert_eq!(v >> 18, 3);
    assert_eq!((v >> 12) & 0x3f, 5);
    assert_eq!(v & 0xfff, 0x7ff);
}

#[test]
fn target_msi_shifts_out_high_hart_bits() {
    assert_eq!(aplic().set_target_msi(1, 0x4001, 0, 0).value, 1 << 18);
}

#[test]
fn target_direct_encoding() {
    let w = aplic().set_target_direct(1, 2, 0x1FF);
    assert_eq!(w, RegWrite { addr: BASE + 0x3004, value: 0x800FF });
}

#[test]
fn idc_addresses() {
    assert_eq!(InterruptDeliveryControl::ptr(0), 0xd00_4000);
    assert_eq!(InterruptDeliveryControl::ptr(1), 0xd00_4020);
}

#[test]
fn aplic_init_disables_word_zero() {
    let (a, w) = aplic_init(0);
    assert_eq!(a, Aplic { base: 0xd00_0000, size: 0x8000 });
    assert_eq!(w, RegWrite { addr: 0xd00_1f00, value: 0xffff_ffff });
    assert_eq!(aplic_init(1), aplic_init(0));
}

#[test]
fn registers_stay_in_window() {
    let a = aplic();
    for irq in 1..1024u32 {
        for addr in [
            a.set_sourcecfg(irq, SourceModes::LevelHigh).addr,
            a.read_pending(irq),
            a.set_pending(irq, false).addr,
            a.read_enable(irq),
            a.set_target_direct(irq, 0, 0).addr,
        ] {
            assert!(addr >= a.base && addr + 4 <= a.base + a.size);
        }
    }
}
