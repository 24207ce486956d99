use hs::imsic::{
    imsic_clear, imsic_csr_known, imsic_disable, imsic_enable, imsic_handle, imsic_init,
    imsic_ipi_trigger, imsic_m, imsic_pop, imsic_read_eip, imsic_s, imsic_trigger, imsic_vs,
    EiUpdate, ImsicMessage, ImsicStep, PrivMode, CSR,
};
use hs::mmio::RegWrite;

#[test]
fn interrupt_file_addresses() {
    assert_eq!(imsic_m(0), 0x2400_0000);
    assert_eq!(imsic_m(2), 0x2400_2000);
    assert_eq!(imsic_s(1), 0x2800_1000);
    assert_eq!(imsic_vs(0), 0x2800_1000);
    assert_eq!(imsic_vs(1), 0x2800_3000);
}

#[test]
fn enable_selects_eie_word_and_bit() {
    let u = imsic_enable(PrivMode::Supervisor, 10);
    assert_eq!(u, EiUpdate { select_csr: 0x150, reg_csr: 0x151, select: 0xC0, bit: 10, set: true });
    assert_eq!(u.apply(0), 0x400);
    assert_eq!(u.apply(0x400), 0x400);
    let m = imsic_enable(PrivMode::Machine, 1);
    assert_eq!((m.select_csr, m.reg_csr), (0x350, 0x351));
}

#[test]
fn enable_of_high_identity_on_rv64() {
    let u = imsic_enable(PrivMode::Supervisor, 70);
    assert_eq!(u.select, 0xC2);
    assert_eq!(u.bit, 6);
}

#[test]
fn rv64_selects_are_even() {
    for which in 0..2048usize {
        let u = imsic_enable(PrivMode::Supervisor, which);
        assert_eq!(u.select % 2, 0);
        assert_eq!(u.select, 0xC0 + 2 * (which / 64));
        assert_eq!(u.bit, which % 64);
    }
    let u = imsic_trigger(PrivMode::Supervisor, 40);
    assert_eq!((u.select, u.bit), (0x80, 40));
    assert_eq!(u.apply(0), 1usize << 40);
}

#[test]
fn disable_clears_only_its_bit() {
    let u = imsic_disable(PrivMode::Supervisor, 0);
    assert_eq!(u.select, 0xC0);
    assert!(!u.set);
    assert_eq!(u.apply(0x401), 0x400);
    assert_eq!(u.apply(0x400), 0x400);
}

#[test]
fn disable_undoes_enable() {
    for which in [1usize, 2, 4, 10, 63, 64, 100, 2047] {
        for reg in [0usize, 0x8000_0000, usize::MAX ^ (1 << (which % 64))] {
            let e = imsic_enable(PrivMode::Supervisor, which);
            let d = imsic_disable(PrivMode::Supervisor, which);
            assert_eq!((e.select, e.bit), (d.select, d.bit));
            assert_eq!(d.apply(e.apply(reg)), reg);
        }
    }
}

#[test]
fn trigger_and_clear_use_eip() {
    let t = imsic_trigger(PrivMode::Machine, 3);
    assert_eq!(t, EiUpdate { select_csr: 0x350, reg_csr: 0x351, select: 0x80, bit: 3, set: true });
    let c = imsic_clear(PrivMode::Machine, 3);
    assert_eq!(c.apply(t.apply(0x10)), 0x10);
}

#[test]
fn enable_and_pending_words_never_meet() {
    for w1 in (0..2048usize).step_by(7) {
        for w2 in (0..2048usize).step_by(13) {
            assert_ne!(
                imsic_enable(PrivMode::Supervisor, w1).select,
                imsic_trigger(PrivMode::Supervisor, w2).select
            );
        }
    }
}

#[test]
fn read_eip_select() {
    assert_eq!(imsic_read_eip(4), 0x80);
    assert_eq!(imsic_read_eip(64), 0x82);
}

#[test]
fn init_steps() {
    let steps = imsic_init();
    assert_eq!(steps.len(), 8);
    assert_eq!(steps[0], ImsicStep::Write { csr: 0x150, value: 0x70 });
    assert_eq!(steps[1], ImsicStep::Write { csr: 0x151, value: 1 });
    assert_eq!(steps[2], ImsicStep::Write { csr: 0x150, value: 0x72 });
    assert_eq!(steps[3], ImsicStep::Write { csr: 0x151, value: 11 });
    for (step, which) in steps[4..].iter().zip([1usize, 2, 4, 10]) {
        assert_eq!(*step, ImsicStep::Update(imsic_enable(PrivMode::Supervisor, which)));
    }
}

#[test]
fn pop_takes_identity_field() {
    assert_eq!(imsic_pop(0x000A_000A), 0xA);
    assert_eq!(imsic_pop(0xFFFF_FFFF), 0xFFFF);
    assert_eq!(imsic_pop(0xFFFF), 0);
}

#[test]
fn ipi_goes_to_guest_file() {
    assert_eq!(imsic_ipi_trigger(1), RegWrite { addr: 0x2800_3000, value: 1 });
}

#[test]
fn handle_decodes_identities() {
    assert_eq!(imsic_handle(0, 0, true), ImsicMessage::Spurious);
    assert_eq!(imsic_handle(1, 0, true), ImsicMessage::Ipi { from: 0 });
    assert_eq!(imsic_handle(1, 0, false), ImsicMessage::Ipi { from: 1 });
    assert_eq!(imsic_handle(1, 1, false), ImsicMessage::Ipi { from: 0 });
    assert_eq!(imsic_handle(2, 0, true), ImsicMessage::MmioTriggered);
    assert_eq!(imsic_handle(4, 0, true), ImsicMessage::EipTriggered);
    assert_eq!(
        imsic_handle(10, 0, true),
        ImsicMessage::ConsoleIrq { hartid: 0, forward: RegWrite { addr: 0x2800_3000, value: 1 } }
    );
    assert_eq!(
        imsic_handle(10, 1, true),
        ImsicMessage::ConsoleIrq { hartid: 1, forward: RegWrite { addr: 0x2800_1000, value: 1 } }
    );
    assert_eq!(imsic_handle(3, 0, true), ImsicMessage::Unknown(3));
}

#[test]
fn known_csrs() {
    for reg in [0x350usize, 0x150, 0x351, 0x151, 0xFB0, 0xDB0, 0x35C, 0x15C] {
        assert!(imsic_csr_known(reg));
    }
    assert!(!imsic_csr_known(0x250));
    assert!(!imsic_csr_known(0));
    assert_eq!(CSR::SISELECT.number(), 0x150);
    assert_eq!(CSR::SIREG.number(), 0x151);
    assert_eq!(CSR::STOPI.number(), 0xDB0);
    assert_eq!(CSR::STOPEI.number(), 0x15C);
}
