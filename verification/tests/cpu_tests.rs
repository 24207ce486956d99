use hs::boot::{
    action_writes, BootWrite, counter_reached, primary_init_early, wakeup_secondary_cpus, Boot, BootAction, BootCounter,
    BootPhase, HartStart,
};
use hs::aplic::Aplic;
use hs::console::uart_init;
use hs::consts::{another_hartid, MAX_CPU_NUM};
use hs::imsic::{imsic_init, PrivMode};
use hs::mmio::RegWrite;
use hs::percpu::{per_cpu_address, ArchCpu, PerCpu, VmEntry};
use hs::trap::{rust_trap, TrapAction};
use hs::vm::{
    frame_index, primary_vm_main, primary_vs_main, secondary_vm_main, secondary_vs_main, vm2_main, vm_main,
    TrapFrames,
};

#[test]
fn arch_cpu_basics() {
    let mut c = ArchCpu::new(3);
    assert_eq!(c.get_hartid(), 3);
    assert_eq!(c.init(), 0);
    assert_eq!(c, ArchCpu { hartid: 3 });
}

#[test]
fn per_cpu_lifecycle() {
    let mut c = PerCpu::new(1);
    assert_eq!(c, PerCpu { id: 1, arch_cpu: ArchCpu { hartid: 1 }, boot_cpu: false });
    assert_eq!(c.run_vm(), VmEntry::Secondary { hartid: 1 });
    c.cpu_init();
    assert_eq!(c.id, 1);
    c.set_boot();
    assert!(c.boot_cpu);
    assert_eq!(c.id, 1);
    assert_eq!(c.run_vm(), VmEntry::Boot { hartid: 1 });
}

#[test]
fn per_cpu_address_wraps() {
    assert_eq!(per_cpu_address(0x8040_0000, 1, 0x8000), 0x8040_8000);
    assert_eq!(per_cpu_address(usize::MAX, 1, 2), 1);
}

#[test]
fn another_hart() {
    assert_eq!(another_hartid(0), 1);
    assert_eq!(another_hartid(1), 0);
    assert_eq!(another_hartid(7), 0);
    assert_eq!(MAX_CPU_NUM, 2);
}

#[test]
fn trap_decoding() {
    assert_eq!(rust_trap(0x8000_0000_0000_0009), TrapAction::Imsic(PrivMode::Supervisor));
    assert_eq!(rust_trap(0x8000_0000_0000_0005), TrapAction::UnknownInterrupt(0x8000_0000_0000_0005));
    assert_eq!(rust_trap(10), TrapAction::SupervisorEcall);
    assert_eq!(rust_trap(0x10A), TrapAction::SupervisorEcall);
    assert_eq!(rust_trap(2), TrapAction::UnknownException(2));
    assert_eq!(rust_trap(9), TrapAction::UnknownException(9));
}

#[test]
fn wakeup_skips_self() {
    assert_eq!(
        wakeup_secondary_cpus(0, 0x8020_0000, 0x8fe0_0000),
        vec![HartStart { hartid: 1, start_addr: 0x8020_0000, opaque: 0x8fe0_0000 }]
    );
    assert_eq!(
        wakeup_secondary_cpus(1, 0x8020_0000, 0),
        vec![HartStart { hartid: 0, start_addr: 0x8020_0000, opaque: 0 }]
    );
    assert_eq!(wakeup_secondary_cpus(5, 1, 2).len(), 2);
}

#[test]
fn counters() {
    assert!(counter_reached(2, 2));
    assert!(counter_reached(3, 2));
    assert!(!counter_reached(1, 2));
}

#[test]
fn early_init() {
    let e = primary_init_early(0);
    assert_eq!(e.uart, uart_init());
    assert_eq!(e.aplic, Aplic { base: 0xd00_0000, size: 0x8000 });
    assert_eq!(e.aplic_write, RegWrite { addr: 0xd00_1f00, value: 0xffff_ffff });
}

#[test]
fn primary_boot_sequence() {
    let mut b = Boot::start(0, -1);
    assert!(b.primary);
    assert_eq!(b.master_claim(), 0);
    assert_eq!(b.counter(), Some((BootCounter::Entered, 2)));
    assert_eq!(b.step(1), BootAction::Wait);
    assert_eq!(b.step(2), BootAction::InitPrimary);
    assert_eq!(b.counter(), Some((BootCounter::Inited, 2)));
    assert_eq!(b.step(1), BootAction::Wait);
    assert_eq!(b.step(2), BootAction::InitCpuReleaseAndRun);
    assert_eq!(b.phase, BootPhase::Running);
    assert_eq!(b.counter(), None);
}

#[test]
fn secondary_boot_sequence() {
    let mut b = Boot::start(1, 0);
    assert!(!b.primary);
    assert_eq!(b.step(2), BootAction::Continue);
    assert_eq!(b.counter(), Some((BootCounter::EarlyOk, 1)));
    assert_eq!(b.step(0), BootAction::Wait);
    assert_eq!(b.step(1), BootAction::JoinSecondary);
    assert_eq!(b.step(2), BootAction::InitCpu);
    assert_eq!(b.counter(), Some((BootCounter::LateOk, 1)));
    assert_eq!(b.step(0), BootAction::Wait);
    assert_eq!(b.step(1), BootAction::Run);
    assert_eq!(b.phase, BootPhase::Running);
}

#[test]
fn overshoot_aborts() {
    let mut b = Boot::start(1, -1);
    assert_eq!(b.step(3), BootAction::Abort);
    assert_eq!(b.phase, BootPhase::Failed);
}

#[test]
fn vm_entries() {
    let v = vm_main(0);
    assert_eq!(v.frame, 0);
    assert_eq!(v.imsic, imsic_init());
    assert_eq!(v.ipi, Some(RegWrite { addr: 0x2800_3000, value: 1 }));
    let v2 = vm2_main(1);
    assert_eq!(v2.frame, 1);
    assert_eq!(v2.ipi, None);
}

#[test]
fn trap_frames_record_harts() {
    let mut f = TrapFrames { frames: [[0; 36]; 2] };
    let v = primary_vm_main(&mut f, 0);
    assert_eq!((v.frame, f.frames[0][35], f.frames[0][34]), (0, 0, 1));
    assert_eq!(v.ipi, Some(RegWrite { addr: 0x2800_3000, value: 1 }));
    let v = secondary_vm_main(&mut f, 1);
    assert_eq!((v.frame, f.frames[1][35], f.frames[0][34]), (1, 1, 0));
    assert_eq!(v.ipi, None);

    let mut g = TrapFrames { frames: [[7; 36]; 2] };
    let v = primary_vs_main(&mut g, 1);
    assert_eq!((v.frame, g.frames[0][35], g.frames[0][34]), (0, 1, 7));
    assert_eq!(v.ipi, Some(RegWrite { addr: 0x2800_1000, value: 1 }));
    let v = secondary_vs_main(&mut g, 0);
    assert_eq!((v.frame, g.frames[1][35]), (1, 0));
    assert_eq!(g.frames[1][0], 7);
}

struct World {
    entered: u32,
    early_ok: u32,
    inited: u32,
    late_ok: u32,
}

impl World {
    fn value(&self, c: BootCounter) -> u32 {
        match c {
            BootCounter::Entered => self.entered,
            BootCounter::EarlyOk => self.early_ok,
            BootCounter::Inited => self.inited,
            BootCounter::LateOk => self.late_ok,
        }
    }

    fn store(&mut self, w: BootWrite) {
        match w {
            BootWrite::SetEarlyOk => self.early_ok = 1,
            BootWrite::IncInited => self.inited += 1,
            BootWrite::SetLateOk => self.late_ok = 1,
        }
    }
}

#[test]
fn two_harts_interleaved_reach_guests_safely() {
    for schedule in 0u32..4096 {
        for primaries in [(true, false), (false, true), (true, true)] {
            let mut w = World { entered: 2, early_ok: 0, inited: 0, late_ok: 0 };
            let mut harts = [
                Boot::start(0, if primaries.0 { -1 } else { 0 }),
                Boot::start(1, if primaries.1 { -1 } else { 0 }),
            ];
            let mut pending: [Vec<BootWrite>; 2] = [Vec::new(), Vec::new()];
            let mut bits = schedule;
            for _ in 0..96 {
                let i = (bits & 1) as usize;
                bits = bits.rotate_right(1);
                if !pending[i].is_empty() {
                    let wr = pending[i].remove(0);
                    w.store(wr);
                } else if let Some((c, _)) = harts[i].counter() {
                    let a = harts[i].step(w.value(c));
                    pending[i] = action_writes(a);
                    assert_ne!(harts[i].phase, BootPhase::Failed);
                }
                if harts[i].phase == BootPhase::Running && pending[i].is_empty() {
                    assert_eq!((w.inited, w.early_ok, w.late_ok), (2, 1, 1));
                }
            }
        }
    }
}

#[test]
fn action_stores() {
    assert_eq!(action_writes(BootAction::InitPrimary), vec![BootWrite::SetEarlyOk, BootWrite::IncInited]);
    assert_eq!(action_writes(BootAction::JoinSecondary), vec![BootWrite::IncInited]);
    assert_eq!(action_writes(BootAction::InitCpuReleaseAndRun), vec![BootWrite::SetLateOk]);
    assert_eq!(action_writes(BootAction::InitCpu), vec![]);
    assert_eq!(action_writes(BootAction::Wait), vec![]);
}

#[test]
fn frame_indices() {
    assert_eq!(frame_index(0x1000, 0x1000, 288), Some(0));
    assert_eq!(frame_index(0x1000 + 288, 0x1000, 288), Some(1));
    assert_eq!(frame_index(0x1000 + 576, 0x1000, 288), None);
    assert_eq!(frame_index(0x1008, 0x1000, 288), None);
    assert_eq!(frame_index(0x0800, 0x1000, 288), None);
}
