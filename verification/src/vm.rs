//! Guest entry on each hart: which trap frame the hart uses, what it records
//! there, the interrupt-file set-up and the interrupt it sends the other hart.
use vstd::prelude::*;
use crate::consts::{MAX_CPU_NUM, another_hartid, other_hart};
use crate::imsic::{
    ImsicStep,
    imsic_init,
    imsic_init_steps,
    imsic_ipi_trigger,
    IMSIC_VS,
    IMSIC_VS_HART_STRIDE,
};
use crate::mmio::RegWrite;

verus! {

/// Words in one trap frame.
pub const TRAP_FRAME_WORDS: usize = 36;

/// Slot of a trap frame that holds the hart's number.
pub const FRAME_HARTID: usize = 35;

/// Slot of trap frame 0 that tells whether the primary guest has started.
pub const FRAME_PRIMARY: usize = 34;

/// The trap frames of the two harts.
pub struct TrapFrames {
    pub frames: [[usize; 36]; 2],
}

impl TrapFrames {
    /// Word `slot` of frame `frame`.
    pub open spec fn slot(&self, frame: int, slot: int) -> usize {
        self.frames@[frame]@[slot]
    }

    /// Every word but `(frame, slot)` is the same in `self` and `other`.
    pub open spec fn same_except(&self, other: &TrapFrames, frame: int, slot: int) -> bool {
        forall|f: int, s: int|
            0 <= f < 2 && 0 <= s < 36 && !(f == frame && s == slot) ==> #[trigger] self.slot(f, s)
                == other.slot(f, s)
    }

    /// Stores `value` in word `slot` of frame `frame`.
    pub fn store(&mut self, frame: usize, slot: usize, value: usize)
        requires
            frame < 2,
            slot < TRAP_FRAME_WORDS,
        ensures
            final(self).slot(frame as int, slot as int) == value,
            final(self).same_except(old(self), frame as int, slot as int),
    {
        let mut f = self.frames[frame];
        f[slot] = value;
        self.frames[frame] = f;
    }
}

/// Which of the two trap frames, laid out from `base` at `frame_bytes` bytes
/// each, starts at address `addr` (the value a hart keeps in `sscratch`).
pub fn frame_index(addr: usize, base: usize, frame_bytes: usize) -> (k: Option<usize>)
    requires
        frame_bytes > 0,
    ensures
        k == (if addr >= base && (addr - base) % (frame_bytes as int) == 0 && (addr - base)
            / (frame_bytes as int) < 2 {
            Some(((addr - base) / (frame_bytes as int)) as usize)
        } else {
            None::<usize>
        }),
{
    if addr < base {
        return None;
    }
    let off = addr - base;
    if off % frame_bytes != 0 {
        return None;
    }
    let k = off / frame_bytes;
    if k < 2 {
        Some(k)
    } else {
        None
    }
}

/// How a hart enters its guest: the trap frame to install in `sscratch`,
/// the interrupt-file set-up, and the store that interrupts the other hart.
pub struct VmStart {
    pub frame: usize,
    pub imsic: Vec<ImsicStep>,
    pub ipi: Option<RegWrite>,
}

/// The store that interrupts the hart other than `hartid`.
pub open spec fn ipi_to_other(hartid: usize) -> RegWrite {
    RegWrite {
        addr: (IMSIC_VS + IMSIC_VS_HART_STRIDE * other_hart(hartid)) as usize,
        value: 1,
    }
}

fn ipi_other(hartid: usize) -> (w: RegWrite)
    ensures
        w == ipi_to_other(hartid),
{
    imsic_ipi_trigger(another_hartid(hartid))
}

/// Guest entry of the primary hart `hartid`: its own trap frame, then the
/// interrupt to the other hart.
pub fn vm_main(hartid: usize) -> (v: VmStart)
    requires
        hartid < MAX_CPU_NUM,
    ensures
        v.frame == hartid,
        v.imsic@ == imsic_init_steps(),
        v.ipi == Some(ipi_to_other(hartid)),
{
    VmStart { frame: hartid, imsic: imsic_init(), ipi: Some(ipi_other(hartid)) }
}

/// Guest entry of the secondary hart `hartid2`: its own trap frame and no
/// interrupt to send.
pub fn vm2_main(hartid2: usize) -> (v: VmStart)
    requires
        hartid2 < MAX_CPU_NUM,
    ensures
        v.frame == hartid2,
        v.imsic@ == imsic_init_steps(),
        v.ipi == None::<RegWrite>,
{
    VmStart { frame: hartid2, imsic: imsic_init(), ipi: None }
}

/// Guest entry of the primary hart: frame 0 records `hartid` and that the
/// primary guest started; then the interrupt to the other hart.
pub fn primary_vm_main(frames: &mut TrapFrames, hartid: usize) -> (v: VmStart)
    ensures
        final(frames).slot(0, FRAME_HARTID as int) == hartid,
        final(frames).slot(0, FRAME_PRIMARY as int) == 1,
        forall|f: int, s: int|
            0 <= f < 2 && 0 <= s < 36 && !(f == 0 && (s == FRAME_HARTID || s == FRAME_PRIMARY))
                ==> #[trigger] final(frames).slot(f, s) == old(frames).slot(f, s),
        v.frame == 0,
        v.imsic@ == imsic_init_steps(),
        v.ipi == Some(ipi_to_other(hartid)),
{
    frames.store(0, FRAME_HARTID, hartid);
    frames.store(0, FRAME_PRIMARY, 1);
    VmStart { frame: 0, imsic: imsic_init(), ipi: Some(ipi_other(hartid)) }
}

/// Guest entry of the secondary hart: frame 1 records `hartid2`, and frame 0
/// has its primary-started word reset.
pub fn secondary_vm_main(frames: &mut TrapFrames, hartid2: usize) -> (v: VmStart)
    ensures
        final(frames).slot(1, FRAME_HARTID as int) == hartid2,
        final(frames).slot(0, FRAME_PRIMARY as int) == 0,
        forall|f: int, s: int|
            0 <= f < 2 && 0 <= s < 36 && !(f == 1 && s == FRAME_HARTID) && !(f == 0 && s
                == FRAME_PRIMARY) ==> #[trigger] final(frames).slot(f, s) == old(frames).slot(f, s),
        v.frame == 1,
        v.imsic@ == imsic_init_steps(),
        v.ipi == None::<RegWrite>,
{
    frames.store(1, FRAME_HARTID, hartid2);
    frames.store(0, FRAME_PRIMARY, 0);
    VmStart { frame: 1, imsic: imsic_init(), ipi: None }
}

/// Guest entry of the primary hart: frame 0 records `hartid`; then the
/// interrupt to the other hart.
pub fn primary_vs_main(frames: &mut TrapFrames, hartid: usize) -> (v: VmStart)
    ensures
        final(frames).slot(0, FRAME_HARTID as int) == hartid,
        final(frames).same_except(old(frames), 0, FRAME_HARTID as int),
        v.frame == 0,
        v.imsic@ == imsic_init_steps(),
        v.ipi == Some(ipi_to_other(hartid)),
{
    frames.store(0, FRAME_HARTID, hartid);
    VmStart { frame: 0, imsic: imsic_init(), ipi: Some(ipi_other(hartid)) }
}

/// Guest entry of the secondary hart: frame 1 records `hartid2`.
pub fn secondary_vs_main(frames: &mut TrapFrames, hartid2: usize) -> (v: VmStart)
    ensures
        final(frames).slot(1, FRAME_HARTID as int) == hartid2,
        final(frames).same_except(old(frames), 1, FRAME_HARTID as int),
        v.frame == 1,
        v.imsic@ == imsic_init_steps(),
        v.ipi == None::<RegWrite>,
{
    frames.store(1, FRAME_HARTID, hartid2);
    VmStart { frame: 1, imsic: imsic_init(), ipi: None }
}

} // verus!
