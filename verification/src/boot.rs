//! The multi-hart boot protocol: which hart is primary, which harts it
//! wakes, and how each hart moves through the boot barriers.
use vstd::prelude::*;
use crate::aplic::{Aplic, aplic_init, APLIC_S, APLIC_S_SIZE, APLIC_CLRIE_BASE};
use crate::console::{UartWrite, uart_init, uart_init_writes};
use crate::consts::{MAX_CPU_NUM, another_hartid};
use crate::mmio::RegWrite;

verus! {

/// A request to the SBI to start hart `hartid` at `start_addr`, with
/// `opaque` handed to it in `a1`.
#[derive(PartialEq, Eq, Structural, Debug, Clone, Copy)]
pub struct HartStart {
    pub hartid: usize,
    pub start_addr: usize,
    pub opaque: usize,
}

/// The harts below `n` other than `this_id`, in increasing order.
pub open spec fn other_cpus(this_id: usize, n: usize) -> Seq<usize>
    decreases n,
{
    if n == 0 {
        Seq::empty()
    } else {
        let prev = other_cpus(this_id, (n - 1) as usize);
        if n - 1 == this_id {
            prev
        } else {
            prev.push((n - 1) as usize)
        }
    }
}

/// The requests that start every hart other than `this_id` at `start_addr`
/// with the device tree `dtb`, in increasing hart order.
pub fn wakeup_secondary_cpus(this_id: usize, start_addr: usize, dtb: usize) -> (hs: Vec<HartStart>)
    ensures
        hs@.len() == other_cpus(this_id, MAX_CPU_NUM).len(),
        forall|i: int|
            0 <= i < hs@.len() ==> #[trigger] hs@[i] == (HartStart {
                hartid: other_cpus(this_id, MAX_CPU_NUM)[i],
                start_addr,
                opaque: dtb,
            }),
{
    let mut hs: Vec<HartStart> = Vec::new();
    let mut cpu_id: usize = 0;
    while cpu_id < MAX_CPU_NUM
        invariant
            cpu_id <= MAX_CPU_NUM,
            hs@.len() == other_cpus(this_id, cpu_id).len(),
            forall|i: int|
                0 <= i < hs@.len() ==> #[trigger] hs@[i] == (HartStart {
                    hartid: other_cpus(this_id, cpu_id)[i],
                    start_addr,
                    opaque: dtb,
                }),
        decreases MAX_CPU_NUM - cpu_id,
    {
        if cpu_id != this_id {
            hs.push(HartStart { hartid: cpu_id, start_addr, opaque: dtb });
        }
        cpu_id += 1;
    }
    hs
}

/// The secondary harts are exactly the harts below `n` other than
/// `this_id`, each once, in increasing order.
pub proof fn lemma_other_cpus(this_id: usize, n: usize)
    ensures
        forall|c: usize| #[trigger] other_cpus(this_id, n).contains(c) <==> (c < n && c != this_id),
        forall|i: int, j: int|
            0 <= i < j < other_cpus(this_id, n).len() ==> other_cpus(this_id, n)[i] < other_cpus(
                this_id,
                n,
            )[j],
        forall|i: int| 0 <= i < other_cpus(this_id, n).len() ==> other_cpus(this_id, n)[i] < n,
    decreases n,
{
    if n > 0 {
        let prev = other_cpus(this_id, (n - 1) as usize);
        lemma_other_cpus(this_id, (n - 1) as usize);
        if n - 1 != this_id {
            let s = prev.push((n - 1) as usize);
            assert forall|c: usize| #[trigger] s.contains(c) <==> (c < n && c != this_id) by {
                if c == n - 1 {
                    assert(s[prev.len() as int] == c);
                }
                if s.contains(c) && c != n - 1 {
                    let k = choose|k: int| 0 <= k < s.len() && s[k] == c;
                    assert(s[prev.len() as int] == n - 1);
                    assert(k != prev.len());
                    assert(prev[k] == c);
                    assert(prev.contains(c));
                }
                if c < n - 1 && c != this_id {
                    assert(prev.contains(c));
                    let k = choose|k: int| 0 <= k < prev.len() && prev[k] == c;
                    assert(s[k] == c);
                }
            }
        }
    }
}

/// The stores of the primary hart's early initialisation: the UART set-up,
/// and the S-level APLIC domain with the store that disables its sources.
pub struct EarlyInit {
    pub uart: Vec<UartWrite>,
    pub aplic: Aplic,
    pub aplic_write: RegWrite,
}

/// Early initialisation on the primary hart `cpuid`: the UART set-up and
/// the APLIC domain, brought up on behalf of the other hart.
pub fn primary_init_early(cpuid: usize) -> (e: EarlyInit)
    ensures
        e.uart@ == uart_init_writes(),
        e.aplic == (Aplic { base: APLIC_S, size: APLIC_S_SIZE }),
        e.aplic_write == (RegWrite {
            addr: (APLIC_S + APLIC_CLRIE_BASE) as usize,
            value: 0xffff_ffffu32,
        }),
{
    let hartid2 = another_hartid(cpuid);
    let uart = uart_init();
    let (aplic, aplic_write) = aplic_init(hartid2);
    EarlyInit { uart, aplic, aplic_write }
}

/// Whether a barrier counter holding `value` has reached `max`.
pub fn counter_reached(value: u32, max: u32) -> (r: bool)
    ensures
        r == (value >= max),
{
    !(value < max)
}

/// Where a hart stands in the boot protocol.
#[derive(PartialEq, Eq, Structural, Debug, Clone, Copy)]
pub enum BootPhase {
    /// Waiting until every hart has entered.
    WaitEntered,
    /// A secondary hart waiting for the primary's early initialisation.
    WaitEarly,
    /// Waiting until every hart has initialised.
    WaitInited,
    /// A secondary hart waiting for the primary's late initialisation.
    WaitLate,
    /// In the guest.
    Running,
    /// More harts entered than exist: the hart stops.
    Failed,
}

/// The shared counters and flags of the boot protocol.
#[derive(PartialEq, Eq, Structural, Debug, Clone, Copy)]
pub enum BootCounter {
    /// Harts that have entered.
    Entered,
    /// Set to 1 once the primary's early initialisation is done.
    EarlyOk,
    /// Harts that have initialised.
    Inited,
    /// Set to 1 once the primary's late initialisation is done.
    LateOk,
}

/// What a hart does after reading the counter of its phase.
#[derive(PartialEq, Eq, Structural, Debug, Clone, Copy)]
pub enum BootAction {
    /// Spin and read the counter again.
    Wait,
    /// Stop the hart: the entered count overshot.
    Abort,
    /// Go on to the next phase's counter at once.
    Continue,
    /// Primary: early initialisation, then count itself initialised.
    InitPrimary,
    /// Secondary: announce itself, then count itself initialised.
    JoinSecondary,
    /// Secondary: per-CPU set-up.
    InitCpu,
    /// Primary: per-CPU set-up, late initialisation (set LateOk), then run
    /// the guest.
    InitCpuReleaseAndRun,
    /// Secondary: run the guest.
    Run,
}

/// The counter read, and the value it must reach, in a waiting phase.
pub open spec fn phase_counter(phase: BootPhase) -> Option<(BootCounter, u32)> {
    match phase {
        BootPhase::WaitEntered => Some((BootCounter::Entered, MAX_CPU_NUM as u32)),
        BootPhase::WaitEarly => Some((BootCounter::EarlyOk, 1u32)),
        BootPhase::WaitInited => Some((BootCounter::Inited, MAX_CPU_NUM as u32)),
        BootPhase::WaitLate => Some((BootCounter::LateOk, 1u32)),
        _ => None,
    }
}

/// One step of a waiting hart (`primary` or not) in `phase` that read
/// `observed` from its phase's counter: the next phase and the action.
pub open spec fn boot_step(primary: bool, phase: BootPhase, observed: u32) -> (BootPhase, BootAction) {
    match phase {
        BootPhase::WaitEntered => {
            if observed < MAX_CPU_NUM as u32 {
                (phase, BootAction::Wait)
            } else if observed > MAX_CPU_NUM as u32 {
                (BootPhase::Failed, BootAction::Abort)
            } else if primary {
                (BootPhase::WaitInited, BootAction::InitPrimary)
            } else {
                (BootPhase::WaitEarly, BootAction::Continue)
            }
        },
        BootPhase::WaitEarly => {
            if observed < 1 {
                (phase, BootAction::Wait)
            } else {
                (BootPhase::WaitInited, BootAction::JoinSecondary)
            }
        },
        BootPhase::WaitInited => {
            if observed < MAX_CPU_NUM as u32 {
                (phase, BootAction::Wait)
            } else if primary {
                (BootPhase::Running, BootAction::InitCpuReleaseAndRun)
            } else {
                (BootPhase::WaitLate, BootAction::InitCpu)
            }
        },
        BootPhase::WaitLate => {
            if observed < 1 {
                (phase, BootAction::Wait)
            } else {
                (BootPhase::Running, BootAction::Run)
            }
        },
        _ => (phase, BootAction::Wait),
    }
}

/// One hart's progress through the boot protocol.
#[derive(PartialEq, Eq, Structural, Debug, Clone, Copy)]
pub struct Boot {
    pub cpuid: usize,
    pub primary: bool,
    pub phase: BootPhase,
}

impl Boot {
    /// Hart `cpuid` enters, having read `master` from the master-hart cell:
    /// it is the primary hart when no hart has claimed the cell (-1).
    pub fn start(cpuid: usize, master: i32) -> (b: Self)
        requires
            cpuid < MAX_CPU_NUM,
        ensures
            b == (Boot { cpuid, primary: master == -1, phase: BootPhase::WaitEntered }),
    {
        Boot { cpuid, primary: master == -1, phase: BootPhase::WaitEntered }
    }

    /// The value to store in the master-hart cell when this hart claims it.
    pub fn master_claim(&self) -> (m: i32)
        requires
            self.cpuid < MAX_CPU_NUM,
        ensures
            m == self.cpuid,
    {
        self.cpuid as i32
    }

    /// The counter to read, and the value it must reach, in a waiting phase.
    pub fn counter(&self) -> (c: Option<(BootCounter, u32)>)
        ensures
            c == phase_counter(self.phase),
    {
        match self.phase {
            BootPhase::WaitEntered => Some((BootCounter::Entered, MAX_CPU_NUM as u32)),
            BootPhase::WaitEarly => Some((BootCounter::EarlyOk, 1u32)),
            BootPhase::WaitInited => Some((BootCounter::Inited, MAX_CPU_NUM as u32)),
            BootPhase::WaitLate => Some((BootCounter::LateOk, 1u32)),
            _ => None,
        }
    }

    /// Advances a waiting hart that read `observed` from its phase's counter.
    pub fn step(&mut self, observed: u32) -> (a: BootAction)
        requires
            phase_counter(old(self).phase) is Some,
        ensures
            (final(self).phase, a) == boot_step(old(self).primary, old(self).phase, observed),
            final(self).cpuid == old(self).cpuid,
            final(self).primary == old(self).primary,
    {
        let max = MAX_CPU_NUM as u32;
        match self.phase {
            BootPhase::WaitEntered => {
                if observed < max {
                    BootAction::Wait
                } else if observed > max {
                    self.phase = BootPhase::Failed;
                    BootAction::Abort
                } else if self.primary {
                    self.phase = BootPhase::WaitInited;
                    BootAction::InitPrimary
                } else {
                    self.phase = BootPhase::WaitEarly;
                    BootAction::Continue
                }
            },
            BootPhase::WaitEarly => {
                if !counter_reached(observed, 1) {
                    BootAction::Wait
                } else {
                    self.phase = BootPhase::WaitInited;
                    BootAction::JoinSecondary
                }
            },
            BootPhase::WaitInited => {
                if !counter_reached(observed, max) {
                    BootAction::Wait
                } else if self.primary {
                    self.phase = BootPhase::Running;
                    BootAction::InitCpuReleaseAndRun
                } else {
                    self.phase = BootPhase::WaitLate;
                    BootAction::InitCpu
                }
            },
            BootPhase::WaitLate => {
                if !counter_reached(observed, 1) {
                    BootAction::Wait
                } else {
                    self.phase = BootPhase::Running;
                    BootAction::Run
                }
            },
            _ => BootAction::Wait,
        }
    }
}

/// The order of the phases.
pub open spec fn phase_rank(phase: BootPhase) -> nat {
    match phase {
        BootPhase::WaitEntered => 0,
        BootPhase::WaitEarly => 1,
        BootPhase::WaitInited => 2,
        BootPhase::WaitLate => 3,
        BootPhase::Running => 4,
        BootPhase::Failed => 5,
    }
}

/// A waiting hart leaves its phase exactly when the counter it read has
/// reached the phase's value (or, for the entered count, went past it), and
/// it only ever moves forward.
pub proof fn lemma_barrier_holds(primary: bool, phase: BootPhase, observed: u32)
    requires
        phase_counter(phase) is Some,
    ensures
        ({
            let (next, action) = boot_step(primary, phase, observed);
            let (_, threshold) = phase_counter(phase).unwrap();
            &&& (next == phase) <==> observed < threshold
            &&& (action == BootAction::Wait) <==> observed < threshold
            &&& phase_rank(next) >= phase_rank(phase)
        }),
{
}

/// The primary hart never waits on the flags it sets itself, so it cannot
/// deadlock on them: from entering to running it never waits for EarlyOk or
/// LateOk, and a secondary hart never performs the primary's
/// initialisations.
pub proof fn lemma_primary_never_waits_on_itself(primary: bool, phase: BootPhase, observed: u32)
    requires
        phase_counter(phase) is Some,
        primary ==> phase != BootPhase::WaitEarly && phase != BootPhase::WaitLate,
    ensures
        ({
            let (next, action) = boot_step(primary, phase, observed);
            &&& primary ==> next != BootPhase::WaitEarly && next != BootPhase::WaitLate
            &&& !primary ==> action != BootAction::InitPrimary && action
                != BootAction::InitCpuReleaseAndRun
            &&& primary ==> action != BootAction::JoinSecondary && action != BootAction::InitCpu
                && action != BootAction::Run
        }),
{
}

/// A hart reaches its guest only from the phase after all harts have
/// initialised: the primary right after seeing every hart initialised, a
/// secondary right after seeing the primary's late initialisation done.
pub proof fn lemma_runs_after_all_initialised(primary: bool, phase: BootPhase, observed: u32)
    requires
        phase_counter(phase) is Some,
        primary ==> phase != BootPhase::WaitEarly && phase != BootPhase::WaitLate,
    ensures
        boot_step(primary, phase, observed).0 == BootPhase::Running ==> (primary && phase
            == BootPhase::WaitInited && observed >= MAX_CPU_NUM) || (!primary && phase
            == BootPhase::WaitLate && observed >= 1),
{
    assert(MAX_CPU_NUM as u32 == 2);
}

/// A store to a shared boot counter, made after an action's other work.
#[derive(PartialEq, Eq, Structural, Debug, Clone, Copy)]
pub enum BootWrite {
    /// Set EarlyOk to 1.
    SetEarlyOk,
    /// Add 1 to Inited.
    IncInited,
    /// Set LateOk to 1.
    SetLateOk,
}

/// The counter stores of an action, in the order they are made: the
/// primary's early initialisation releases EarlyOk and then counts the hart
/// initialised, a secondary's announcement counts it initialised, and the
/// primary's late initialisation releases LateOk.
pub open spec fn action_write_seq(a: BootAction) -> Seq<BootWrite> {
    match a {
        BootAction::InitPrimary => seq![BootWrite::SetEarlyOk, BootWrite::IncInited],
        BootAction::JoinSecondary => seq![BootWrite::IncInited],
        BootAction::InitCpuReleaseAndRun => seq![BootWrite::SetLateOk],
        _ => Seq::empty(),
    }
}

/// The counter stores to make, one by one, after the other work of `a`.
pub fn action_writes(a: BootAction) -> (ws: Vec<BootWrite>)
    ensures
        ws@ == action_write_seq(a),
{
    let mut ws: Vec<BootWrite> = Vec::new();
    match a {
        BootAction::InitPrimary => {
            ws.push(BootWrite::SetEarlyOk);
            ws.push(BootWrite::IncInited);
        },
        BootAction::JoinSecondary => {
            ws.push(BootWrite::IncInited);
        },
        BootAction::InitCpuReleaseAndRun => {
            ws.push(BootWrite::SetLateOk);
        },
        _ => {},
    }
    assert(ws@ =~= action_write_seq(a));
    ws
}

/// Both harts and the shared counters, as the boot protocol sees them. A
/// hart that has not entered yet is `None`. A hart's step reads the counter
/// of its phase and decides; the stores of its action (`pending0`,
/// `pending1`) are made later, one at a time, so that the other hart can
/// act between any two of them. A hart makes its next read only once its
/// stores are done.
pub struct BootWorld {
    pub hart0: Option<Boot>,
    pub hart1: Option<Boot>,
    pub pending0: Seq<BootWrite>,
    pub pending1: Seq<BootWrite>,
    pub entered: u32,
    pub early_ok: u32,
    pub inited: u32,
    pub late_ok: u32,
}

/// No hart has entered and every counter is 0.
pub open spec fn world_start() -> BootWorld {
    BootWorld {
        hart0: None,
        hart1: None,
        pending0: Seq::empty(),
        pending1: Seq::empty(),
        entered: 0,
        early_ok: 0,
        inited: 0,
        late_ok: 0,
    }
}

/// Hart `i` (0 or 1) of the world.
pub open spec fn hart_of(w: BootWorld, i: int) -> Option<Boot> {
    if i == 0 {
        w.hart0
    } else {
        w.hart1
    }
}

/// The stores hart `i` still has to make.
pub open spec fn pending_of(w: BootWorld, i: int) -> Seq<BootWrite> {
    if i == 0 {
        w.pending0
    } else {
        w.pending1
    }
}

/// The world with hart `i` and its pending stores replaced.
pub open spec fn with_hart(w: BootWorld, i: int, h: Option<Boot>, p: Seq<BootWrite>) -> BootWorld {
    if i == 0 {
        BootWorld { hart0: h, pending0: p, ..w }
    } else {
        BootWorld { hart1: h, pending1: p, ..w }
    }
}

/// The current value of a counter.
pub open spec fn counter_value(w: BootWorld, c: BootCounter) -> u32 {
    match c {
        BootCounter::Entered => w.entered,
        BootCounter::EarlyOk => w.early_ok,
        BootCounter::Inited => w.inited,
        BootCounter::LateOk => w.late_ok,
    }
}

/// One counter store.
pub open spec fn apply_write(w: BootWorld, wr: BootWrite) -> BootWorld {
    match wr {
        BootWrite::SetEarlyOk => BootWorld { early_ok: 1, ..w },
        BootWrite::IncInited => BootWorld { inited: (w.inited + 1) as u32, ..w },
        BootWrite::SetLateOk => BootWorld { late_ok: 1, ..w },
    }
}

/// Hart `i` enters as `primary` or not, and counts itself entered.
pub open spec fn world_enter(w: BootWorld, i: int, primary: bool) -> BootWorld {
    let entered = with_hart(
        w,
        i,
        Some(Boot { cpuid: i as usize, primary, phase: BootPhase::WaitEntered }),
        Seq::empty(),
    );
    BootWorld { entered: (w.entered + 1) as u32, ..entered }
}

/// Hart `i`, waiting with no store left to make, reads its phase's counter
/// and takes one step; the stores of its action become pending.
pub open spec fn world_step(w: BootWorld, i: int) -> BootWorld {
    let b = hart_of(w, i).unwrap();
    let (c, _) = phase_counter(b.phase).unwrap();
    let (next, action) = boot_step(b.primary, b.phase, counter_value(w, c));
    with_hart(w, i, Some(Boot { phase: next, ..b }), action_write_seq(action))
}

/// Hart `i` makes the first of its pending stores.
pub open spec fn world_store(w: BootWorld, i: int) -> BootWorld {
    let p = pending_of(w, i);
    apply_write(with_hart(w, i, hart_of(w, i), p.drop_first()), p[0])
}

/// A hart that has made its own Inited increment.
pub open spec fn counted(h: Option<Boot>, p: Seq<BootWrite>) -> bool {
    h matches Some(b) && 2 <= phase_rank(b.phase) <= 4 && !(p.len() > 0 && p.last()
        == BootWrite::IncInited)
}

/// 1 for a hart that has counted itself initialised, else 0.
pub open spec fn initialised(h: Option<Boot>, p: Seq<BootWrite>) -> int {
    if counted(h, p) {
        1
    } else {
        0
    }
}

/// 1 for a hart that has entered, else 0.
pub open spec fn entered_count(h: Option<Boot>) -> int {
    if h is Some {
        1
    } else {
        0
    }
}

/// A primary hart that has released EarlyOk.
pub open spec fn primary_released_early(h: Option<Boot>, p: Seq<BootWrite>) -> bool {
    h matches Some(b) && b.primary && 2 <= phase_rank(b.phase) <= 4 && p.len() != 2
}

/// A primary hart in its guest.
pub open spec fn primary_running(h: Option<Boot>) -> bool {
    h matches Some(b) && b.primary && b.phase == BootPhase::Running
}

/// A primary hart that has released LateOk.
pub open spec fn primary_released_late(h: Option<Boot>, p: Seq<BootWrite>) -> bool {
    primary_running(h) && p.len() == 0
}

/// What holds of one hart and its pending stores in every reachable world.
pub open spec fn hart_inv(w: BootWorld, h: Option<Boot>, p: Seq<BootWrite>) -> bool {
    match h {
        Some(b) => {
            &&& b.phase != BootPhase::Failed
            &&& b.primary ==> b.phase != BootPhase::WaitEarly && b.phase != BootPhase::WaitLate
            &&& !b.primary && 2 <= phase_rank(b.phase) <= 4 ==> w.early_ok == 1
            &&& !b.primary && b.phase == BootPhase::Running ==> w.late_ok == 1
            &&& {
                ||| p =~= Seq::<BootWrite>::empty()
                ||| b.primary && b.phase == BootPhase::WaitInited && p =~= seq![
                    BootWrite::SetEarlyOk,
                    BootWrite::IncInited,
                ]
                ||| b.phase == BootPhase::WaitInited && p =~= seq![BootWrite::IncInited]
                ||| b.primary && b.phase == BootPhase::Running && p =~= seq![BootWrite::SetLateOk]
            }
        },
        None => p =~= Seq::<BootWrite>::empty(),
    }
}

/// What holds in every reachable world: the counters count what the harts
/// stored, and the flags are set exactly when a primary released them.
pub open spec fn world_inv(w: BootWorld) -> bool {
    &&& w.entered == entered_count(w.hart0) + entered_count(w.hart1)
    &&& w.inited == initialised(w.hart0, w.pending0) + initialised(w.hart1, w.pending1)
    &&& w.early_ok <= 1
    &&& (w.early_ok == 1 <==> (primary_released_early(w.hart0, w.pending0)
        || primary_released_early(w.hart1, w.pending1)))
    &&& w.late_ok <= 1
    &&& (w.late_ok == 1 <==> (primary_released_late(w.hart0, w.pending0) || primary_released_late(
        w.hart1,
        w.pending1,
    )))
    &&& (primary_running(w.hart0) || primary_running(w.hart1)) ==> w.inited == 2
    &&& hart_inv(w, w.hart0, w.pending0)
    &&& hart_inv(w, w.hart1, w.pending1)
}

/// The world invariant holds before any hart enters.
pub proof fn lemma_world_start()
    ensures
        world_inv(world_start()),
{
}

/// A hart entering, as primary or not, keeps the world invariant.
pub proof fn lemma_world_enter(w: BootWorld, i: int, primary: bool)
    requires
        world_inv(w),
        0 <= i < 2,
        hart_of(w, i) is None,
    ensures
        world_inv(world_enter(w, i, primary)),
{
}

/// A waiting hart's step keeps the world invariant, whichever hart takes it
/// and whichever harts are primary.
pub proof fn lemma_world_step(w: BootWorld, i: int)
    requires
        world_inv(w),
        0 <= i < 2,
        hart_of(w, i) matches Some(b) && phase_counter(b.phase) is Some,
        pending_of(w, i).len() == 0,
    ensures
        world_inv(world_step(w, i)),
{
    assert(MAX_CPU_NUM as u32 == 2);
}

/// Each pending store keeps the world invariant, whatever the other hart
/// did since the step that made it pending.
pub proof fn lemma_world_store(w: BootWorld, i: int)
    requires
        world_inv(w),
        0 <= i < 2,
        pending_of(w, i).len() > 0,
    ensures
        world_inv(world_store(w, i)),
{
    let p = pending_of(w, i);
    if p.len() == 2 {
        assert(p.drop_first() =~= seq![BootWrite::IncInited]);
    } else {
        assert(p.drop_first() =~= Seq::<BootWrite>::empty());
    }
}

/// In every reachable world no hart has failed (the entered count never
/// overshoots); a secondary has counted itself initialised only after
/// EarlyOk was released; and a hart in its guest, its stores done, runs
/// only after both harts entered and counted themselves initialised and
/// the primary released EarlyOk and LateOk.
pub proof fn lemma_world_safe(w: BootWorld, i: int)
    requires
        world_inv(w),
        0 <= i < 2,
        hart_of(w, i) is Some,
    ensures
        hart_of(w, i).unwrap().phase != BootPhase::Failed,
        w.entered <= MAX_CPU_NUM,
        !hart_of(w, i).unwrap().primary && 2 <= phase_rank(hart_of(w, i).unwrap().phase) ==> w.early_ok
            == 1,
        hart_of(w, i).unwrap().phase == BootPhase::Running && pending_of(w, i).len() == 0 ==> w.entered
            == 2 && w.inited == 2 && w.early_ok == 1 && w.late_ok == 1,
{
}

} // verus!
