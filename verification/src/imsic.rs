//! The IMSIC (incoming MSI controller) of the RISC-V Advanced Interrupt
//! Architecture: interrupt-file addresses, the indirect CSR accesses that
//! enable, disable, raise and clear interrupt identities, and the decoding
//! of claimed identities.
use vstd::prelude::*;
use crate::consts::{another_hartid, other_hart};
use crate::mmio::{RegWrite, bit_of};

verus! {

/// Distance between the M- and S-level interrupt files of consecutive harts.
pub const IMSIC_HART_STRIDE: usize = 0x1000;

/// Distance between the guest interrupt files of consecutive harts.
pub const IMSIC_VS_HART_STRIDE: usize = 0x2000;

/// Machine-level interrupt file of hart 0.
pub const IMSIC_M: usize = 0x2400_0000;

/// Supervisor-level interrupt file of hart 0.
pub const IMSIC_S: usize = 0x2800_0000;

/// Guest (VS-level) interrupt file of hart 0.
pub const IMSIC_VS: usize = 0x2800_1000;

/// M-mode indirect register select CSR.
pub const MISELECT: usize = 0x350;
/// M-mode indirect register alias CSR.
pub const MIREG: usize = 0x351;
/// M-mode top interrupt CSR.
pub const MTOPI: usize = 0xFB0;
/// M-mode top external interrupt CSR.
pub const MTOPEI: usize = 0x35C;

/// S-mode indirect register select CSR.
pub const SISELECT: usize = 0x150;
/// S-mode indirect register alias CSR.
pub const SIREG: usize = 0x151;
/// S-mode top interrupt CSR.
pub const STOPI: usize = 0xDB0;
/// S-mode top external interrupt CSR.
pub const STOPEI: usize = 0x15C;

/// Indirect register: interrupt delivery enable.
pub const EIDELIVERY: usize = 0x70;
/// Indirect register: interrupt priority threshold.
pub const EITHRESHOLD: usize = 0x72;
/// Indirect registers: first interrupt-pending word.
pub const EIP: usize = 0x80;
/// Indirect registers: first interrupt-enable word.
pub const EIE: usize = 0xC0;

/// Highest number of interrupt identities an interrupt file can hold.
pub const IMSIC_MAX_IDENTITIES: usize = 2048;

/// The address of the M-level interrupt file of `hart`.
pub fn imsic_m(hart: usize) -> (a: usize)
    requires
        IMSIC_M + IMSIC_HART_STRIDE * hart <= usize::MAX,
    ensures
        a == IMSIC_M + IMSIC_HART_STRIDE * hart,
{
    IMSIC_M + IMSIC_HART_STRIDE * hart
}

/// The address of the S-level interrupt file of `hart`.
pub fn imsic_s(hart: usize) -> (a: usize)
    requires
        IMSIC_S + IMSIC_HART_STRIDE * hart <= usize::MAX,
    ensures
        a == IMSIC_S + IMSIC_HART_STRIDE * hart,
{
    IMSIC_S + IMSIC_HART_STRIDE * hart
}

/// The address of the guest interrupt file of `hart`.
pub fn imsic_vs(hart: usize) -> (a: usize)
    requires
        IMSIC_VS + IMSIC_VS_HART_STRIDE * hart <= usize::MAX,
    ensures
        a == IMSIC_VS + IMSIC_VS_HART_STRIDE * hart,
{
    IMSIC_VS + IMSIC_VS_HART_STRIDE * hart
}

/// The privilege level whose interrupt file is addressed.
#[derive(PartialEq, Eq, Structural, Debug, Clone, Copy)]
pub enum PrivMode {
    Machine,
    Supervisor,
}

/// The S-level IMSIC CSRs.
#[derive(PartialEq, Eq, Structural, Debug, Clone, Copy)]
#[allow(non_camel_case_types, clippy::upper_case_acronyms)]
pub enum CSR {
    SISELECT,
    SIREG,
    STOPI,
    STOPEI,
}

impl CSR {
    /// The CSR number.
    pub fn number(&self) -> (n: usize)
        ensures
            n == (match *self {
                CSR::SISELECT => SISELECT,
                CSR::SIREG => SIREG,
                CSR::STOPI => STOPI,
                CSR::STOPEI => STOPEI,
            }),
    {
        match *self {
            CSR::SISELECT => SISELECT,
            CSR::SIREG => SIREG,
            CSR::STOPI => STOPI,
            CSR::STOPEI => STOPEI,
        }
    }
}

/// The CSR numbers that the IMSIC accessors know: the select, alias, top
/// interrupt and top external interrupt CSRs of M and S mode.
pub open spec fn is_imsic_csr(reg: usize) -> bool {
    reg == MISELECT || reg == SISELECT || reg == MIREG || reg == SIREG || reg == MTOPI || reg
        == STOPI || reg == MTOPEI || reg == STOPEI
}

/// Whether `reg` is one of the IMSIC CSRs that can be read and written.
pub fn imsic_csr_known(reg: usize) -> (r: bool)
    ensures
        r == is_imsic_csr(reg),
{
    reg == MISELECT || reg == SISELECT || reg == MIREG || reg == SIREG || reg == MTOPI || reg
        == STOPI || reg == MTOPEI || reg == STOPEI
}

/// The width of a CSR in bits.
pub open spec fn xlen() -> nat {
    usize::BITS as nat
}

/// The select CSR of a privilege level.
pub open spec fn select_csr_of(mode: PrivMode) -> usize {
    match mode {
        PrivMode::Machine => MISELECT,
        PrivMode::Supervisor => SISELECT,
    }
}

/// The alias CSR of a privilege level.
pub open spec fn reg_csr_of(mode: PrivMode) -> usize {
    match mode {
        PrivMode::Machine => MIREG,
        PrivMode::Supervisor => SIREG,
    }
}

/// A read-modify-write of one bit of an indirectly accessed IMSIC register:
/// write `select` to `select_csr`, read `reg_csr`, and write back the value
/// with bit `bit` set (`set`) or cleared.
#[derive(PartialEq, Eq, Structural, Debug, Clone, Copy)]
pub struct EiUpdate {
    pub select_csr: usize,
    pub reg_csr: usize,
    pub select: usize,
    pub bit: usize,
    pub set: bool,
}

/// The indirect register number that holds identity `which` in the array
/// of XLEN-bit words starting at `base`: on RV64 only even numbers are
/// used, each word covering 64 identities.
pub open spec fn ei_select(base: usize, which: usize) -> int {
    base + (xlen() / 32) * ((which as int) / (xlen() as int))
}

/// The update of identity `which` in the array at `base` (EIE or EIP).
pub open spec fn ei_update(base: usize, mode: PrivMode, which: usize, set: bool) -> EiUpdate {
    EiUpdate {
        select_csr: select_csr_of(mode),
        reg_csr: reg_csr_of(mode),
        select: ei_select(base, which) as usize,
        bit: ((which as int) % (xlen() as int)) as usize,
        set,
    }
}

impl EiUpdate {
    /// The value written back when `reg` was read.
    pub open spec fn applied(&self, reg: usize) -> usize {
        if self.set {
            reg | (1usize << self.bit)
        } else {
            reg & !(1usize << self.bit)
        }
    }

    /// The value to write back, given the value `reg` read from `reg_csr`.
    pub fn apply(&self, reg: usize) -> (r: usize)
        requires
            self.bit < usize::BITS,
        ensures
            r == self.applied(reg),
            forall|i: usize|
                i < usize::BITS ==> #[trigger] bit_of(r, i) == (if i == self.bit {
                    self.set
                } else {
                    bit_of(reg, i)
                }),
    {
        let b = self.bit;
        let r = if self.set {
            reg | (1usize << b)
        } else {
            reg & !(1usize << b)
        };
        proof {
            lemma_set_bit_meaning(reg, b);
            lemma_clear_bit_meaning(reg, b);
        }
        r
    }
}

/// Setting bit `b` changes that bit alone.
pub proof fn lemma_set_bit_meaning(reg: usize, b: usize)
    requires
        b < usize::BITS,
    ensures
        forall|i: usize|
            i < usize::BITS ==> #[trigger] bit_of(reg | (1usize << b), i) == (if i == b {
                true
            } else {
                bit_of(reg, i)
            }),
{
    assert forall|i: usize| i < usize::BITS implies #[trigger] bit_of(reg | (1usize << b), i) == (
    if i == b {
        true
    } else {
        bit_of(reg, i)
    }) by {
        assert((((reg | (1usize << b)) >> i) & 1usize == 1usize) == (if i == b {
            true
        } else {
            (reg >> i) & 1usize == 1usize
        })) by (bit_vector)
            requires
                b < usize::BITS,
                i < usize::BITS,
        ;
    }
}

/// Clearing bit `b` changes that bit alone.
pub proof fn lemma_clear_bit_meaning(reg: usize, b: usize)
    requires
        b < usize::BITS,
    ensures
        forall|i: usize|
            i < usize::BITS ==> #[trigger] bit_of(reg & !(1usize << b), i) == (if i == b {
                false
            } else {
                bit_of(reg, i)
            }),
{
    assert forall|i: usize| i < usize::BITS implies #[trigger] bit_of(reg & !(1usize << b), i) == (
    if i == b {
        false
    } else {
        bit_of(reg, i)
    }) by {
        assert((((reg & !(1usize << b)) >> i) & 1usize == 1usize) == (if i == b {
            false
        } else {
            (reg >> i) & 1usize == 1usize
        })) by (bit_vector)
            requires
                b < usize::BITS,
                i < usize::BITS,
        ;
    }
}

/// The CSR width, in bits.
fn xlen_exec() -> (x: usize)
    ensures
        x == xlen(),
        x == 32 || x == 64,
{
    usize::BITS as usize
}

/// Builds the update of identity `which` in the array at `base`.
fn ei_build(base: usize, mode: PrivMode, which: usize, set: bool) -> (u: EiUpdate)
    requires
        base == EIE || base == EIP,
    ensures
        u == ei_update(base, mode, which, set),
        u.select == ei_select(base, which),
        u.bit < usize::BITS,
{
    let xl = xlen_exec();
    let stride = xl / 32;
    let word = which / xl;
    assert(stride * word <= 2 * (usize::MAX / 32)) by (nonlinear_arith)
        requires
            stride <= 2,
            word <= usize::MAX / 32,
            xl >= 32,
            word == which / xl,
    ;
    let select = base + stride * word;
    let (select_csr, reg_csr) = match mode {
        PrivMode::Machine => (MISELECT, MIREG),
        PrivMode::Supervisor => (SISELECT, SIREG),
    };
    EiUpdate { select_csr, reg_csr, select, bit: which % xl, set }
}

/// Enables interrupt identity `which` in the interrupt file of `mode`.
pub fn imsic_enable(mode: PrivMode, which: usize) -> (u: EiUpdate)
    ensures
        u == ei_update(EIE, mode, which, true),
        u.bit < usize::BITS,
{
    ei_build(EIE, mode, which, true)
}

/// Disables interrupt identity `which` in the interrupt file of `mode`.
pub fn imsic_disable(mode: PrivMode, which: usize) -> (u: EiUpdate)
    ensures
        u == ei_update(EIE, mode, which, false),
        u.bit < usize::BITS,
{
    ei_build(EIE, mode, which, false)
}

/// Marks interrupt identity `which` pending in the interrupt file of `mode`.
pub fn imsic_trigger(mode: PrivMode, which: usize) -> (u: EiUpdate)
    ensures
        u == ei_update(EIP, mode, which, true),
        u.bit < usize::BITS,
{
    ei_build(EIP, mode, which, true)
}

/// Clears the pending bit of interrupt identity `which` in the interrupt
/// file of `mode`.
pub fn imsic_clear(mode: PrivMode, which: usize) -> (u: EiUpdate)
    ensures
        u == ei_update(EIP, mode, which, false),
        u.bit < usize::BITS,
{
    ei_build(EIP, mode, which, false)
}

/// The indirect register number of the S-level pending word that holds
/// identity `which`, to be selected and read.
pub fn imsic_read_eip(which: usize) -> (select: usize)
    ensures
        select == ei_select(EIP, which),
{
    ei_build(EIP, PrivMode::Supervisor, which, true).select
}

/// One step of bringing up an interrupt file.
#[derive(PartialEq, Eq, Structural, Debug, Clone, Copy)]
pub enum ImsicStep {
    /// Write `value` to CSR `csr`.
    Write { csr: usize, value: usize },
    /// Read-modify-write one bit of an indirect register.
    Update(EiUpdate),
}

/// The steps that bring up the S-level interrupt file: deliver interrupts
/// (EIDELIVERY = 1), hear identities below 11 (EITHRESHOLD = 11), then
/// enable identities 1, 2, 4 and 10, in that order.
pub open spec fn imsic_init_steps() -> Seq<ImsicStep> {
    seq![
        ImsicStep::Write { csr: SISELECT, value: EIDELIVERY },
        ImsicStep::Write { csr: SIREG, value: 1 },
        ImsicStep::Write { csr: SISELECT, value: EITHRESHOLD },
        ImsicStep::Write { csr: SIREG, value: 11 },
        ImsicStep::Update(ei_update(EIE, PrivMode::Supervisor, 1, true)),
        ImsicStep::Update(ei_update(EIE, PrivMode::Supervisor, 2, true)),
        ImsicStep::Update(ei_update(EIE, PrivMode::Supervisor, 4, true)),
        ImsicStep::Update(ei_update(EIE, PrivMode::Supervisor, 10, true)),
    ]
}

/// The steps that bring up the S-level interrupt file, in order.
pub fn imsic_init() -> (steps: Vec<ImsicStep>)
    ensures
        steps@ == imsic_init_steps(),
{
    let mut steps: Vec<ImsicStep> = Vec::new();
    steps.push(ImsicStep::Write { csr: SISELECT, value: EIDELIVERY });
    steps.push(ImsicStep::Write { csr: SIREG, value: 1 });
    steps.push(ImsicStep::Write { csr: SISELECT, value: EITHRESHOLD });
    steps.push(ImsicStep::Write { csr: SIREG, value: 11 });
    steps.push(ImsicStep::Update(imsic_enable(PrivMode::Supervisor, 1)));
    steps.push(ImsicStep::Update(imsic_enable(PrivMode::Supervisor, 2)));
    steps.push(ImsicStep::Update(imsic_enable(PrivMode::Supervisor, 4)));
    steps.push(ImsicStep::Update(imsic_enable(PrivMode::Supervisor, 10)));
    steps
}

/// The interrupt identity in a value claimed from a top external interrupt
/// CSR: bits 16 and up.
pub fn imsic_pop(topei: u32) -> (id: u32)
    ensures
        id == topei / 0x10000,
{
    let id = topei >> 16u32;
    assert(topei >> 16u32 == topei / 0x10000) by (bit_vector);
    id
}

/// The store that raises an inter-processor interrupt (identity 1) in the
/// guest interrupt file of `hartid`.
pub fn imsic_ipi_trigger(hartid: usize) -> (w: RegWrite)
    requires
        IMSIC_VS + IMSIC_VS_HART_STRIDE * hartid <= usize::MAX,
    ensures
        w == (RegWrite { addr: (IMSIC_VS + IMSIC_VS_HART_STRIDE * hartid) as usize, value: 1 }),
{
    RegWrite { addr: imsic_vs(hartid), value: 1 }
}

/// What a claimed interrupt identity means.
#[derive(PartialEq, Eq, Structural, Debug, Clone, Copy)]
pub enum ImsicMessage {
    /// Identity 0: nothing was pending.
    Spurious,
    /// Identity 1: an inter-processor interrupt sent by the boot CPU `from`.
    Ipi { from: usize },
    /// Identity 2: raised by a store to the interrupt file.
    MmioTriggered,
    /// Identity 4: raised through the pending bits.
    EipTriggered,
    /// Identity 10: the console interrupt on `hartid`; service the UART, then
    /// perform `forward` to interrupt the other hart.
    ConsoleIrq { hartid: usize, forward: RegWrite },
    /// Any other identity.
    Unknown(u32),
}

/// Decodes the identity `msgnum` claimed on `hartid`.
pub fn imsic_handle(msgnum: u32, hartid: usize, boot_cpu: bool) -> (m: ImsicMessage)
    ensures
        m == (if msgnum == 0 {
            ImsicMessage::Spurious
        } else if msgnum == 1 {
            ImsicMessage::Ipi { from: if boot_cpu { hartid } else { other_hart(hartid) } }
        } else if msgnum == 2 {
            ImsicMessage::MmioTriggered
        } else if msgnum == 4 {
            ImsicMessage::EipTriggered
        } else if msgnum == 10 {
            ImsicMessage::ConsoleIrq {
                hartid,
                forward: RegWrite {
                    addr: (IMSIC_VS + IMSIC_VS_HART_STRIDE * other_hart(hartid)) as usize,
                    value: 1,
                },
            }
        } else {
            ImsicMessage::Unknown(msgnum)
        }),
{
    match msgnum {
        0 => ImsicMessage::Spurious,
        1 => {
            if boot_cpu {
                ImsicMessage::Ipi { from: hartid }
            } else {
                ImsicMessage::Ipi { from: another_hartid(hartid) }
            }
        },
        2 => ImsicMessage::MmioTriggered,
        4 => ImsicMessage::EipTriggered,
        10 => ImsicMessage::ConsoleIrq {
            hartid,
            forward: imsic_ipi_trigger(another_hartid(hartid)),
        },
        _ => ImsicMessage::Unknown(msgnum),
    }
}

/// Setting a bit that was clear and then clearing it gives the value back;
/// clearing a bit that was set and then setting it gives the value back.
proof fn lemma_bit_round_trips(reg: usize, b: usize)
    requires
        b < usize::BITS,
    ensures
        !bit_of(reg, b) ==> (reg | (1usize << b)) & !(1usize << b) == reg,
        bit_of(reg, b) ==> (reg & !(1usize << b)) | (1usize << b) == reg,
        (reg | (1usize << b)) | (1usize << b) == reg | (1usize << b),
        (reg & !(1usize << b)) & !(1usize << b) == reg & !(1usize << b),
{
    assert(((reg >> b) & 1usize != 1usize) ==> (reg | (1usize << b)) & !(1usize << b) == reg)
        by (bit_vector)
        requires
            b < usize::BITS,
    ;
    assert(((reg >> b) & 1usize == 1usize) ==> (reg & !(1usize << b)) | (1usize << b) == reg)
        by (bit_vector)
        requires
            b < usize::BITS,
    ;
    assert((reg | (1usize << b)) | (1usize << b) == reg | (1usize << b)) by (bit_vector);
    assert((reg & !(1usize << b)) & !(1usize << b) == reg & !(1usize << b)) by (bit_vector);
}

/// Enabling and disabling an identity address the same bit of the same
/// enable word; disabling undoes enabling a disabled identity, enabling
/// undoes disabling an enabled one, and doing either twice is doing it once.
pub proof fn lemma_disable_undoes_enable(mode: PrivMode, which: usize, reg: usize)
    ensures
        ({
            let e = ei_update(EIE, mode, which, true);
            let d = ei_update(EIE, mode, which, false);
            &&& e.select_csr == d.select_csr && e.reg_csr == d.reg_csr
            &&& e.select == d.select && e.bit == d.bit
            &&& !bit_of(reg, e.bit) ==> d.applied(e.applied(reg)) == reg
            &&& bit_of(reg, e.bit) ==> e.applied(d.applied(reg)) == reg
            &&& e.applied(e.applied(reg)) == e.applied(reg)
            &&& d.applied(d.applied(reg)) == d.applied(reg)
        }),
{
    let e = ei_update(EIE, mode, which, true);
    lemma_bit_round_trips(reg, e.bit);
}

/// Raising and clearing an identity address the same bit of the same
/// pending word; clearing undoes raising an identity that was not pending,
/// raising undoes clearing a pending one, and doing either twice is doing it
/// once.
pub proof fn lemma_clear_undoes_trigger(mode: PrivMode, which: usize, reg: usize)
    ensures
        ({
            let t = ei_update(EIP, mode, which, true);
            let c = ei_update(EIP, mode, which, false);
            &&& t.select_csr == c.select_csr && t.reg_csr == c.reg_csr
            &&& t.select == c.select && t.bit == c.bit
            &&& !bit_of(reg, t.bit) ==> c.applied(t.applied(reg)) == reg
            &&& bit_of(reg, t.bit) ==> t.applied(c.applied(reg)) == reg
            &&& t.applied(t.applied(reg)) == t.applied(reg)
            &&& c.applied(c.applied(reg)) == c.applied(reg)
        }),
{
    let t = ei_update(EIP, mode, which, true);
    lemma_bit_round_trips(reg, t.bit);
}

/// For identities the interrupt file can hold, enabling or disabling one
/// never selects a pending word, and raising or clearing one never selects
/// an enable word.
pub proof fn lemma_enable_and_pending_words_apart(w1: usize, w2: usize)
    requires
        w1 < IMSIC_MAX_IDENTITIES,
        w2 < IMSIC_MAX_IDENTITIES,
    ensures
        ei_select(EIE, w1) != ei_select(EIP, w2),
{
    let x = xlen() as int;
    assert(x == 32 || x == 64);
    let q1 = (w1 as int) / x;
    let q2 = (w2 as int) / x;
    assert(0 <= q1 && 0 <= q2 && (x / 32) * q2 < 64) by (nonlinear_arith)
        requires
            x == 32 || x == 64,
            w1 < 2048,
            w2 < 2048,
            q1 == (w1 as int) / x,
            q2 == (w2 as int) / x,
    ;
    assert(0 <= (x / 32) * q1) by (nonlinear_arith)
        requires x == 32 || x == 64, 0 <= q1;
}

/// Every update goes through the indirect CSRs of its own privilege level,
/// whichever array (enable or pending) and identity it addresses: S mode
/// through `siselect`/`sireg`, M mode through `miselect`/`mireg`.
pub proof fn lemma_update_uses_mode_csrs(base: usize, mode: PrivMode, which: usize, set: bool)
    ensures
        ({
            let u = ei_update(base, mode, which, set);
            &&& mode == PrivMode::Supervisor ==> u.select_csr == 0x150 && u.reg_csr == 0x151
            &&& mode == PrivMode::Machine ==> u.select_csr == 0x350 && u.reg_csr == 0x351
            &&& u.set == set
            &&& u.select == ei_update(base, PrivMode::Machine, which, !set).select
            &&& u.bit == ei_update(base, PrivMode::Supervisor, which, !set).bit
        }),
{
}

/// On RV64 every selected word has an even number, as the odd-numbered
/// EIP and EIE registers do not exist there; each word covers 64 identities.
pub proof fn lemma_rv64_selects_even(base: usize, mode: PrivMode, which: usize, set: bool)
    requires
        usize::BITS == 64,
        base == EIE || base == EIP,
    ensures
        ei_select(base, which) % 2 == 0,
        ei_update(base, mode, which, set).bit == which % 64,
        ei_select(base, which) == base + 2 * (which / 64),
{
}

/// The one bit that an update changes is the bit of `which` within its
/// word, and the word holds identities `which - bit` to `which - bit + XLEN - 1`.
pub proof fn lemma_update_addresses_identity(base: usize, mode: PrivMode, which: usize, set: bool)
    ensures
        ({
            let u = ei_update(base, mode, which, set);
            &&& u.bit < xlen()
            &&& (which as int) == ((which as int) / (xlen() as int)) * (xlen() as int) + u.bit
        }),
{
    let x = xlen() as int;
    assert(x == 32 || x == 64);
    assert((which as int) == ((which as int) / x) * x + (which as int) % x) by (nonlinear_arith)
        requires x > 0;
}

} // verus!
