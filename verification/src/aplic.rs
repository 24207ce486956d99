//! The APLIC (advanced platform-level interrupt controller) of the S-level
//! interrupt domain: the register map and the stores that configure sources,
//! pending and enable bits and interrupt targets.
use vstd::prelude::*;
use crate::mmio::RegWrite;

verus! {

/// Base address of the S-level APLIC domain.
pub const APLIC_S: usize = 0xd00_0000;

/// Size of the S-level APLIC domain's register window.
pub const APLIC_S_SIZE: usize = 0x8000;

/// Base address of the S-level interrupt delivery controllers.
pub const APLIC_S_IDC: usize = 0xd00_4000;

/// Offset of `domaincfg`.
pub const APLIC_DOMAINCFG_BASE: usize = 0x0000;
/// Offset of `sourcecfg[1]`.
pub const APLIC_SOURCECFG_BASE: usize = 0x0004;
/// Offset of `smsiaddrcfg`.
pub const APLIC_MSIAADDR_BASE: usize = 0x1BC8;
/// Offset of `setip[0]`.
pub const APLIC_PENDING_BASE: usize = 0x1C00;
/// Offset of `in_clrip[0]`.
pub const APLIC_CLRIP_BASE: usize = 0x1D00;
/// Offset of `setie[0]`.
pub const APLIC_ENABLE_BASE: usize = 0x1E00;
/// Offset of `clrie[0]`.
pub const APLIC_CLRIE_BASE: usize = 0x1F00;
/// Offset of `target[1]`.
pub const APLIC_TARGET_BASE: usize = 0x3004;

/// How an interrupt source is sensed.
#[derive(PartialEq, Eq, Structural, Debug, Clone, Copy)]
pub enum SourceModes {
    Inactive,
    Detached,
    RisingEdge,
    FallingEdge,
    LevelHigh,
    LevelLow,
}

/// The `sourcecfg` encoding of a source mode.
pub open spec fn source_mode_code(mode: SourceModes) -> u32 {
    match mode {
        SourceModes::Inactive => 0,
        SourceModes::Detached => 1,
        SourceModes::RisingEdge => 4,
        SourceModes::FallingEdge => 5,
        SourceModes::LevelHigh => 6,
        SourceModes::LevelLow => 7,
    }
}

impl SourceModes {
    /// The `sourcecfg` encoding of this mode.
    pub fn code(&self) -> (c: u32)
        ensures
            c == source_mode_code(*self),
    {
        match *self {
            SourceModes::Inactive => 0,
            SourceModes::Detached => 1,
            SourceModes::RisingEdge => 4,
            SourceModes::FallingEdge => 5,
            SourceModes::LevelHigh => 6,
            SourceModes::LevelLow => 7,
        }
    }
}

/// One APLIC interrupt domain: the base and size of its register window.
#[derive(PartialEq, Eq, Structural, Debug, Clone, Copy)]
pub struct Aplic {
    pub base: usize,
    pub size: usize,
}

/// A valid interrupt source number: 1 to 1023.
pub open spec fn valid_irq(irq: u32) -> bool {
    0 < irq < 1024
}

/// Address of `sourcecfg[irq]` in the domain at `base`.
pub open spec fn sourcecfg_addr(base: usize, irq: u32) -> int {
    base + APLIC_SOURCECFG_BASE + (irq - 1) * 4
}

/// Address of the word `irq / 32` of the register array at `offset`
/// (`setip`, `in_clrip`, `setie`) in the domain at `base`.
pub open spec fn word_addr(base: usize, offset: usize, irq: u32) -> int {
    base + offset + (irq / 32) * 4
}

/// Address of `target[irq]` in the domain at `base`.
pub open spec fn target_addr(base: usize, irq: u32) -> int {
    base + APLIC_TARGET_BASE + (irq - 1) * 4
}

/// The `target` value that routes a source by MSI to interrupt identity
/// `eiid` of guest file `guest` on hart `hart` (fields at bits 18, 12 and 0).
pub open spec fn target_msi_value(hart: u32, guest: u32, eiid: u32) -> u32 {
    (hart << 18u32) | (guest << 12u32) | eiid
}

/// The `target` value that delivers a source directly to hart `hart` with
/// priority `prio` (hart at bit 18, priority in the low byte).
pub open spec fn target_direct_value(hart: u32, prio: u32) -> u32 {
    (hart << 18u32) | (prio & 0xFFu32)
}

impl Aplic {
    /// The domain whose registers start at `base` and span `size` bytes.
    pub fn new(base: usize, size: usize) -> (a: Self)
        ensures
            a.base == base,
            a.size == size,
    {
        Self { base, size }
    }

    /// The store to `domaincfg`: interrupt enable at bit 8, MSI delivery
    /// mode at bit 2, big-endian at bit 0.
    pub fn set_domaincfg(&self, bigendian: bool, msimode: bool, enabled: bool) -> (w: RegWrite)
        ensures
            w.addr == self.base + APLIC_DOMAINCFG_BASE,
            w.value == (if enabled { 0x100u32 } else { 0u32 }) + (if msimode {
                4u32
            } else {
                0u32
            }) + (if bigendian { 1u32 } else { 0u32 }),
    {
        let enabled: u32 = if enabled { 1 } else { 0 };
        let msimode: u32 = if msimode { 1 } else { 0 };
        let bigendian: u32 = if bigendian { 1 } else { 0 };
        let addr = self.base + APLIC_DOMAINCFG_BASE;
        let src = (enabled << 8u32) | (msimode << 2u32) | bigendian;
        assert(src == enabled * 0x100 + msimode * 4 + bigendian) by (bit_vector)
            requires
                enabled <= 1,
                msimode <= 1,
                bigendian <= 1,
                src == (enabled << 8u32) | (msimode << 2u32) | bigendian,
        ;
        RegWrite { addr, value: src }
    }

    /// The store that sets the sensing mode of source `irq` (`sourcecfg[irq]`).
    pub fn set_sourcecfg(&self, irq: u32, mode: SourceModes) -> (w: RegWrite)
        requires
            valid_irq(irq),
            self.base + APLIC_SOURCECFG_BASE + (irq - 1) * 4 <= usize::MAX,
        ensures
            w.addr == sourcecfg_addr(self.base, irq),
            w.value == source_mode_code(mode),
    {
        let addr = self.base + APLIC_SOURCECFG_BASE + (irq as usize - 1) * 4;
        RegWrite { addr, value: mode.code() }
    }

    /// The store that delegates source `irq` to child domain `child`: the
    /// delegate flag (bit 10) and the low ten bits of `child`.
    pub fn set_sourcecfg_delegate(&self, irq: u32, child: u32) -> (w: RegWrite)
        requires
            valid_irq(irq),
            self.base + APLIC_SOURCECFG_BASE + (irq - 1) * 4 <= usize::MAX,
        ensures
            w.addr == sourcecfg_addr(self.base, irq),
            w.value == 0x400 + child % 0x400,
    {
        let addr = self.base + APLIC_SOURCECFG_BASE + (irq as usize - 1) * 4;
        let src = (1u32 << 10u32) | (child & 0x3ffu32);
        assert((1u32 << 10u32) | (child & 0x3ffu32) == 0x400 + child % 0x400) by (bit_vector);
        RegWrite { addr, value: src }
    }

    /// The two stores that set the MSI target address: `smsiaddrcfg` gets
    /// the page number of `address` (truncated to 32 bits), `smsiaddrcfgh` 0.
    pub fn set_msiaddr(&self, address: usize) -> (ws: (RegWrite, RegWrite))
        requires
            self.base + APLIC_MSIAADDR_BASE + 4 <= usize::MAX,
        ensures
            ws.0.addr == self.base + APLIC_MSIAADDR_BASE,
            ws.0.value == (address as int / 4096) % 0x1_0000_0000int,
            ws.1.addr == self.base + APLIC_MSIAADDR_BASE + 4,
            ws.1.value == 0,
    {
        let addr = self.base + APLIC_MSIAADDR_BASE;
        let page = address >> 12usize;
        assert(address >> 12usize == address / 4096) by (bit_vector);
        let page64 = page as u64;
        let src = #[verifier::truncate] (page64 as u32);
        assert(page64 as u32 == page64 % 0x1_0000_0000u64) by (bit_vector);
        (RegWrite { addr, value: src }, RegWrite { addr: addr + 4, value: 0 })
    }

    /// The address of the `setip` word that holds the pending bit of `irq`.
    pub fn read_pending(&self, irq: u32) -> (addr: usize)
        requires
            valid_irq(irq),
            self.base + APLIC_PENDING_BASE + (irq / 32) * 4 <= usize::MAX,
        ensures
            addr == word_addr(self.base, APLIC_PENDING_BASE, irq),
    {
        let irqidx = irq as usize / 32;
        self.base + APLIC_PENDING_BASE + irqidx * 4
    }

    /// The store that sets (`setip`) or clears (`in_clrip`) the pending bit
    /// of `irq`: bit `irq % 32` of word `irq / 32`.
    pub fn set_pending(&self, irq: u32, pending: bool) -> (w: RegWrite)
        requires
            valid_irq(irq),
            self.base + APLIC_CLRIP_BASE + (irq / 32) * 4 <= usize::MAX,
        ensures
            w.addr == word_addr(
                self.base,
                if pending {
                    APLIC_PENDING_BASE
                } else {
                    APLIC_CLRIP_BASE
                },
                irq,
            ),
            w.value == 1u32 << (irq % 32),
    {
        let irqidx = irq as usize / 32;
        let irqbit = irq % 32;
        let addr = self.base + APLIC_PENDING_BASE + irqidx * 4;
        let clr_addr = self.base + APLIC_CLRIP_BASE + irqidx * 4;
        let src: u32 = 1u32 << irqbit;
        if pending {
            RegWrite { addr, value: src }
        } else {
            RegWrite { addr: clr_addr, value: src }
        }
    }

    /// The address of the `setie` word that holds the enable bit of `irq`.
    pub fn read_enable(&self, irq: u32) -> (addr: usize)
        requires
            valid_irq(irq),
            self.base + APLIC_ENABLE_BASE + (irq / 32) * 4 <= usize::MAX,
        ensures
            addr == word_addr(self.base, APLIC_ENABLE_BASE, irq),
    {
        let irqidx = irq as usize / 32;
        self.base + APLIC_ENABLE_BASE + irqidx * 4
    }

    /// The address of the `clrie` word `irqidx`.
    pub fn clrie_addr(&self, irqidx: usize) -> (addr: usize)
        requires
            irqidx < 32,
            self.base + APLIC_CLRIE_BASE + irqidx * 4 <= usize::MAX,
        ensures
            addr == self.base + APLIC_CLRIE_BASE + irqidx * 4,
    {
        self.base + APLIC_CLRIE_BASE + irqidx * 4
    }

    /// The store that enables (`setie`) or disables (`clrie`) the sources
    /// whose bits are set in `value`, in enable word `irqidx`.
    pub fn set_enable(&self, irqidx: usize, value: u32, enabled: bool) -> (w: RegWrite)
        requires
            irqidx < 32,
            self.base + APLIC_CLRIE_BASE + irqidx * 4 <= usize::MAX,
        ensures
            w.addr == self.base + (if enabled { APLIC_ENABLE_BASE } else { APLIC_CLRIE_BASE })
                + irqidx * 4,
            w.value == value,
    {
        let addr = self.base + APLIC_ENABLE_BASE + irqidx * 4;
        let clr_addr = self.clrie_addr(irqidx);
        if enabled {
            RegWrite { addr, value }
        } else {
            RegWrite { addr: clr_addr, value }
        }
    }

    /// The store that routes source `irq` by MSI (`target[irq]`).
    pub fn set_target_msi(&self, irq: u32, hart: u32, guest: u32, eiid: u32) -> (w: RegWrite)
        requires
            irq >= 1,
            self.base + APLIC_TARGET_BASE + (irq - 1) * 4 <= usize::MAX,
        ensures
            w.addr == target_addr(self.base, irq),
            w.value == target_msi_value(hart, guest, eiid),
    {
        let addr = self.base + APLIC_TARGET_BASE + (irq as usize - 1) * 4;
        let src = (hart << 18u32) | (guest << 12u32) | eiid;
        RegWrite { addr, value: src }
    }

    /// The store that routes source `irq` directly to a hart (`target[irq]`).
    pub fn set_target_direct(&self, irq: u32, hart: u32, prio: u32) -> (w: RegWrite)
        requires
            irq >= 1,
            self.base + APLIC_TARGET_BASE + (irq - 1) * 4 <= usize::MAX,
        ensures
            w.addr == target_addr(self.base, irq),
            w.value == target_direct_value(hart, prio),
    {
        let addr = self.base + APLIC_TARGET_BASE + (irq as usize - 1) * 4;
        let src = (hart << 18u32) | (prio & 0xFFu32);
        RegWrite { addr, value: src }
    }
}

/// The per-hart interrupt delivery control registers of the S-level domain.
#[derive(PartialEq, Eq, Structural, Debug, Clone, Copy)]
pub struct InterruptDeliveryControl {
    pub idelivery: u32,
    pub iforce: u32,
    pub ithreshold: u32,
    pub topi: u32,
    pub claimi: u32,
}

impl InterruptDeliveryControl {
    /// The address of the delivery control registers of `hart`.
    pub fn ptr(hart: usize) -> (addr: usize)
        requires
            hart < 1024,
        ensures
            addr == APLIC_S_IDC + hart * 32,
    {
        APLIC_S_IDC + hart * 32
    }
}

/// Brings up the S-level APLIC: the domain at `APLIC_S` with a window of
/// `APLIC_S_SIZE` bytes, and the store that disables all sources of enable
/// word 0. The hart number is not used.
pub fn aplic_init(hartid: usize) -> (r: (Aplic, RegWrite))
    ensures
        r.0 == (Aplic { base: APLIC_S, size: APLIC_S_SIZE }),
        r.1 == (RegWrite { addr: (APLIC_S + APLIC_CLRIE_BASE) as usize, value: 0xffff_ffffu32 }),
{
    let aplic = Aplic::new(APLIC_S, APLIC_S_SIZE);
    let w = aplic.set_enable(0, 0xffff_ffff, false);
    (aplic, w)
}

/// Distinct sources have distinct `sourcecfg` registers, and all of them lie
/// in the `sourcecfg` block, after `domaincfg` and before the MSI address
/// registers.
pub proof fn lemma_sourcecfg_slots(base: usize, i1: u32, i2: u32)
    requires
        valid_irq(i1),
        valid_irq(i2),
    ensures
        i1 != i2 ==> sourcecfg_addr(base, i1) != sourcecfg_addr(base, i2),
        base + APLIC_SOURCECFG_BASE <= sourcecfg_addr(base, i1) < base + 0x1000,
        sourcecfg_addr(base, i1) + 4 <= base + APLIC_MSIAADDR_BASE,
{
}

/// Setting and clearing the pending bit of a source use the same bit mask,
/// one bit wide at position `irq % 32`, in words at the same index of the
/// `setip` and `in_clrip` arrays; the word set is the word that
/// `read_pending` reads.
pub proof fn lemma_pending_words(base: usize, irq: u32)
    requires
        valid_irq(irq),
    ensures
        word_addr(base, APLIC_CLRIP_BASE, irq) == word_addr(base, APLIC_PENDING_BASE, irq)
            + 0x100,
        forall|i: u32|
            i < 32 ==> #[trigger] crate::mmio::bit32_of(1u32 << (irq % 32), i) == (i == irq
                % 32),
{
    let b = irq % 32;
    assert forall|i: u32| i < 32 implies #[trigger] crate::mmio::bit32_of(1u32 << b, i) == (i
        == b) by {
        assert((((1u32 << b) >> i) & 1u32 == 1u32) == (i == b)) by (bit_vector)
            requires
                b < 32,
                i < 32,
        ;
    }
}

/// Every register that the domain's methods address for a valid source lies
/// inside the first 16 KiB of its window, so inside the window of any domain
/// at least that large, such as the S-level domain.
pub proof fn lemma_registers_in_window(a: Aplic, irq: u32)
    requires
        valid_irq(irq),
        a.size >= 0x4000,
    ensures
        a.base <= sourcecfg_addr(a.base, irq) && sourcecfg_addr(a.base, irq) + 4 <= a.base
            + a.size,
        a.base <= word_addr(a.base, APLIC_PENDING_BASE, irq) && word_addr(
            a.base,
            APLIC_PENDING_BASE,
            irq,
        ) + 4 <= a.base + a.size,
        a.base <= word_addr(a.base, APLIC_CLRIP_BASE, irq) && word_addr(
            a.base,
            APLIC_CLRIP_BASE,
            irq,
        ) + 4 <= a.base + a.size,
        a.base <= word_addr(a.base, APLIC_ENABLE_BASE, irq) && word_addr(
            a.base,
            APLIC_ENABLE_BASE,
            irq,
        ) + 4 <= a.base + a.size,
        a.base <= word_addr(a.base, APLIC_CLRIE_BASE, irq) && word_addr(
            a.base,
            APLIC_CLRIE_BASE,
            irq,
        ) + 4 <= a.base + a.size,
        a.base <= target_addr(a.base, irq) && target_addr(a.base, irq) + 4 <= a.base + a.size,
{
}

/// An MSI target built from a hart below 2^14, a guest file below 64 and an
/// identity below 4096 keeps each field in its place: the value is their
/// weighted sum, and each can be read back.
pub proof fn lemma_target_msi_fields(hart: u32, guest: u32, eiid: u32)
    requires
        hart < 0x4000,
        guest < 64,
        eiid < 0x1000,
    ensures
        target_msi_value(hart, guest, eiid) == hart * 0x40000 + guest * 0x1000 + eiid,
        target_msi_value(hart, guest, eiid) >> 18u32 == hart,
        (target_msi_value(hart, guest, eiid) >> 12u32) & 0x3Fu32 == guest,
        target_msi_value(hart, guest, eiid) & 0xFFFu32 == eiid,
{
    assert(((hart << 18u32) | (guest << 12u32) | eiid) == hart * 0x40000 + guest * 0x1000 + eiid)
        by (bit_vector)
        requires
            hart < 0x4000,
            guest < 64,
            eiid < 0x1000,
    ;
    assert(((hart << 18u32) | (guest << 12u32) | eiid) >> 18u32 == hart) by (bit_vector)
        requires
            hart < 0x4000,
            guest < 64,
            eiid < 0x1000,
    ;
    assert((((hart << 18u32) | (guest << 12u32) | eiid) >> 12u32) & 0x3Fu32 == guest)
        by (bit_vector)
        requires
            hart < 0x4000,
            guest < 64,
            eiid < 0x1000,
    ;
    assert(((hart << 18u32) | (guest << 12u32) | eiid) & 0xFFFu32 == eiid) by (bit_vector)
        requires
            hart < 0x4000,
            guest < 64,
            eiid < 0x1000,
    ;
}

/// A direct target keeps the hart (below 2^14) at bit 18 and the low byte
/// of the priority at bits 0 to 7.
pub proof fn lemma_target_direct_fields(hart: u32, prio: u32)
    requires
        hart < 0x4000,
    ensures
        target_direct_value(hart, prio) == hart * 0x40000 + prio % 0x100,
        target_direct_value(hart, prio) >> 18u32 == hart,
{
    assert(((hart << 18u32) | (prio & 0xFFu32)) == hart * 0x40000 + prio % 0x100) by (bit_vector)
        requires
            hart < 0x4000,
    ;
    assert(((hart << 18u32) | (prio & 0xFFu32)) >> 18u32 == hart) by (bit_vector)
        requires
            hart < 0x4000,
    ;
}

} // verus!
