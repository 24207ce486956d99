//! Decoding of supervisor traps from the `scause` CSR.
use vstd::prelude::*;
use crate::imsic::PrivMode;

verus! {

/// What the hypervisor does on a trap.
#[derive(PartialEq, Eq, Structural, Debug, Clone, Copy)]
pub enum TrapAction {
    /// Supervisor external interrupt (code 9): claim from the interrupt file
    /// of `PrivMode`.
    Imsic(PrivMode),
    /// Any other interrupt; the raw cause.
    UnknownInterrupt(u64),
    /// Environment call from VS-mode (code 10).
    SupervisorEcall,
    /// Any other exception: the hypervisor stops.
    UnknownException(u64),
}

/// Bit 63 of `scause`: the trap is an interrupt.
pub open spec fn is_interrupt(scause: u64) -> bool {
    scause >= 0x8000_0000_0000_0000u64
}

/// The cause code in the low byte of `scause`.
pub open spec fn cause_code(scause: u64) -> u64 {
    scause % 256
}

/// Decodes the trap cause `scause` into what to do.
pub fn rust_trap(scause: u64) -> (a: TrapAction)
    ensures
        a == (if is_interrupt(scause) {
            if cause_code(scause) == 9 {
                TrapAction::Imsic(PrivMode::Supervisor)
            } else {
                TrapAction::UnknownInterrupt(scause)
            }
        } else if cause_code(scause) == 10 {
            TrapAction::SupervisorEcall
        } else {
            TrapAction::UnknownException(scause)
        }),
{
    let interrupt = (scause >> 63u64) & 1 == 1;
    let code = scause & 0xFF;
    assert(((scause >> 63u64) & 1 == 1) == (scause >= 0x8000_0000_0000_0000u64)) by (bit_vector);
    assert(scause & 0xFF == scause % 256) by (bit_vector);
    if interrupt {
        if code == 9 {
            TrapAction::Imsic(PrivMode::Supervisor)
        } else {
            TrapAction::UnknownInterrupt(scause)
        }
    } else {
        if code == 10 {
            TrapAction::SupervisorEcall
        } else {
            TrapAction::UnknownException(scause)
        }
    }
}

} // verus!
