//! Verified core of a small RISC-V hypervisor: register encodings for the
//! APLIC and IMSIC interrupt controllers, the UART console line editor,
//! per-CPU records, trap decoding and the multi-hart boot protocol.
use vstd::prelude::*;

pub mod aplic;
pub mod boot;
pub mod console;
pub mod consts;
pub mod imsic;
pub mod mmio;
pub mod percpu;
pub mod ringbuffer;
pub mod trap;
pub mod vm;
