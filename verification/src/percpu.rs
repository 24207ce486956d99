//! Per-CPU records: the architectural hart state and the hypervisor's view
//! of each CPU, and how a CPU enters its guest.
use vstd::prelude::*;

verus! {

/// The architectural state of one hart.
#[derive(PartialEq, Eq, Structural, Debug, Clone, Copy)]
pub struct ArchCpu {
    pub hartid: usize,
}

impl ArchCpu {
    /// The state of hart `hartid`.
    pub fn new(hartid: usize) -> (c: Self)
        ensures
            c.hartid == hartid,
    {
        ArchCpu { hartid }
    }

    /// The hart's number.
    pub fn get_hartid(&self) -> (h: usize)
        ensures
            h == self.hartid,
    {
        self.hartid
    }

    /// Architectural set-up; there is none to do, and it reports 0.
    pub fn init(&mut self) -> (r: usize)
        ensures
            r == 0,
            *final(self) == *old(self),
    {
        0
    }
}

/// How a CPU enters its guest.
#[derive(PartialEq, Eq, Structural, Debug, Clone, Copy)]
pub enum VmEntry {
    /// The boot CPU returns to its guest entry with `hartid` as argument.
    Boot { hartid: usize },
    /// Another CPU brings up its interrupt file, waits for an interrupt and
    /// then enters the secondary guest entry with `hartid` as argument.
    Secondary { hartid: usize },
}

/// The hypervisor's record of one CPU.
#[derive(PartialEq, Eq, Structural, Debug, Clone, Copy)]
pub struct PerCpu {
    pub id: usize,
    pub arch_cpu: ArchCpu,
    pub boot_cpu: bool,
}

impl PerCpu {
    /// The record of CPU `cpu_id`, not (yet) the boot CPU.
    pub fn new(cpu_id: usize) -> (c: Self)
        ensures
            c == (PerCpu { id: cpu_id, arch_cpu: ArchCpu { hartid: cpu_id }, boot_cpu: false }),
    {
        PerCpu { id: cpu_id, arch_cpu: ArchCpu::new(cpu_id), boot_cpu: false }
    }

    /// Per-CPU set-up: the architectural set-up, which changes nothing.
    pub fn cpu_init(&mut self)
        ensures
            *final(self) == *old(self),
    {
        self.arch_cpu.init();
    }

    /// How this CPU enters its guest: the boot CPU directly, the others
    /// after bringing up their interrupt file.
    pub fn run_vm(&self) -> (e: VmEntry)
        ensures
            e == (if self.boot_cpu {
                VmEntry::Boot { hartid: self.arch_cpu.hartid }
            } else {
                VmEntry::Secondary { hartid: self.arch_cpu.hartid }
            }),
    {
        if self.boot_cpu {
            VmEntry::Boot { hartid: self.arch_cpu.get_hartid() }
        } else {
            VmEntry::Secondary { hartid: self.arch_cpu.get_hartid() }
        }
    }

    /// Marks this CPU as the boot CPU.
    pub fn set_boot(&mut self)
        ensures
            *final(self) == (PerCpu { boot_cpu: true, ..*old(self) }),
    {
        self.boot_cpu = true;
    }
}

/// The address of the record of CPU `cpu_id` in the per-CPU array at
/// `array_base`, whose slots are `per_cpu_size` bytes (the addition wraps).
pub fn per_cpu_address(array_base: usize, cpu_id: usize, per_cpu_size: usize) -> (a: usize)
    requires
        cpu_id * per_cpu_size <= usize::MAX,
    ensures
        a == (if array_base + cpu_id * per_cpu_size > usize::MAX {
            array_base + cpu_id * per_cpu_size - (usize::MAX + 1)
        } else {
            array_base + cpu_id * per_cpu_size
        }),
{
    let offset = cpu_id * per_cpu_size;
    array_base.wrapping_add(offset)
}

} // verus!
