# hs

The verified core of a small two-hart RISC-V hypervisor.

- `src/` is the library, verified with Verus. It computes what the
  hypervisor does to the hardware: the APLIC and IMSIC register stores and
  indirect CSR updates, the UART stores and the console line editor, the
  boot protocol between the harts, trap decoding, per-CPU records and the
  trap frames each guest entry fills in. Its `proof fn`s state the laws the
  code keeps (round trips of interrupt enable and pending bits, the APLIC
  register map, first-in first-out console input, the boot barriers).
- `app/` is the bare-metal program around it: CSR and MMIO accesses, the
  entry code, the global state (atomics, `spin` cells) and the SBI calls
  that start the other hart. It builds for `riscv64`; on other targets the
  hardware accessors stop with a message.
- `tests/` run the library on concrete values.
