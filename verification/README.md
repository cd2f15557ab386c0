# hv_tour

A verified core for a small AArch64 hypervisor and the kernels around it.

- `src/` is the library, checked by Verus: PSCI and SBI call decoding
  (`psci`, `sbi`), the virtual CPU and its exits (`vcpu`, `regs`, `sysregs`),
  the EL2 synchronous-exception dispatch (`trap`), saved contexts (`context`),
  which descriptor goes where in the boot page table (`boot_pt`; the
  descriptor encoding itself is passed in by the caller), the boot MMU
  settings (`boot`), and the decisions of the
  tour programs (`tour`).
- `app/` is the hardware glue: system register access, the world switch, the
  exception vector handlers, task switching and entry to user space. It
  performs what the library decides.
- `tests/` runs the library on concrete inputs.
