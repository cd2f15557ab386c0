//! A verified core for a small AArch64 hypervisor and the kernels around it:
//! the decoding of guests' PSCI and SBI calls, the state of a virtual CPU and
//! what its exits mean, the EL2 exception dispatch, the saved contexts of the
//! host kernel, and the boot page table layout.

pub mod boot;
pub mod boot_pt;
pub mod context;
pub mod error;
pub mod mapping;
pub mod psci;
pub mod regs;
pub mod sbi;
pub mod sysregs;
pub mod tour;
pub mod trap;
pub mod vcpu;
