//! The hypervisor that passes devices through: its guest address space, and
//! what it does when the guest touches memory that is not mapped yet.

use vstd::prelude::*;

use crate::mapping::{
    Mapping, flag_device, flag_execute, flag_read, flag_user, flag_write, MAPPING_DEVICE, MAPPING_EXECUTE,
    MAPPING_READ, MAPPING_USER, MAPPING_WRITE,
};
use crate::vcpu::AxVCpuExitReason;

verus! {

/// The guest's address space starts at 0 ...
pub const VM_ASPACE_BASE: usize = 0x0;
/// ... and is this large (just under 128 TiB).
pub const VM_ASPACE_SIZE: u64 = 0x7fff_ffff_f000;
/// The guest's RAM starts at 1 GiB ...
pub const PHY_MEM_START: usize = 0x4000_0000;
/// ... and is 128 MiB large.
pub const PHY_MEM_SIZE: usize = 0x800_0000;
/// Where the guest kernel image is loaded and entered.
pub const KERNEL_BASE: usize = 0x4008_0000;
/// The guest physical page reserved for boot information.
pub const BOOTINFO_GPA: usize = 0x4000_0000;

/// The size of a stage-2 page.
pub const PAGE_SIZE_4K: usize = 0x1000;

/// `memory_addr::align_down_4k`, which the crate defines as
/// `align_down(addr, PAGE_SIZE_4K)`, that is `addr & !(0x1000 - 1)`.
pub assume_specification[ memory_addr::align_down_4k ](addr: usize) -> (r: usize)
    ensures
        r == addr & !0xfffusize,
;

/// The permissions of guest RAM: read, write, execute, user.
pub open spec fn guest_ram_flags() -> usize {
    MAPPING_READ | MAPPING_WRITE | MAPPING_EXECUTE | MAPPING_USER
}

/// The permissions of guest RAM (see `guest_ram_flags`).
pub fn ram_flags() -> (r: usize)
    ensures
        r == guest_ram_flags(),
{
    flag_read() | flag_write() | flag_execute() | flag_user()
}

/// Whether a host memory region with permissions `flags` is a device, which
/// is mapped into the guest at the same address before the guest starts.
pub fn is_passthrough_region(flags: usize) -> (r: bool)
    ensures
        r == (flags & MAPPING_DEVICE == MAPPING_DEVICE),
{
    let device = flag_device();
    flags & device == device
}

/// How the guest's memory is laid out before it first runs.
#[derive(Debug, Clone, Copy, PartialEq, Eq, Structural)]
pub struct GuestMemoryPlan {
    /// The guest address space starts here ...
    pub aspace_base: usize,
    /// ... and is this many bytes large.
    pub aspace_size: u64,
    /// The guest's RAM, allocated at once.
    pub ram: Mapping,
    /// The page of boot information, zeroed before the guest runs ...
    pub bootinfo_page: usize,
    /// ... and its size.
    pub bootinfo_size: usize,
    /// Where the kernel image is loaded, and where the guest is entered.
    pub kernel_base: usize,
}

/// The guest memory plan: address space `[0, 0x7fff_ffff_f000)`, 128 MiB of
/// RAM at 1 GiB (read, write, execute, user; allocated at once), the boot
/// information page at 1 GiB zeroed, and the kernel loaded and entered at
/// `0x4008_0000`.
pub fn guest_memory_plan() -> (r: GuestMemoryPlan)
    ensures
        r == (GuestMemoryPlan {
            aspace_base: VM_ASPACE_BASE,
            aspace_size: VM_ASPACE_SIZE,
            ram: Mapping {
                start: PHY_MEM_START,
                size: PHY_MEM_SIZE,
                flags: guest_ram_flags(),
                populate: true,
            },
            bootinfo_page: BOOTINFO_GPA,
            bootinfo_size: PAGE_SIZE_4K,
            kernel_base: KERNEL_BASE,
        }),
{
    GuestMemoryPlan {
        aspace_base: VM_ASPACE_BASE,
        aspace_size: VM_ASPACE_SIZE,
        ram: Mapping { start: PHY_MEM_START, size: PHY_MEM_SIZE, flags: ram_flags(), populate: true },
        bootinfo_page: BOOTINFO_GPA,
        bootinfo_size: PAGE_SIZE_4K,
        kernel_base: KERNEL_BASE,
    }
}

/// A stage-2 mapping to create: guest page `page`, `size` bytes, with
/// permissions `flags`.
#[derive(Debug, Clone, Copy, PartialEq, Eq, Structural)]
pub struct Stage2Mapping {
    pub page: usize,
    pub size: usize,
    pub flags: usize,
}

/// Decides an exit of the guest: nothing to do, or a stage-2 fault that is
/// resolved by mapping fresh RAM over the 4 KiB page around the faulting
/// address.
pub fn handle_exit(reason: AxVCpuExitReason) -> (r: Option<Stage2Mapping>)
    ensures
        reason is Nothing ==> r is None,
        reason matches AxVCpuExitReason::PageFault { addr, .. } ==> r == Some(
            Stage2Mapping { page: addr & !0xfffusize, size: PAGE_SIZE_4K, flags: guest_ram_flags() },
        ),
{
    match reason {
        AxVCpuExitReason::Nothing => None,
        AxVCpuExitReason::PageFault { addr, .. } => {
            let page = memory_addr::align_down_4k(addr);
            Some(Stage2Mapping { page, size: PAGE_SIZE_4K, flags: ram_flags() })
        },
    }
}

} // verus!
