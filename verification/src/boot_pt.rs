//! The boot page table of the hypervisor: an identity map of the low 512 GiB
//! in 1 GiB blocks, the first of them device memory, the rest normal memory.
//!
//! Descriptors are kept as their raw 64-bit values. How a descriptor is
//! encoded is the business of the caller's descriptor builders (on AArch64,
//! `page_table_entry`'s `A64PTE::new_page` and `A64PTE::new_table`); this
//! module decides which descriptor goes where. The encoding is a parameter
//! because `page_table_entry` builds its AArch64 descriptors only when it is
//! compiled for an AArch64 target.

use vstd::prelude::*;

use crate::mapping::{
    flag_device, flag_execute, flag_read, flag_write, MAPPING_DEVICE, MAPPING_EXECUTE,
    MAPPING_READ, MAPPING_WRITE,
};

verus! {

/// One gibibyte, the size of a level-1 block.
pub const BLOCK_SIZE_1G: usize = 0x4000_0000;
/// The number of descriptors in one translation table.
pub const ENTRIES_PER_TABLE: usize = 512;

/// The permissions of the first gibibyte: device memory, read and write.
pub open spec fn boot_device_flags() -> usize {
    MAPPING_READ | MAPPING_WRITE | MAPPING_DEVICE
}

/// The permissions of the rest: normal memory, read, write and execute.
pub open spec fn boot_normal_flags() -> usize {
    MAPPING_READ | MAPPING_WRITE | MAPPING_EXECUTE
}

/// The block that level-1 entry `i` of the boot page table maps: its
/// physical address, its permissions (bits of `MappingFlags`), and that it
/// is a block rather than a page.
pub open spec fn boot_l1_block(i: int) -> (usize, usize, bool) {
    if i == 0 {
        (0usize, boot_device_flags(), true)
    } else {
        ((i * BLOCK_SIZE_1G) as usize, boot_normal_flags(), true)
    }
}

/// Fills the boot page table: `boot_pt_l0[0]` becomes the table descriptor
/// that `new_table` builds for the level-1 table `boot_pt_l1`, which lives at
/// physical address `l1_paddr`; entry `i` of `boot_pt_l1` becomes the block
/// descriptor that `new_page` builds for the gibibyte at `i * 1 GiB`, mapped
/// to itself (the first as device memory). The other entries of
/// `boot_pt_l0` are left as they are.
pub fn init_boot_page_table<P, T>(
    boot_pt_l0: &mut [u64; 512],
    boot_pt_l1: &mut [u64; 512],
    l1_paddr: usize,
    new_page: P,
    new_table: T,
)
    where
        P: Fn(usize, usize, bool) -> u64,
        T: Fn(usize) -> u64,
    requires
        ENTRIES_PER_TABLE * BLOCK_SIZE_1G <= usize::MAX + 1,
        forall|paddr: usize, flags: usize, is_huge: bool| new_page.requires((paddr, flags, is_huge)),
        forall|paddr: usize| new_table.requires((paddr,)),
    ensures
        final(boot_pt_l0)@ == old(boot_pt_l0)@.update(0, final(boot_pt_l0)@[0]),
        new_table.ensures((l1_paddr,), final(boot_pt_l0)@[0]),
        forall|i: int|
            0 <= i < 512 ==> new_page.ensures(
                boot_l1_block(i),
                #[trigger] final(boot_pt_l1)@[i],
            ),
{
    boot_pt_l0[0] = new_table(l1_paddr);
    let device = flag_read() | flag_write() | flag_device();
    boot_pt_l1[0] = new_page(0, device, true);
    let normal = flag_read() | flag_write() | flag_execute();
    let mut i: usize = 1;
    while i < 512
        invariant
            1 <= i <= 512,
            ENTRIES_PER_TABLE * BLOCK_SIZE_1G <= usize::MAX + 1,
            normal == boot_normal_flags(),
            forall|paddr: usize, flags: usize, is_huge: bool| new_page.requires((paddr, flags, is_huge)),
            forall|j: int| 0 <= j < i ==> new_page.ensures(boot_l1_block(j), #[trigger] boot_pt_l1@[j]),
        decreases 512 - i,
    {
        assert(i * BLOCK_SIZE_1G < ENTRIES_PER_TABLE * BLOCK_SIZE_1G) by (nonlinear_arith)
            requires
                i < 512,
        ;
        let entry = new_page(i * 0x4000_0000, normal, true);
        boot_pt_l1[i] = entry;
        i = i + 1;
    }
}

} // verus!
