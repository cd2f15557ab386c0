//! Access permissions of a memory mapping, as the bits of
//! `page_table_entry::MappingFlags`.

use vstd::prelude::*;

use page_table_entry::MappingFlags;

verus! {

/// The memory is readable.
pub const MAPPING_READ: usize = 0x1;
/// The memory is writable.
pub const MAPPING_WRITE: usize = 0x2;
/// The memory is executable.
pub const MAPPING_EXECUTE: usize = 0x4;
/// The memory is accessible from user mode.
pub const MAPPING_USER: usize = 0x8;
/// The memory is device memory.
pub const MAPPING_DEVICE: usize = 0x10;

/// A region of an address space to map: `size` bytes from `start`, with the
/// permissions `flags` (bits of `MappingFlags`); when `populate` is set,
/// physical frames are allocated for the whole region at once, otherwise on
/// first touch.
#[derive(Debug, Clone, Copy, PartialEq, Eq, Structural)]
pub struct Mapping {
    pub start: usize,
    pub size: usize,
    pub flags: usize,
    pub populate: bool,
}

/// The bits of `MappingFlags::READ`, which that crate defines as `1 << 0`.
#[verifier::external_body]
pub(crate) fn flag_read() -> (r: usize)
    ensures
        r == MAPPING_READ,
{
    MappingFlags::READ.bits()
}

/// The bits of `MappingFlags::WRITE`, which that crate defines as `1 << 1`.
#[verifier::external_body]
pub(crate) fn flag_write() -> (r: usize)
    ensures
        r == MAPPING_WRITE,
{
    MappingFlags::WRITE.bits()
}

/// The bits of `MappingFlags::EXECUTE`, which that crate defines as `1 << 2`.
#[verifier::external_body]
pub(crate) fn flag_execute() -> (r: usize)
    ensures
        r == MAPPING_EXECUTE,
{
    MappingFlags::EXECUTE.bits()
}

/// The bits of `MappingFlags::USER`, which that crate defines as `1 << 3`.
#[verifier::external_body]
pub(crate) fn flag_user() -> (r: usize)
    ensures
        r == MAPPING_USER,
{
    MappingFlags::USER.bits()
}

/// The bits of `MappingFlags::DEVICE`, which that crate defines as `1 << 4`.
#[verifier::external_body]
pub(crate) fn flag_device() -> (r: usize)
    ensures
        r == MAPPING_DEVICE,
{
    MappingFlags::DEVICE.bits()
}

} // verus!
