//! The small monolithic kernel: its system calls and page faults.

use vstd::prelude::*;

use axerrno::LinuxError;

use crate::context::TrapFrame;
use crate::mapping::{
    flag_execute, flag_read, flag_user, flag_write, Mapping, MAPPING_EXECUTE, MAPPING_READ,
    MAPPING_USER, MAPPING_WRITE,
};

verus! {

/// The size of the user stack.
pub const USER_STACK_SIZE: usize = 0x10000;
/// The size of a task's kernel stack (256 KiB).
pub const KERNEL_STACK_SIZE: usize = 0x40000;
/// Where the user program is loaded and entered.
pub const APP_ENTRY: usize = 0x1000;
/// The system call number of `exit`.
pub const SYS_EXIT: usize = 93;
/// The PSCI function that powers the machine off.
pub const PSCI_SYSTEM_OFF: u32 = 0x8400_0008;

/// Linux's `ENOSYS`, "invalid system call number".
pub const ENOSYS: i32 = 38;

/// `LinuxError::ENOSYS.code()` of `axerrno`: the crate generates `LinuxError`
/// from Linux's `errno.h`, where `ENOSYS` is 38, and `code` returns the
/// discriminant.
#[verifier::external_body]
fn enosys_code() -> (r: i32)
    ensures
        r == ENOSYS,
{
    LinuxError::ENOSYS.code()
}

/// What a system call leads to.
#[derive(Debug, Clone, Copy, PartialEq, Eq, Structural)]
pub enum SyscallOutcome {
    /// The calling task exits with this status.
    Exit(i32),
    /// The call returns this value to user space.
    Return(isize),
}

/// Decides system call `syscall_num` made with registers `tf`: `exit` ends
/// the task with the low 32 bits of `x0` as its status; every other call is
/// unimplemented and returns `-ENOSYS`.
pub fn handle_syscall(tf: &TrapFrame, syscall_num: usize) -> (r: SyscallOutcome)
    ensures
        syscall_num == SYS_EXIT ==> r == SyscallOutcome::Exit(tf.r@[0] as i32),
        syscall_num != SYS_EXIT ==> r == SyscallOutcome::Return(-ENOSYS as isize),
{
    if syscall_num == SYS_EXIT {
        SyscallOutcome::Exit(tf.r[0] as i32)
    } else {
        let code = enosys_code();
        SyscallOutcome::Return(-code as isize)
    }
}

/// What a page fault leads to.
#[derive(Debug, Clone, Copy, PartialEq, Eq, Structural)]
pub enum PageFaultOutcome {
    /// The fault was resolved.
    Handled,
    /// A user fault that the address space could not resolve: a
    /// segmentation fault, and the task exits with status `exit_code`.
    KillTask { exit_code: i32 },
    /// A kernel fault, which is not handled here.
    NotHandled,
}

/// Decides a page fault: a user fault is resolved by the task's address
/// space (`aspace_resolved` says whether it was), a kernel fault is not
/// handled. The caller consults the address space only for a user fault; for
/// a kernel fault `aspace_resolved` is ignored.
pub fn handle_page_fault(is_user: bool, aspace_resolved: bool) -> (r: PageFaultOutcome)
    ensures
        r == (if !is_user {
            PageFaultOutcome::NotHandled
        } else if aspace_resolved {
            PageFaultOutcome::Handled
        } else {
            PageFaultOutcome::KillTask { exit_code: -1i32 }
        }),
{
    if is_user {
        if !aspace_resolved {
            PageFaultOutcome::KillTask { exit_code: -1 }
        } else {
            PageFaultOutcome::Handled
        }
    } else {
        PageFaultOutcome::NotHandled
    }
}

/// The permissions of the user stack: read, write, user.
pub open spec fn user_stack_flags() -> usize {
    MAPPING_READ | MAPPING_WRITE | MAPPING_USER
}

/// The permissions of the user program's code page: read, write, execute,
/// user.
pub open spec fn user_code_flags() -> usize {
    MAPPING_READ | MAPPING_WRITE | MAPPING_EXECUTE | MAPPING_USER
}

/// The size of the page the user program is loaded into.
pub const USER_CODE_SIZE: usize = 0x1000;

/// The user stack of an address space ending at `ustack_top`: it is mapped
/// over the last `USER_STACK_SIZE` bytes, readable, writable and accessible
/// from user mode, populated at once exactly when `populating` is set, and
/// the stack pointer starts at the end.
pub fn init_user_stack(ustack_top: usize, populating: bool) -> (r: (Mapping, usize))
    requires
        ustack_top >= USER_STACK_SIZE,
    ensures
        r.0 == (Mapping {
            start: (ustack_top - USER_STACK_SIZE) as usize,
            size: USER_STACK_SIZE,
            flags: user_stack_flags(),
            populate: populating,
        }),
        r.1 == ustack_top,
{
    let flags = flag_read() | flag_write() | flag_user();
    (
        Mapping {
            start: ustack_top - USER_STACK_SIZE,
            size: USER_STACK_SIZE,
            flags,
            populate: populating,
        },
        ustack_top,
    )
}

/// The user program: `mov x8, #93` (the `exit` system call), `mov x0, #42`
/// (its status), `svc #0`, as little-endian AArch64 instructions.
pub open spec fn user_program() -> Seq<u8> {
    seq![
        0xa8u8, 0x0bu8, 0x80u8, 0xd2u8,
        0x40u8, 0x05u8, 0x80u8, 0xd2u8,
        0x01u8, 0x00u8, 0x00u8, 0xd4u8,
    ]
}

/// Where the user program goes and what it is: one page at `APP_ENTRY`,
/// readable, writable, executable and accessible from user mode, populated
/// at once, holding `user_program` at its start.
pub fn load_user_app() -> (r: (Mapping, Vec<u8>))
    ensures
        r.0 == (Mapping {
            start: APP_ENTRY,
            size: USER_CODE_SIZE,
            flags: user_code_flags(),
            populate: true,
        }),
        r.1@ == user_program(),
{
    let flags = flag_read() | flag_write() | flag_execute() | flag_user();
    let code: Vec<u8> = vec![
        0xa8, 0x0b, 0x80, 0xd2,  // mov x8, #93
        0x40, 0x05, 0x80, 0xd2,  // mov x0, #42
        0x01, 0x00, 0x00, 0xd4,  // svc #0
    ];
    assert(code@ =~= user_program());
    (Mapping { start: APP_ENTRY, size: USER_CODE_SIZE, flags, populate: true }, code)
}

} // verus!
