//! What the hypervisor's own exception vector decides about a synchronous
//! exception taken to EL2: which are logged, which are page faults for the
//! registered handler, which skip a breakpoint, and which are fatal.

use vstd::prelude::*;

use crate::context::TrapFrame;
use crate::mapping::{
    flag_execute, flag_read, flag_user, flag_write, MAPPING_EXECUTE, MAPPING_READ, MAPPING_USER,
    MAPPING_WRITE,
};
use crate::sysregs::exception_class::{
    EC_BRK64, EC_DABT_CURRENT, EC_DABT_LOWER, EC_HVC64, EC_IABT_CURRENT, EC_IABT_LOWER, EC_SVC64,
};
use crate::sysregs::{esr_ec, esr_iss, exception_class_of, syndrome_of};

verus! {

/// The access permissions of a data abort with syndrome `iss`: a write
/// (`WnR`, bit 6) that is no cache maintenance (`CM`, bit 8) needs
/// write permission, anything else read permission; an abort taken from a
/// lower exception level is a user access.
pub open spec fn data_abort_access(iss: u64, is_lower: bool) -> usize {
    let wnr = iss & 0x40 != 0;
    let cm = iss & 0x100 != 0;
    let access = if wnr && !cm { MAPPING_WRITE } else { MAPPING_READ };
    if is_lower { access | MAPPING_USER } else { access }
}

/// The access permissions of an instruction abort: execute permission, and
/// user access when taken from a lower exception level.
pub open spec fn instruction_abort_access(is_lower: bool) -> usize {
    if is_lower { MAPPING_EXECUTE | MAPPING_USER } else { MAPPING_EXECUTE }
}

/// The abort is a translation fault or a permission fault (`xFSC[5:2]` is
/// `0b0001` or `0b0011`), the kinds a page fault handler can resolve.
pub open spec fn is_page_fault_status(iss: u64) -> bool {
    iss & 0b11_1100 == 0b0100 || iss & 0b11_1100 == 0b1100
}

/// The access permissions of a data abort (see `data_abort_access`).
pub fn data_abort_flags(iss: u64, is_lower: bool) -> (r: usize)
    ensures
        r == data_abort_access(iss, is_lower),
{
    let wnr = (iss & 0x40) != 0;
    let cm = (iss & 0x100) != 0;
    let access = if wnr && !cm {
        flag_write()
    } else {
        flag_read()
    };
    if is_lower {
        access | flag_user()
    } else {
        access
    }
}

/// The access permissions of an instruction abort (see
/// `instruction_abort_access`).
pub fn instruction_abort_flags(is_lower: bool) -> (r: usize)
    ensures
        r == instruction_abort_access(is_lower),
{
    let access = flag_execute();
    if is_lower {
        access | flag_user()
    } else {
        access
    }
}

/// Whether an abort with syndrome `iss` is a translation or permission fault.
pub fn page_fault_status(iss: u64) -> (r: bool)
    ensures
        r == is_page_fault_status(iss),
{
    let status = iss & 0b11_1100;
    status == 0b0100 || status == 0b1100
}

/// What is to be done with an instruction or data abort.
#[derive(Debug, Clone, Copy, PartialEq, Eq, Structural)]
pub struct AbortAction {
    /// The permissions the faulting access needed (bits of `MappingFlags`).
    pub access_flags: usize,
    /// The fault is handed to the page fault handler; when this is false, or
    /// the handler does not resolve it, the abort is fatal.
    pub dispatch: bool,
}

/// Decides an instruction abort with syndrome `iss`.
pub fn handle_instruction_abort_el2(iss: u64, is_lower: bool) -> (r: AbortAction)
    ensures
        r.access_flags == instruction_abort_access(is_lower),
        r.dispatch == is_page_fault_status(iss),
{
    AbortAction { access_flags: instruction_abort_flags(is_lower), dispatch: page_fault_status(iss) }
}

/// Decides a data abort with syndrome `iss`.
pub fn handle_data_abort_el2(iss: u64, is_lower: bool) -> (r: AbortAction)
    ensures
        r.access_flags == data_abort_access(iss, is_lower),
        r.dispatch == is_page_fault_status(iss),
{
    AbortAction { access_flags: data_abort_flags(iss, is_lower), dispatch: page_fault_status(iss) }
}

/// What is to be done with a synchronous exception taken to EL2.
#[derive(Debug, Clone, Copy, PartialEq, Eq, Structural)]
pub enum SyncExceptionAction {
    /// An `SVC` from a lower level: no system call is supported, which is
    /// logged.
    Syscall,
    /// An `HVC`, which is logged with its syndrome.
    Hypercall { iss: u64 },
    /// An instruction (`is_instruction`) or data abort.
    Abort { is_instruction: bool, is_lower: bool, iss: u64, action: AbortAction },
    /// A `BRK`: execution resumes after the breakpoint instruction.
    Breakpoint { iss: u64 },
    /// Any other exception class: fatal.
    Unhandled { ec: u64, iss: u64 },
}

/// What a synchronous exception with syndrome `esr` leads to.
pub open spec fn sync_exception_action(esr: u64) -> SyncExceptionAction {
    let ec = esr_ec(esr);
    let iss = esr_iss(esr);
    if ec == EC_SVC64 as u64 {
        SyncExceptionAction::Syscall
    } else if ec == EC_HVC64 as u64 {
        SyncExceptionAction::Hypercall { iss }
    } else if ec == EC_IABT_LOWER as u64 || ec == EC_IABT_CURRENT as u64 {
        let is_lower = ec == EC_IABT_LOWER as u64;
        SyncExceptionAction::Abort {
            is_instruction: true,
            is_lower,
            iss,
            action: AbortAction {
                access_flags: instruction_abort_access(is_lower),
                dispatch: is_page_fault_status(iss),
            },
        }
    } else if ec == EC_DABT_LOWER as u64 || ec == EC_DABT_CURRENT as u64 {
        let is_lower = ec == EC_DABT_LOWER as u64;
        SyncExceptionAction::Abort {
            is_instruction: false,
            is_lower,
            iss,
            action: AbortAction {
                access_flags: data_abort_access(iss, is_lower),
                dispatch: is_page_fault_status(iss),
            },
        }
    } else if ec == EC_BRK64 as u64 {
        SyncExceptionAction::Breakpoint { iss }
    } else {
        SyncExceptionAction::Unhandled { ec, iss }
    }
}

/// Decides a synchronous exception with syndrome `esr` that interrupted the
/// code whose registers are `tf`. A breakpoint moves the return address past
/// the 4-byte `BRK` instruction; nothing else changes `tf`.
pub fn handle_sync_exception_el2(tf: &mut TrapFrame, esr: u64) -> (r: SyncExceptionAction)
    requires
        esr_ec(esr) == EC_BRK64 as u64 ==> old(tf).elr + 4 <= u64::MAX,
    ensures
        r == sync_exception_action(esr),
        r is Breakpoint ==> *final(tf) == (TrapFrame { elr: (old(tf).elr + 4) as u64, ..*old(tf) }),
        !(r is Breakpoint) ==> *final(tf) == *old(tf),
{
    let ec = exception_class_of(esr);
    let iss = syndrome_of(esr);
    if ec == EC_SVC64 as u64 {
        SyncExceptionAction::Syscall
    } else if ec == EC_HVC64 as u64 {
        SyncExceptionAction::Hypercall { iss }
    } else if ec == EC_IABT_LOWER as u64 {
        SyncExceptionAction::Abort {
            is_instruction: true,
            is_lower: true,
            iss,
            action: handle_instruction_abort_el2(iss, true),
        }
    } else if ec == EC_IABT_CURRENT as u64 {
        SyncExceptionAction::Abort {
            is_instruction: true,
            is_lower: false,
            iss,
            action: handle_instruction_abort_el2(iss, false),
        }
    } else if ec == EC_DABT_LOWER as u64 {
        SyncExceptionAction::Abort {
            is_instruction: false,
            is_lower: true,
            iss,
            action: handle_data_abort_el2(iss, true),
        }
    } else if ec == EC_DABT_CURRENT as u64 {
        SyncExceptionAction::Abort {
            is_instruction: false,
            is_lower: false,
            iss,
            action: handle_data_abort_el2(iss, false),
        }
    } else if ec == EC_BRK64 as u64 {
        tf.elr += 4;
        SyncExceptionAction::Breakpoint { iss }
    } else {
        SyncExceptionAction::Unhandled { ec, iss }
    }
}


/// An abort's permissions name a user access exactly when it was taken from
/// a lower exception level; an instruction abort always needs execute
/// permission.
pub proof fn lemma_abort_flags_user(iss: u64, is_lower: bool)
    ensures
        (data_abort_access(iss, is_lower) & MAPPING_USER == MAPPING_USER) == is_lower,
        (instruction_abort_access(is_lower) & MAPPING_USER == MAPPING_USER) == is_lower,
        instruction_abort_access(is_lower) & MAPPING_EXECUTE == MAPPING_EXECUTE,
{
    assert((2usize | 8usize) & 8usize == 8usize) by (bit_vector);
    assert((1usize | 8usize) & 8usize == 8usize) by (bit_vector);
    assert(2usize & 8usize != 8usize) by (bit_vector);
    assert(1usize & 8usize != 8usize) by (bit_vector);
    assert((4usize | 8usize) & 8usize == 8usize) by (bit_vector);
    assert(4usize & 8usize != 8usize) by (bit_vector);
    assert((4usize | 8usize) & 4usize == 4usize) by (bit_vector);
    assert(4usize & 4usize == 4usize) by (bit_vector);
}

/// Whether an abort goes to the page fault handler depends on its fault
/// status class alone (`xFSC[5:2]`), not on the translation level
/// (`xFSC[1:0]`): translation faults (class `0b0001`) and permission faults
/// (class `0b0011`) of every level go there, nothing else does.
pub proof fn lemma_fault_status_by_class(iss: u64)
    ensures
        is_page_fault_status(iss) <==> ((iss >> 2u64) & 0xf == 1 || (iss >> 2u64) & 0xf == 3),
        forall|l: u64|
            l < 4 ==> #[trigger] is_page_fault_status((iss & !3u64) | l) == is_page_fault_status(
                iss,
            ),
{
    assert((iss & 0x3c == 0x4 || iss & 0x3c == 0xc) <==> ((iss >> 2u64) & 0xf == 1 || (iss >> 2u64)
        & 0xf == 3)) by (bit_vector);
    assert forall|l: u64| l < 4 implies #[trigger] is_page_fault_status((iss & !3u64) | l)
        == is_page_fault_status(iss) by {
        assert(((iss & !3u64) | l) & 0x3c == iss & 0x3c) by (bit_vector)
            requires
                l < 4,
        ;
    }
}

/// An instruction or data abort is reported from a lower exception level
/// exactly for the classes taken from a lower level (`0x20`, `0x24`), and
/// then as a user access; from EL2 itself (`0x21`, `0x25`) it is no user
/// access. The abort carries its syndrome, and it goes to the page fault
/// handler exactly when its fault status is a translation or permission
/// fault.
pub proof fn lemma_abort_origin(esr: u64)
    ensures
        esr_ec(esr) == EC_IABT_LOWER as u64 || esr_ec(esr) == EC_IABT_CURRENT as u64 || esr_ec(esr)
            == EC_DABT_LOWER as u64 || esr_ec(esr) == EC_DABT_CURRENT as u64 ==> (sync_exception_action(
            esr,
        ) matches SyncExceptionAction::Abort { is_instruction, is_lower, iss, action } && iss
            == esr_iss(esr) && is_lower == (esr_ec(esr) == EC_IABT_LOWER as u64 || esr_ec(esr)
            == EC_DABT_LOWER as u64) && is_instruction == (esr_ec(esr) == EC_IABT_LOWER as u64
            || esr_ec(esr) == EC_IABT_CURRENT as u64) && (action.access_flags & MAPPING_USER
            == MAPPING_USER) == is_lower && action.dispatch == (((iss >> 2u64) & 0xf == 1) || ((iss
            >> 2u64) & 0xf == 3))),
{
    let iss = esr_iss(esr);
    lemma_abort_flags_user(iss, true);
    lemma_abort_flags_user(iss, false);
    lemma_fault_status_by_class(iss);
}


/// A data abort needs write permission exactly for a write (`WnR`) that is
/// no cache maintenance (`CM`), and read permission otherwise; never both.
pub proof fn lemma_data_abort_write_or_read(iss: u64, is_lower: bool)
    ensures
        (data_abort_access(iss, is_lower) & MAPPING_WRITE == MAPPING_WRITE) == (iss & 0x40 != 0
            && iss & 0x100 == 0),
        (data_abort_access(iss, is_lower) & MAPPING_READ == MAPPING_READ) == !(iss & 0x40 != 0
            && iss & 0x100 == 0),
        data_abort_access(iss, is_lower) & MAPPING_EXECUTE == 0,
{
    assert((2usize | 8usize) & 2usize == 2usize) by (bit_vector);
    assert((1usize | 8usize) & 2usize != 2usize) by (bit_vector);
    assert((2usize | 8usize) & 1usize != 1usize) by (bit_vector);
    assert((1usize | 8usize) & 1usize == 1usize) by (bit_vector);
    assert(2usize & 1usize != 1usize) by (bit_vector);
    assert(1usize & 2usize != 2usize) by (bit_vector);
    assert(2usize & 2usize == 2usize) by (bit_vector);
    assert(1usize & 1usize == 1usize) by (bit_vector);
    assert((2usize | 8usize) & 4usize == 0) by (bit_vector);
    assert((1usize | 8usize) & 4usize == 0) by (bit_vector);
    assert(2usize & 4usize == 0) by (bit_vector);
    assert(1usize & 4usize == 0) by (bit_vector);
}

/// The exception classes that are no aborts: an `SVC` is a system call, an
/// `HVC` a hypercall and a `BRK` a breakpoint, each with the syndrome of the
/// exception; every class not named here is unhandled, with its class and
/// syndrome.
pub proof fn lemma_other_exception_classes(esr: u64)
    ensures
        esr_ec(esr) == EC_SVC64 as u64 ==> (sync_exception_action(esr)
            == SyncExceptionAction::Syscall),
        esr_ec(esr) == EC_HVC64 as u64 ==> (sync_exception_action(esr)
            == (SyncExceptionAction::Hypercall { iss: esr_iss(esr) })),
        esr_ec(esr) == EC_BRK64 as u64 ==> (sync_exception_action(esr)
            == (SyncExceptionAction::Breakpoint { iss: esr_iss(esr) })),
        !(esr_ec(esr) == EC_SVC64 as u64 || esr_ec(esr) == EC_HVC64 as u64 || esr_ec(esr)
            == EC_BRK64 as u64 || esr_ec(esr) == EC_IABT_LOWER as u64 || esr_ec(esr)
            == EC_IABT_CURRENT as u64 || esr_ec(esr) == EC_DABT_LOWER as u64 || esr_ec(esr)
            == EC_DABT_CURRENT as u64) ==> (sync_exception_action(esr)
            == (SyncExceptionAction::Unhandled { ec: esr_ec(esr), iss: esr_iss(esr) })),
{
}

} // verus!
