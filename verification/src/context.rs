//! Saved processor state of the host kernel: the trap frame, the FP/SIMD
//! registers, the context of a task, and the context with which a task
//! enters user space.

use vstd::prelude::*;

verus! {

/// Saved registers when a trap (exception) occurs.
#[derive(Debug, Clone, Copy)]
pub struct TrapFrame {
    /// General-purpose registers (R0..R30).
    pub r: [u64; 31],
    /// User Stack Pointer (SP_EL0).
    pub usp: u64,
    /// Exception Link Register (ELR_EL1).
    pub elr: u64,
    /// Saved Process Status Register (SPSR_EL1).
    pub spsr: u64,
}

impl TrapFrame {
    /// The `i`-th syscall argument, register `x<i>`, as a machine word.
    pub open spec fn arg(self, i: int) -> usize {
        self.r@[i] as usize
    }

    /// Every register holds zero.
    pub open spec fn is_zero(self) -> bool {
        &&& forall|i: int| 0 <= i < 31 ==> #[trigger] self.r@[i] == 0
        &&& self.usp == 0
        &&& self.elr == 0
        &&& self.spsr == 0
    }

    /// Gets the 0th syscall argument (x0).
    pub fn arg0(&self) -> (r: usize)
        ensures
            r == self.arg(0),
    {
        self.r[0] as usize
    }

    /// Gets the 1st syscall argument (x1).
    pub fn arg1(&self) -> (r: usize)
        ensures
            r == self.arg(1),
    {
        self.r[1] as usize
    }

    /// Gets the 2nd syscall argument (x2).
    pub fn arg2(&self) -> (r: usize)
        ensures
            r == self.arg(2),
    {
        self.r[2] as usize
    }

    /// Gets the 3rd syscall argument (x3).
    pub fn arg3(&self) -> (r: usize)
        ensures
            r == self.arg(3),
    {
        self.r[3] as usize
    }

    /// Gets the 4th syscall argument (x4).
    pub fn arg4(&self) -> (r: usize)
        ensures
            r == self.arg(4),
    {
        self.r[4] as usize
    }

    /// Gets the 5th syscall argument (x5).
    pub fn arg5(&self) -> (r: usize)
        ensures
            r == self.arg(5),
    {
        self.r[5] as usize
    }
}

impl Default for TrapFrame {
    /// All registers zero.
    fn default() -> (r: Self)
        ensures
            r.is_zero(),
    {
        TrapFrame { r: [0u64; 31], usp: 0, elr: 0, spsr: 0 }
    }
}

/// FP & SIMD registers.
#[derive(Debug)]
pub struct FpState {
    /// 128-bit SIMD & FP registers (V0..V31)
    pub regs: [u128; 32],
    /// Floating-point Control Register (FPCR)
    pub fpcr: u32,
    /// Floating-point Status Register (FPSR)
    pub fpsr: u32,
}

impl Default for FpState {
    /// All registers zero.
    fn default() -> (r: Self)
        ensures
            forall|i: int| 0 <= i < 32 ==> #[trigger] r.regs@[i] == 0,
            r.fpcr == 0,
            r.fpsr == 0,
    {
        FpState { regs: [0u128; 32], fpcr: 0, fpsr: 0 }
    }
}

/// Where each saved register sits in `TaskContext::saved`: the stack
/// pointer, the thread pointer (`TPIDR_EL0`), the callee-saved registers
/// `x19`..`x29` (at `TASK_R19 + (n - 19)`), the link register (`x30`), and the
/// page table root (`TTBR0_EL1`).
pub const TASK_SP: usize = 0;
pub const TASK_TPIDR_EL0: usize = 1;
pub const TASK_R19: usize = 2;
pub const TASK_LR: usize = 13;
pub const TASK_TTBR0: usize = 14;

/// Saved hardware states of a task: callee-saved registers, stack pointer,
/// thread pointer, and page table root, laid out as one array so that the
/// context switch code finds them at fixed offsets (eight bytes each, in the
/// order of the `TASK_*` indices).
///
/// On context switch, current task saves its context from CPU to memory,
/// and the next task restores its context from memory to CPU.
#[derive(Debug)]
pub struct TaskContext {
    pub saved: [u64; 15],
}

impl TaskContext {
    /// The saved stack pointer.
    pub open spec fn sp(&self) -> u64 {
        self.saved@[TASK_SP as int]
    }

    /// The saved link register, where the task resumes.
    pub open spec fn lr(&self) -> u64 {
        self.saved@[TASK_LR as int]
    }

    /// The saved thread pointer.
    pub open spec fn tpidr_el0(&self) -> u64 {
        self.saved@[TASK_TPIDR_EL0 as int]
    }

    /// The page table root of the task.
    pub open spec fn ttbr0(&self) -> u64 {
        self.saved@[TASK_TTBR0 as int]
    }

    /// Creates a new default context for a new task: every register zero.
    pub fn new() -> (r: Self)
        ensures
            forall|i: int| 0 <= i < 15 ==> #[trigger] r.saved@[i] == 0,
    {
        TaskContext { saved: [0u64; 15] }
    }

    /// Initializes the context for a new task, with the given entry point,
    /// kernel stack, thread-local storage area, and the kernel's page table
    /// root, which the task uses until `set_page_table_root` changes it. The
    /// callee-saved registers keep their values.
    pub fn init(&mut self, entry: usize, kstack_top: usize, tls_area: usize, kernel_root: usize)
        ensures
            final(self).saved@ == old(self).saved@.update(TASK_SP as int, kstack_top as u64).update(
                TASK_LR as int,
                entry as u64,
            ).update(TASK_TPIDR_EL0 as int, tls_area as u64).update(
                TASK_TTBR0 as int,
                kernel_root as u64,
            ),
    {
        self.saved[TASK_SP] = kstack_top as u64;
        self.saved[TASK_LR] = entry as u64;
        self.saved[TASK_TPIDR_EL0] = tls_area as u64;
        self.saved[TASK_TTBR0] = kernel_root as u64;
    }

    /// Changes the page table root (TTBR0_EL1 register for aarch64); nothing
    /// else changes.
    pub fn set_page_table_root(&mut self, ttbr0: usize)
        ensures
            final(self).saved@ == old(self).saved@.update(TASK_TTBR0 as int, ttbr0 as u64),
    {
        self.saved[TASK_TTBR0] = ttbr0 as u64;
    }

    /// The page table root of the task.
    pub fn page_table_root(&self) -> (r: usize)
        ensures
            r == self.ttbr0() as usize,
    {
        self.saved[TASK_TTBR0] as usize
    }

    /// Tells whether the two contexts hold distinct page table roots
    /// (`TTBR0_EL1` values), in which case a switch loads the root.
    pub fn page_table_switch_needed(&self, next: &Self) -> (r: bool)
        ensures
            r == (self.ttbr0() != next.ttbr0()),
    {
        self.saved[TASK_TTBR0] != next.saved[TASK_TTBR0]
    }
}

/// Context to enter user space.
pub struct UspaceContext(TrapFrame);

impl View for UspaceContext {
    type V = TrapFrame;

    closed spec fn view(&self) -> TrapFrame {
        self.0
    }
}

/// `SPSR_EL1.M = EL0t` with FIQs, IRQs, SErrors and debug exceptions unmasked.
pub const SPSR_EL1_EL0: u64 = 0;

impl UspaceContext {
    /// Creates an empty context with all registers set to zero.
    pub fn empty() -> (r: Self)
        ensures
            r@.is_zero(),
    {
        UspaceContext(TrapFrame::default())
    }

    /// Creates a new context with the given entry point and user stack
    /// pointer, to run at EL0 with nothing masked; all general-purpose
    /// registers are zero.
    pub fn new(entry: usize, ustack_top: usize) -> (r: Self)
        ensures
            forall|i: int| 0 <= i < 31 ==> #[trigger] r@.r@[i] == 0,
            r@.usp == ustack_top as u64,
            r@.elr == entry as u64,
            r@.spsr == SPSR_EL1_EL0,
    {
        UspaceContext(TrapFrame { r: [0u64; 31], usp: ustack_top as u64, elr: entry as u64, spsr: 0 })
    }

    /// Creates a new context from the given [`TrapFrame`].
    pub fn from(trap_frame: &TrapFrame) -> (r: Self)
        ensures
            r@ == *trap_frame,
    {
        UspaceContext(*trap_frame)
    }

    /// The registers this context enters user space with.
    pub fn trap_frame(&self) -> (r: &TrapFrame)
        ensures
            *r == self@,
    {
        &self.0
    }

    /// Gets the instruction pointer.
    pub fn get_ip(&self) -> (r: usize)
        ensures
            r == self@.elr as usize,
    {
        self.0.elr as usize
    }

    /// Gets the stack pointer.
    pub fn get_sp(&self) -> (r: usize)
        ensures
            r == self@.usp as usize,
    {
        self.0.usp as usize
    }

    /// Sets the instruction pointer.
    pub fn set_ip(&mut self, pc: usize)
        ensures
            final(self)@ == (TrapFrame { elr: pc as u64, ..old(self)@ }),
    {
        self.0.elr = pc as u64;
    }

    /// Sets the stack pointer.
    pub fn set_sp(&mut self, sp: usize)
        ensures
            final(self)@ == (TrapFrame { usp: sp as u64, ..old(self)@ }),
    {
        self.0.usp = sp as u64;
    }

    /// Sets the return value register.
    pub fn set_retval(&mut self, a0: usize)
        ensures
            final(self)@ == (TrapFrame { r: final(self)@.r, ..old(self)@ }),
            final(self)@.r@ == old(self)@.r@.update(0, a0 as u64),
    {
        self.0.r[0] = a0 as u64;
    }
}

/// The instruction pointer set by `set_ip` is the one `get_ip` reads back.
pub proof fn lemma_ip_roundtrip(frame: TrapFrame, pc: usize)
    ensures
        (TrapFrame { elr: pc as u64, ..frame }).elr as usize == pc,
{
}

/// The stack pointer set by `set_sp` is the one `get_sp` reads back.
pub proof fn lemma_sp_roundtrip(frame: TrapFrame, sp: usize)
    ensures
        (TrapFrame { usp: sp as u64, ..frame }).usp as usize == sp,
{
}

/// The return value set by `set_retval` is what the frame then holds as its
/// 0th syscall argument, and the other argument registers keep their values.
pub proof fn lemma_retval_is_arg0(before: TrapFrame, after: TrapFrame, a0: usize)
    requires
        after.r@ == before.r@.update(0, a0 as u64),
    ensures
        after.arg(0) == a0,
        forall|i: int| 1 <= i < 31 ==> #[trigger] after.arg(i) == before.arg(i),
{
    assert(after.r@[0] == a0 as u64);
}

} // verus!
