use vstd::prelude::*;

verus! {

/// The general-purpose registers `x0`..`x30` and the stack pointer of one
/// exception level, as they are saved on a world switch.
pub struct GeneralPurposeRegisters {
    pub x: [usize; 31],
    pub sp: usize,
}

impl GeneralPurposeRegisters {
    /// Every register holds zero.
    pub open spec fn is_zero(&self) -> bool {
        &&& forall|i: int| 0 <= i < 31 ==> #[trigger] self.x@[i] == 0
        &&& self.sp == 0
    }

    /// The argument registers `x0`..`x7`, through which the SMC/HVC calling
    /// convention passes a function identifier and its parameters.
    pub fn a_regs(&self) -> (r: &[usize])
        ensures
            r@ == self.x@.subrange(0, 8),
    {
        &self.x[0..8]
    }

    /// The argument registers `x0`..`x7`, writable; what is written through the
    /// result lands in `x0`..`x7`, and `x8`..`x30` and `sp` keep their values.
    pub fn a_regs_mut(&mut self) -> (r: &mut [usize])
        ensures
            r@ == old(self).x@.subrange(0, 8),
            final(self).x@ == final(r)@ + old(self).x@.subrange(8, 31),
            final(self).sp == old(self).sp,
    {
        let all: &mut [usize] = &mut self.x;
        let (head, _tail) = all.split_at_mut(8);
        head
    }
}

impl Default for GeneralPurposeRegisters {
    /// All registers zero.
    fn default() -> (r: Self)
        ensures
            r.is_zero(),
    {
        GeneralPurposeRegisters { x: [0usize; 31], sp: 0 }
    }
}

} // verus!
