//! Mutual exclusion against interrupt handlers by masking an interrupt
//! source for the length of a critical section.

use vstd::prelude::*;

verus! {

/// A register that masks a maskable interrupt source.
pub trait MaskRegister {
    /// Whether the source is masked.
    spec fn masked(&self) -> bool;

    /// Reads whether the source is masked.
    fn get_mask(&self) -> (r: bool)
        ensures
            r == self.masked();

    /// Masks the source or lets it through.
    fn set_mask(&mut self, enabled: bool)
        ensures
            final(self).masked() == enabled;
}

/// A mask held in memory, for use where no interrupt controller is present.
#[derive(Debug, Clone, Copy, PartialEq, Eq, Structural)]
pub struct MaskBit {
    pub enabled: bool,
}

impl MaskRegister for MaskBit {
    open spec fn masked(&self) -> bool {
        self.enabled
    }

    fn get_mask(&self) -> (r: bool) {
        self.enabled
    }

    fn set_mask(&mut self, enabled: bool) {
        self.enabled = enabled;
    }
}

/// Data that may only be touched while an interrupt source is masked.
pub struct MaskMutex<R: MaskRegister, T> {
    data: T,
    reg: R,
}

/// The record of a held lock: whether the source was masked before.
pub struct MaskMutexGuard {
    prev: bool,
}

impl MaskMutexGuard {
    /// Whether the source was masked before the lock was taken.
    pub closed spec fn prev_spec(self) -> bool {
        self.prev
    }

    /// Whether the source was masked before the lock was taken.
    pub fn prev(&self) -> (r: bool)
        ensures
            r == self.prev_spec(),
    {
        self.prev
    }
}

impl<R: MaskRegister, T> MaskMutex<R, T> {
    /// The guarded data.
    pub closed spec fn data_spec(self) -> T {
        self.data
    }

    /// The mask register.
    pub closed spec fn reg_spec(self) -> R {
        self.reg
    }

    /// Guards `t` with mask register `p`.
    pub fn new(p: R, t: T) -> (r: MaskMutex<R, T>)
        ensures
            r.reg_spec() == p,
            r.data_spec() == t,
    {
        MaskMutex { data: t, reg: p }
    }

    /// Masks the source and records whether it was masked before.
    pub fn lock(&mut self) -> (r: MaskMutexGuard)
        ensures
            r.prev_spec() == old(self).reg_spec().masked(),
            final(self).reg_spec().masked(),
            final(self).data_spec() == old(self).data_spec(),
    {
        let prev = self.reg.get_mask();
        self.reg.set_mask(true);
        MaskMutexGuard { prev }
    }

    /// Ends the critical section that `guard` began: the mask goes back to
    /// what it was before.
    pub fn unlock(&mut self, guard: MaskMutexGuard)
        ensures
            final(self).reg_spec().masked() == guard.prev_spec(),
            final(self).data_spec() == old(self).data_spec(),
    {
        self.reg.set_mask(guard.prev);
    }

    /// The guarded data, to change inside a critical section.
    pub fn data_mut(&mut self, _guard: &MaskMutexGuard) -> (r: &mut T)
        ensures
            *r == old(self).data_spec(),
            final(self).data_spec() == *final(r),
            final(self).reg_spec() == old(self).reg_spec(),
    {
        &mut self.data
    }

    /// Gives back the guarded data.
    pub fn into_inner(self) -> (r: T)
        ensures
            r == self.data_spec(),
    {
        self.data
    }
}

} // verus!
