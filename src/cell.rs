//! A single memory-mapped register word, accessed through volatile loads and
//! stores so that no access is elided, merged or reordered.

use volatile::Volatile;
use vstd::prelude::*;

verus! {

#[verifier::external_type_specification]
#[verifier::external_body]
#[verifier::reject_recursive_types(T)]
pub struct ExVolatile<T: Copy>(Volatile<T>);

/// The word that a volatile cell holds.
pub uninterp spec fn cell_value(cell: Volatile<u32>) -> u32;

/// Relies on `volatile::Volatile::new`: the new cell holds `value`.
#[verifier::external_body]
fn cell_new(value: u32) -> (r: Volatile<u32>)
    ensures
        cell_value(r) == value,
{
    Volatile::new(value)
}

/// Relies on `volatile::Volatile::read`: a volatile load of the held word.
#[verifier::external_body]
fn cell_read(cell: &Volatile<u32>) -> (r: u32)
    ensures
        r == cell_value(*cell),
{
    cell.read()
}

/// Relies on `volatile::Volatile::write`: a volatile store, after which the
/// cell holds `value`.
#[verifier::external_body]
fn cell_write(cell: &mut Volatile<u32>, value: u32)
    ensures
        cell_value(*final(cell)) == value,
{
    cell.write(value)
}

/// One register word.
pub struct SingleItemReg {
    reg: Volatile<u32>,
}

impl View for SingleItemReg {
    type V = u32;

    closed spec fn view(&self) -> u32 {
        cell_value(self.reg)
    }
}

impl SingleItemReg {
    /// A register holding `value`.
    pub fn new(value: u32) -> (r: SingleItemReg)
        ensures
            r@ == value,
    {
        SingleItemReg { reg: cell_new(value) }
    }

    /// Loads the register.
    pub fn read(&self) -> (r: u32)
        ensures
            r == self@,
    {
        cell_read(&self.reg)
    }

    /// Stores `src` in the register.
    pub fn write(&mut self, src: u32)
        ensures
            final(self)@ == src,
    {
        cell_write(&mut self.reg, src)
    }

    /// Loads the register, then stores what `f` makes of the loaded word: two
    /// accesses, which an interrupt may come between.
    pub fn update<F: FnOnce(u32) -> u32>(&mut self, f: F)
        requires
            f.requires((old(self)@,)),
        ensures
            f.ensures((old(self)@,), final(self)@),
    {
        let value = self.read();
        let new = f(value);
        self.write(new);
    }
}

} // verus!
