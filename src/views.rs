//! Typed views of the GPIO register words. Each view wraps the raw word and
//! reads or writes the field that belongs to one pin.

use crate::bits::{bit_of, get_bit, ones, set_bit, set_range, with_bit, with_range};
use crate::config::{AlternateFunction, Mode, OutputSpeed, OutputType, Pin, Resistor};
use vstd::prelude::*;

verus! {

/// `word` with the `width`-bit field of the `index`-th slot replaced by
/// `value`: slot `index` covers the bits `[width * index, width * index + width)`.
pub open spec fn with_slot(word: u32, index: u32, width: u32, value: u32) -> u32 {
    with_range(word, (width * index) as u32, (width * index + width) as u32, value)
}

/// The largest values of 1, 2 and 4-bit fields.
proof fn lemma_small_ones()
    ensures
        ones(1) == 1,
        ones(2) == 3,
        ones(4) == 15,
{
    assert(!0u32 >> 31u32 == 1u32) by (bit_vector);
    assert(!0u32 >> 30u32 == 3u32) by (bit_vector);
    assert(!0u32 >> 28u32 == 15u32) by (bit_vector);
}

/// Port mode register: two bits per pin.
#[derive(Debug, Clone, Copy, PartialEq, Eq, Structural)]
pub struct ModeRegister(pub u32);

impl ModeRegister {
    /// The register with `pin` given `mode`.
    pub open spec fn with_mode(self, pin: Pin, mode: Mode) -> ModeRegister {
        ModeRegister(with_slot(self.0, pin.number(), 2, mode.code()))
    }

    /// Sets the mode of `pin`.
    pub fn set(&mut self, pin: Pin, mode: Mode)
        ensures
            *final(self) == old(self).with_mode(pin, mode),
    {
        proof {
            lemma_small_ones();
        }
        let offset = pin.number() * 2;
        self.0 = set_range(self.0, offset, offset + 2, mode.code());
    }
}

/// Output type register: one bit per pin.
#[derive(Debug, Clone, Copy, PartialEq, Eq, Structural)]
pub struct OutputTypeRegister(pub u32);

impl OutputTypeRegister {
    /// The register with `pin` given output type `typ`.
    pub open spec fn with_type(self, pin: Pin, typ: OutputType) -> OutputTypeRegister {
        OutputTypeRegister(with_slot(self.0, pin.number(), 1, typ.code()))
    }

    /// Sets the output type of `pin`.
    pub fn set(&mut self, pin: Pin, typ: OutputType)
        ensures
            *final(self) == old(self).with_type(pin, typ),
    {
        proof {
            lemma_small_ones();
        }
        let offset = pin.number();
        self.0 = set_range(self.0, offset, offset + 1, typ.code());
    }
}

/// Output speed register: two bits per pin.
#[derive(Debug, Clone, Copy, PartialEq, Eq, Structural)]
pub struct OutputSpeedRegister(pub u32);

impl OutputSpeedRegister {
    /// The register with `pin` given output speed `speed`.
    pub open spec fn with_speed(self, pin: Pin, speed: OutputSpeed) -> OutputSpeedRegister {
        OutputSpeedRegister(with_slot(self.0, pin.number(), 2, speed.code()))
    }

    /// Sets the output speed of `pin`.
    pub fn set(&mut self, pin: Pin, speed: OutputSpeed)
        ensures
            *final(self) == old(self).with_speed(pin, speed),
    {
        proof {
            lemma_small_ones();
        }
        let offset = pin.number() * 2;
        self.0 = set_range(self.0, offset, offset + 2, speed.code());
    }
}

/// Pull-up/pull-down register: two bits per pin.
#[derive(Debug, Clone, Copy, PartialEq, Eq, Structural)]
pub struct ResistorRegister(pub u32);

impl ResistorRegister {
    /// The register with `pin` given pull resistor `resistor`.
    pub open spec fn with_resistor(self, pin: Pin, resistor: Resistor) -> ResistorRegister {
        ResistorRegister(with_slot(self.0, pin.number(), 2, resistor.code()))
    }

    /// Sets the pull resistor of `pin`.
    pub fn set(&mut self, pin: Pin, resistor: Resistor)
        ensures
            *final(self) == old(self).with_resistor(pin, resistor),
    {
        proof {
            lemma_small_ones();
        }
        let offset = pin.number() * 2;
        self.0 = set_range(self.0, offset, offset + 2, resistor.code());
    }
}

/// Input data register: the level seen on each pin, one bit per pin.
#[derive(Debug, Clone, Copy, PartialEq, Eq, Structural)]
pub struct InputDataRegister(pub u32);

impl InputDataRegister {
    /// Whether `pin` reads high.
    pub fn get(&self, pin: Pin) -> (r: bool)
        ensures
            r == bit_of(self.0, pin.number()),
    {
        get_bit(self.0, pin.number())
    }
}

/// Output data register: the level driven on each pin, one bit per pin.
#[derive(Debug, Clone, Copy, PartialEq, Eq, Structural)]
pub struct OutputDataRegister(pub u32);

impl OutputDataRegister {
    /// Whether `pin` is driven high.
    pub fn get(&self, pin: Pin) -> (r: bool)
        ensures
            r == bit_of(self.0, pin.number()),
    {
        get_bit(self.0, pin.number())
    }

    /// Sets the level driven on `pin`.
    pub fn set(&mut self, pin: Pin, value: bool)
        ensures
            final(self).0 == with_bit(old(self).0, pin.number(), value),
    {
        self.0 = set_bit(self.0, pin.number(), value);
    }
}

/// Bit set/reset register: a write-only word in which bit `n` drives pin `n`
/// high and bit `n + 16` drives it low. Where both are written, setting wins.
#[derive(Debug, Clone, Copy, PartialEq, Eq, Structural)]
pub struct BitSetResetRegister(pub u32);

impl BitSetResetRegister {
    /// A word that changes no pin.
    pub fn new() -> (r: BitSetResetRegister)
        ensures
            r.0 == 0,
    {
        BitSetResetRegister(0)
    }

    /// Adds a request to drive `pin` high.
    pub fn set(&mut self, pin: Pin)
        ensures
            final(self).0 == old(self).0 | (1u32 << pin.number()),
    {
        self.0 = self.0 | (1u32 << pin.number());
    }

    /// Adds a request to drive `pin` low.
    pub fn reset(&mut self, pin: Pin)
        ensures
            final(self).0 == old(self).0 | (1u32 << (pin.number() + 16) as u32),
    {
        self.0 = self.0 | (1u32 << (pin.number() + 16));
    }
}

impl Default for BitSetResetRegister {
    fn default() -> (r: BitSetResetRegister)
        ensures
            r.0 == 0,
    {
        BitSetResetRegister(0)
    }
}

/// Alternate function registers: four bits per pin, pins 0 to 7 in the low
/// word and pins 8 to 15 in the high word.
#[derive(Debug, Clone, Copy, PartialEq, Eq, Structural)]
pub struct AlternateFunctionRegister {
    pub low: u32,
    pub high: u32,
}

impl AlternateFunctionRegister {
    /// The registers with `pin` given alternate function `function`.
    pub open spec fn with_function(
        self,
        pin: Pin,
        function: AlternateFunction,
    ) -> AlternateFunctionRegister {
        if pin.number() < 8 {
            AlternateFunctionRegister {
                low: with_slot(self.low, pin.number(), 4, function.code()),
                high: self.high,
            }
        } else {
            AlternateFunctionRegister {
                low: self.low,
                high: with_slot(self.high, (pin.number() - 8) as u32, 4, function.code()),
            }
        }
    }

    /// Sets the alternate function of `pin`.
    pub fn set(&mut self, pin: Pin, alternate_fn: AlternateFunction)
        ensures
            *final(self) == old(self).with_function(pin, alternate_fn),
    {
        proof {
            lemma_small_ones();
        }
        let n = pin.number();
        if n < 8 {
            let offset = n * 4;
            self.low = set_range(self.low, offset, offset + 4, alternate_fn.code());
        } else {
            let offset = (n - 8) * 4;
            self.high = set_range(self.high, offset, offset + 4, alternate_fn.code());
        }
    }
}

} // verus!
