//! The controller of one GPIO port: it owns the port's registers, records
//! which pins have been configured, and turns a free pin into an input, an
//! output or an alternate-function pin.
//!
//! Each configuration writes the pull resistor first, then the output type,
//! the output speed and the alternate function where they apply, and the mode
//! last.

use crate::bits::bit_of;
use crate::config::{AlternateFunction, Mode, OutputSpeed, OutputType, Pin, Port, Resistor};
use crate::overlay::{
    alternate_config, input_config, lemma_single_pin_folds, output_config, GpioRegisters,
    RegisterBlock,
};
use crate::views::BitSetResetRegister;
use vstd::prelude::*;

verus! {

/// Why a pin could not be configured.
#[derive(Debug, Clone, Copy, PartialEq, Eq, Structural)]
pub enum Error {
    /// The pin has been configured before, or is named twice in one request.
    PinAlreadyInUse(Pin),
}

/// Whether the `i`-th pin of `pins` cannot be taken: it is in use already,
/// or an earlier entry of `pins` names it too.
pub open spec fn conflict_at(in_use: Seq<bool>, pins: Seq<Pin>, i: int) -> bool {
    in_use[pins[i].number() as int] || exists|j: int| 0 <= j < i && pins[j] == pins[i]
}

/// Whether all of `pins` can be taken together.
pub open spec fn no_conflict(in_use: Seq<bool>, pins: Seq<Pin>) -> bool {
    forall|i: int| 0 <= i < pins.len() ==> !conflict_at(in_use, pins, i)
}

/// Whether `pin` is the first entry of `pins` that cannot be taken.
pub open spec fn first_conflict_is(in_use: Seq<bool>, pins: Seq<Pin>, pin: Pin) -> bool {
    exists|i: int|
        0 <= i < pins.len() && pins[i] == pin && conflict_at(in_use, pins, i) && forall|k: int|
            0 <= k < i ==> !conflict_at(in_use, pins, k)
}

/// The in-use flags after every pin of `pins` is taken.
pub open spec fn marked(in_use: Seq<bool>, pins: Seq<Pin>) -> Seq<bool> {
    Seq::new(
        in_use.len(),
        |n: int| in_use[n] || exists|j: int| 0 <= j < pins.len() && pins[j].number() == n,
    )
}

/// The ownership part of configuring `pin`: a free pin becomes used and the
/// call succeeds; a used pin is refused and the port is left as it was.
pub open spec fn claims(before: GpioPort, after: GpioPort, pin: Pin, refused: bool) -> bool {
    if before.in_use()[pin.number() as int] {
        refused && after == before
    } else {
        !refused && after.in_use() == before.in_use().update(pin.number() as int, true)
            && after.port_id() == before.port_id()
    }
}

/// Two pins with the same number are the same pin.
pub proof fn lemma_pin_number_injective(p: Pin, q: Pin)
    ensures
        p.number() == q.number() ==> p == q,
{
}

/// Configuring a pin twice, by any of the configuration operations: whatever
/// the first call returned, the second is refused and leaves the port as the
/// first call left it.
pub proof fn lemma_configure_twice(
    before: GpioPort,
    between: GpioPort,
    after: GpioPort,
    pin: Pin,
    first_refused: bool,
    second_refused: bool,
)
    requires
        claims(before, between, pin, first_refused),
        claims(between, after, pin, second_refused),
    ensures
        second_refused,
        after == between,
{
    before.lemma_sixteen_flags();
}

/// Two lists of free pins that share no pin can be configured one after the
/// other: once the first is taken, the second can still be taken.
pub proof fn lemma_disjoint_batches(in_use: Seq<bool>, first: Seq<Pin>, second: Seq<Pin>)
    requires
        in_use.len() == 16,
        no_conflict(in_use, first),
        no_conflict(in_use, second),
        forall|i: int, j: int|
            0 <= i < first.len() && 0 <= j < second.len() ==> first[i] != second[j],
    ensures
        no_conflict(marked(in_use, first), second),
{
    assert forall|i: int| 0 <= i < second.len() implies !conflict_at(
        marked(in_use, first),
        second,
        i,
    ) by {
        assert(!conflict_at(in_use, second, i));
        let n = second[i].number() as int;
        if exists|j: int| 0 <= j < first.len() && first[j].number() == n {
            let j = choose|j: int| 0 <= j < first.len() && first[j].number() == n;
            lemma_pin_number_injective(first[j], second[i]);
        }
    }
}

/// A list that names one pin twice is refused as a whole.
pub proof fn lemma_repeated_pin_refused(in_use: Seq<bool>, pins: Seq<Pin>, pin: Pin)
    requires
        pins.contains(pin),
    ensures
        !no_conflict(in_use, pins.push(pin)),
{
    let j = choose|j: int| 0 <= j < pins.len() && pins[j] == pin;
    let all = pins.push(pin);
    assert(all[j] == all[pins.len() as int]);
    assert(conflict_at(in_use, all, pins.len() as int));
}

/// Once a list of pins has been taken, a later list that names any of them
/// is refused as a whole.
pub proof fn lemma_taken_pin_refused(
    in_use: Seq<bool>,
    taken: Seq<Pin>,
    pins: Seq<Pin>,
    pin: Pin,
)
    requires
        in_use.len() == 16,
        taken.contains(pin),
        pins.contains(pin),
    ensures
        !no_conflict(marked(in_use, taken), pins),
{
    let j = choose|j: int| 0 <= j < taken.len() && taken[j] == pin;
    let i = choose|i: int| 0 <= i < pins.len() && pins[i] == pin;
    assert(taken[j].number() == pin.number());
    assert(marked(in_use, taken)[pin.number() as int]);
    assert(conflict_at(marked(in_use, taken), pins, i));
}

/// The controller of one GPIO port.
pub struct GpioPort {
    port: Port,
    pin_in_use: [bool; 16],
    registers: GpioRegisters,
}

impl GpioPort {
    /// Which port this is.
    pub closed spec fn port_id(self) -> Port {
        self.port
    }

    /// For each pin number, whether that pin has been configured.
    pub closed spec fn in_use(self) -> Seq<bool> {
        self.pin_in_use@
    }

    /// The values of the port's registers.
    pub closed spec fn regs(self) -> RegisterBlock {
        self.registers@
    }

    /// There is one in-use flag for each of the sixteen pins.
    pub proof fn lemma_sixteen_flags(self)
        ensures
            self.in_use().len() == 16,
    {
    }

    /// A controller for port `port` over `registers`, with every pin free.
    pub fn new(port: Port, registers: GpioRegisters) -> (r: GpioPort)
        ensures
            r.port_id() == port,
            r.in_use() == Seq::new(16, |n: int| false),
            r.regs() == registers@,
    {
        let r = GpioPort { port, pin_in_use: [false; 16], registers };
        assert(r.in_use() =~= Seq::new(16, |n: int| false));
        r
    }

    /// Which port this is.
    pub fn port(&self) -> (r: Port)
        ensures
            r == self.port_id(),
    {
        self.port
    }

    /// Whether `pin` has been configured.
    pub fn is_in_use(&self, pin: Pin) -> (r: bool)
        ensures
            r == self.in_use()[pin.number() as int],
    {
        self.pin_in_use[pin.number() as usize]
    }

    /// The port's registers.
    pub fn registers(&self) -> (r: &GpioRegisters)
        ensures
            r@ == self.regs(),
    {
        &self.registers
    }

    /// Takes `pin` if it is free.
    fn use_pin(&mut self, pin: Pin) -> (r: Result<(), Error>)
        ensures
            claims(*old(self), *final(self), pin, r is Err),
            r is Err ==> r == Err::<(), Error>(Error::PinAlreadyInUse(pin)),
            final(self).regs() == old(self).regs(),
    {
        let n = pin.number() as usize;
        if self.pin_in_use[n] {
            Err(Error::PinAlreadyInUse(pin))
        } else {
            self.pin_in_use[n] = true;
            Ok(())
        }
    }

    /// Takes all of `pins`, or none of them: the flags are checked on a copy,
    /// which replaces them only when every pin could be taken.
    fn use_pins(&mut self, pins: &[Pin]) -> (r: Result<(), Error>)
        ensures
            r is Ok <==> no_conflict(old(self).in_use(), pins@),
            r is Ok ==> final(self).in_use() == marked(old(self).in_use(), pins@)
                && final(self).regs() == old(self).regs() && final(self).port_id() == old(
                self,
            ).port_id(),
            r matches Err(Error::PinAlreadyInUse(p)) ==> first_conflict_is(
                old(self).in_use(),
                pins@,
                p,
            ) && *final(self) == *old(self),
    {
        let mut pin_in_use = self.pin_in_use;
        let mut i: usize = 0;
        while i < pins.len()
            invariant
                0 <= i <= pins.len(),
                *self == *old(self),
                pin_in_use@ == marked(self.pin_in_use@, pins@.take(i as int)),
                forall|k: int| 0 <= k < i ==> !conflict_at(self.pin_in_use@, pins@, k),
            decreases pins.len() - i,
        {
            let pin = pins[i];
            let n = pin.number() as usize;
            if pin_in_use[n] {
                proof {
                    if !self.pin_in_use@[n as int] {
                        let j = choose|j: int|
                            0 <= j < i && (#[trigger] pins@.take(i as int)[j]).number() == n;
                        lemma_pin_number_injective(pins@[j], pin);
                        assert(pins@[j] == pins@[i as int]);
                    }
                    assert(conflict_at(self.pin_in_use@, pins@, i as int));
                }
                return Err(Error::PinAlreadyInUse(pin));
            }
            proof {
                assert forall|j: int| 0 <= j < i implies pins@[j] != pins@[i as int] by {
                    if pins@[j] == pins@[i as int] {
                        assert(pins@.take(i as int)[j].number() == n);
                    }
                }
            }
            pin_in_use[n] = true;
            proof {
                let next = pins@.take(i as int + 1);
                assert forall|m: int| 0 <= m < 16 implies #[trigger] pin_in_use@[m] == marked(
                    self.pin_in_use@,
                    next,
                )[m] by {
                    if m == n as int {
                        assert(next[i as int].number() == n);
                    } else {
                        if exists|j: int| 0 <= j < next.len() && next[j].number() == m {
                            let j = choose|j: int| 0 <= j < next.len() && next[j].number() == m;
                            assert(pins@.take(i as int)[j].number() == m);
                        }
                        if exists|j: int|
                            0 <= j < i && (#[trigger] pins@.take(i as int)[j]).number() == m {
                            let j = choose|j: int|
                                0 <= j < i && (#[trigger] pins@.take(i as int)[j]).number() == m;
                            assert(next[j].number() == m);
                        }
                    }
                }
                assert(pin_in_use@ =~= marked(self.pin_in_use@, next));
            }
            i += 1;
        }
        assert(pins@.take(pins.len() as int) == pins@);
        self.pin_in_use = pin_in_use;
        Ok(())
    }

    /// Makes `pin` an input with pull resistor `resistor`, unless it is in
    /// use already.
    pub fn to_input(&mut self, pin: Pin, resistor: Resistor) -> (r: Result<InputPin, Error>)
        ensures
            claims(*old(self), *final(self), pin, r is Err),
            r is Err ==> r == Err::<InputPin, Error>(Error::PinAlreadyInUse(pin)),
            r matches Ok(handle) ==> handle.pin_id() == pin && handle.port_id() == old(
                self,
            ).port_id() && final(self).regs() == input_config(old(self).regs(), pin, resistor),
    {
        match self.use_pin(pin) {
            Err(e) => Err(e),
            Ok(()) => {
                let pins = [pin];
                proof {
                    assert(pins@ == seq![pin]);
                    lemma_single_pin_folds(self.regs(), pins@, pin);
                }
                self.registers.update_resistor(&pins, resistor);
                self.registers.update_mode(&pins, Mode::Input);
                Ok(InputPin { pin, port: self.port })
            },
        }
    }

    /// Makes `pin` an output, unless it is in use already.
    pub fn to_output(
        &mut self,
        pin: Pin,
        out_type: OutputType,
        out_speed: OutputSpeed,
        resistor: Resistor,
    ) -> (r: Result<OutputPin, Error>)
        ensures
            claims(*old(self), *final(self), pin, r is Err),
            r is Err ==> r == Err::<OutputPin, Error>(Error::PinAlreadyInUse(pin)),
            r matches Ok(handle) ==> handle.pin_id() == pin && handle.port_id() == old(
                self,
            ).port_id() && final(self).regs() == output_config(
                old(self).regs(),
                pin,
                out_type,
                out_speed,
                resistor,
            ),
    {
        match self.use_pin(pin) {
            Err(e) => Err(e),
            Ok(()) => {
                let pins = [pin];
                proof {
                    assert(pins@ == seq![pin]);
                    lemma_single_pin_folds(self.regs(), pins@, pin);
                }
                self.registers.update_resistor(&pins, resistor);
                self.registers.update_out_type(&pins, out_type);
                self.registers.update_out_speed(&pins, out_speed);
                self.registers.update_mode(&pins, Mode::Output);
                Ok(OutputPin { pin, port: self.port })
            },
        }
    }

    /// Routes `pin` to alternate function `alternate_fn`, unless it is in use
    /// already. No handle is returned: the peripheral that uses the function
    /// drives the pin.
    pub fn to_alternate_function(
        &mut self,
        pin: Pin,
        alternate_fn: AlternateFunction,
        typ: OutputType,
        speed: OutputSpeed,
        resistor: Resistor,
    ) -> (r: Result<(), Error>)
        ensures
            claims(*old(self), *final(self), pin, r is Err),
            r is Err ==> r == Err::<(), Error>(Error::PinAlreadyInUse(pin)),
            r is Ok ==> final(self).regs() == alternate_config(
                old(self).regs(),
                seq![pin],
                alternate_fn,
                typ,
                speed,
                resistor,
            ),
    {
        let pins = [pin];
        proof {
            assert(pins@ == seq![pin]);
            assert(conflict_at(self.in_use(), pins@, 0) == self.in_use()[pin.number() as int]);
            assert(marked(self.in_use(), pins@) =~= self.in_use().update(
                pin.number() as int,
                true,
            ));
        }
        let r = self.to_alternate_function_all(&pins, alternate_fn, typ, speed, resistor);
        proof {
            if r is Err {
                let p = choose|p: Pin| first_conflict_is(old(self).in_use(), pins@, p);
                assert(first_conflict_is(old(self).in_use(), pins@, p));
            }
        }
        r
    }

    /// Routes all of `pins` to alternate function `alternate_fn`, or none of
    /// them: if any pin is in use, or named twice, no flag and no register is
    /// changed and the first such pin is reported.
    pub fn to_alternate_function_all(
        &mut self,
        pins: &[Pin],
        alternate_fn: AlternateFunction,
        typ: OutputType,
        speed: OutputSpeed,
        resistor: Resistor,
    ) -> (r: Result<(), Error>)
        ensures
            r is Ok <==> no_conflict(old(self).in_use(), pins@),
            r is Ok ==> final(self).in_use() == marked(old(self).in_use(), pins@)
                && final(self).port_id() == old(self).port_id() && final(self).regs()
                == alternate_config(old(self).regs(), pins@, alternate_fn, typ, speed, resistor),
            r matches Err(Error::PinAlreadyInUse(p)) ==> first_conflict_is(
                old(self).in_use(),
                pins@,
                p,
            ) && *final(self) == *old(self),
    {
        match self.use_pins(pins) {
            Err(e) => Err(e),
            Ok(()) => {
                self.registers.update_resistor(pins, resistor);
                self.registers.update_out_type(pins, typ);
                self.registers.update_out_speed(pins, speed);
                self.registers.update_alternate_fn(pins, alternate_fn);
                self.registers.update_mode(pins, Mode::AlternateFunction);
                Ok(())
            },
        }
    }

    /// Stores `value` in the bit set/reset register.
    fn write_bit_set_reset(&mut self, value: BitSetResetRegister)
        ensures
            final(self).regs() == (RegisterBlock { bit_set_reset: value, ..old(self).regs() }),
            final(self).in_use() == old(self).in_use(),
            final(self).port_id() == old(self).port_id(),
    {
        self.registers.write_bit_set_reset(value);
    }
}

/// A pin configured as an input.
pub struct InputPin {
    pin: Pin,
    port: Port,
}

impl InputPin {
    /// The pin.
    pub closed spec fn pin_id(self) -> Pin {
        self.pin
    }

    /// The port of the pin.
    pub closed spec fn port_id(self) -> Port {
        self.port
    }

    /// The pin.
    pub fn pin(&self) -> (r: Pin)
        ensures
            r == self.pin_id(),
    {
        self.pin
    }

    /// The port of the pin.
    pub fn port(&self) -> (r: Port)
        ensures
            r == self.port_id(),
    {
        self.port
    }

    /// Whether the pin reads high, from the input data register of its port.
    pub fn get(&self, port: &GpioPort) -> (r: bool)
        requires
            port.port_id() == self.port_id(),
        ensures
            r == bit_of(port.regs().input_data.0, self.pin_id().number()),
    {
        port.registers().input_data().get(self.pin)
    }
}

/// A pin configured as an output.
pub struct OutputPin {
    pin: Pin,
    port: Port,
}

impl OutputPin {
    /// The pin.
    pub closed spec fn pin_id(self) -> Pin {
        self.pin
    }

    /// The port of the pin.
    pub closed spec fn port_id(self) -> Port {
        self.port
    }

    /// The pin.
    pub fn pin(&self) -> (r: Pin)
        ensures
            r == self.pin_id(),
    {
        self.pin
    }

    /// The port of the pin.
    pub fn port(&self) -> (r: Port)
        ensures
            r == self.port_id(),
    {
        self.port
    }

    /// Whether the pin is driven high, from the output data register of its
    /// port.
    pub fn get(&self, port: &GpioPort) -> (r: bool)
        requires
            port.port_id() == self.port_id(),
        ensures
            r == bit_of(port.regs().output_data.0, self.pin_id().number()),
    {
        port.registers().output_data().get(self.pin)
    }

    /// Drives the pin high or low with one write of the bit set/reset
    /// register: bit `n` for high, bit `n + 16` for low.
    pub fn set(&mut self, port: &mut GpioPort, value: bool)
        requires
            old(port).port_id() == old(self).port_id(),
        ensures
            *final(self) == *old(self),
            final(port).regs() == (RegisterBlock {
                bit_set_reset: BitSetResetRegister(
                    if value {
                        1u32 << old(self).pin_id().number()
                    } else {
                        1u32 << (old(self).pin_id().number() + 16) as u32
                    },
                ),
                ..old(port).regs()
            }),
            final(port).in_use() == old(port).in_use(),
            final(port).port_id() == old(port).port_id(),
    {
        let mut bsrr = BitSetResetRegister::new();
        if value {
            bsrr.set(self.pin);
        } else {
            bsrr.reset(self.pin);
        }
        proof {
            let n = self.pin.number();
            assert(0u32 | (1u32 << n) == 1u32 << n) by (bit_vector);
            assert(0u32 | (1u32 << (n + 16) as u32) == 1u32 << (n + 16) as u32) by (bit_vector);
        }
        port.write_bit_set_reset(bsrr);
    }
}

} // verus!
