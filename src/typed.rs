//! Ports named in types. A port's register block is split once into a
//! controller and sixteen pin tokens; a token carries its port in its type,
//! so the controller of another port does not accept it, and it is consumed
//! when the pin is configured.

use core::marker::PhantomData;
use crate::config::{AlternateFunction, OutputSpeed, OutputType, Pin, Port, Resistor};
use crate::overlay::{alternate_config, input_config, output_config, GpioRegisters};
use crate::port::{claims, Error, GpioPort, InputPin, OutputPin};
use vstd::prelude::*;

verus! {

/// A type that names one GPIO port.
pub trait GpioPortNumber {
    /// The port named.
    spec fn spec_port() -> Port;

    /// The port named.
    fn port() -> (r: Port)
        ensures
            r == Self::spec_port();
}

/// Type-level name of port A; its one value may stand for the type.
#[derive(Debug, Clone, Copy, PartialEq, Eq, Structural)]
pub enum PortA {
    Tag,
}

impl GpioPortNumber for PortA {
    open spec fn spec_port() -> Port {
        Port::PortA
    }

    fn port() -> (r: Port) {
        Port::PortA
    }
}

/// Type-level name of port B; its one value may stand for the type.
#[derive(Debug, Clone, Copy, PartialEq, Eq, Structural)]
pub enum PortB {
    Tag,
}

impl GpioPortNumber for PortB {
    open spec fn spec_port() -> Port {
        Port::PortB
    }

    fn port() -> (r: Port) {
        Port::PortB
    }
}

/// Type-level name of port C; its one value may stand for the type.
#[derive(Debug, Clone, Copy, PartialEq, Eq, Structural)]
pub enum PortC {
    Tag,
}

impl GpioPortNumber for PortC {
    open spec fn spec_port() -> Port {
        Port::PortC
    }

    fn port() -> (r: Port) {
        Port::PortC
    }
}

/// Type-level name of port D; its one value may stand for the type.
#[derive(Debug, Clone, Copy, PartialEq, Eq, Structural)]
pub enum PortD {
    Tag,
}

impl GpioPortNumber for PortD {
    open spec fn spec_port() -> Port {
        Port::PortD
    }

    fn port() -> (r: Port) {
        Port::PortD
    }
}

/// Type-level name of port E; its one value may stand for the type.
#[derive(Debug, Clone, Copy, PartialEq, Eq, Structural)]
pub enum PortE {
    Tag,
}

impl GpioPortNumber for PortE {
    open spec fn spec_port() -> Port {
        Port::PortE
    }

    fn port() -> (r: Port) {
        Port::PortE
    }
}

/// Type-level name of port F; its one value may stand for the type.
#[derive(Debug, Clone, Copy, PartialEq, Eq, Structural)]
pub enum PortF {
    Tag,
}

impl GpioPortNumber for PortF {
    open spec fn spec_port() -> Port {
        Port::PortF
    }

    fn port() -> (r: Port) {
        Port::PortF
    }
}

/// Type-level name of port G; its one value may stand for the type.
#[derive(Debug, Clone, Copy, PartialEq, Eq, Structural)]
pub enum PortG {
    Tag,
}

impl GpioPortNumber for PortG {
    open spec fn spec_port() -> Port {
        Port::PortG
    }

    fn port() -> (r: Port) {
        Port::PortG
    }
}

/// Type-level name of port H; its one value may stand for the type.
#[derive(Debug, Clone, Copy, PartialEq, Eq, Structural)]
pub enum PortH {
    Tag,
}

impl GpioPortNumber for PortH {
    open spec fn spec_port() -> Port {
        Port::PortH
    }

    fn port() -> (r: Port) {
        Port::PortH
    }
}

/// Type-level name of port I; its one value may stand for the type.
#[derive(Debug, Clone, Copy, PartialEq, Eq, Structural)]
pub enum PortI {
    Tag,
}

impl GpioPortNumber for PortI {
    open spec fn spec_port() -> Port {
        Port::PortI
    }

    fn port() -> (r: Port) {
        Port::PortI
    }
}

/// Type-level name of port J; its one value may stand for the type.
#[derive(Debug, Clone, Copy, PartialEq, Eq, Structural)]
pub enum PortJ {
    Tag,
}

impl GpioPortNumber for PortJ {
    open spec fn spec_port() -> Port {
        Port::PortJ
    }

    fn port() -> (r: Port) {
        Port::PortJ
    }
}

/// Type-level name of port K; its one value may stand for the type.
#[derive(Debug, Clone, Copy, PartialEq, Eq, Structural)]
pub enum PortK {
    Tag,
}

impl GpioPortNumber for PortK {
    open spec fn spec_port() -> Port {
        Port::PortK
    }

    fn port() -> (r: Port) {
        Port::PortK
    }
}

/// The register block of port `N`, not yet split.
pub struct GpioBank<N: GpioPortNumber> {
    registers: GpioRegisters,
    _phantom: PhantomData<N>,
}

/// The sixteen pin tokens of port `N`.
pub struct GpioPins<N: GpioPortNumber> {
    pub pin_0: GpioPin<N>,
    pub pin_1: GpioPin<N>,
    pub pin_2: GpioPin<N>,
    pub pin_3: GpioPin<N>,
    pub pin_4: GpioPin<N>,
    pub pin_5: GpioPin<N>,
    pub pin_6: GpioPin<N>,
    pub pin_7: GpioPin<N>,
    pub pin_8: GpioPin<N>,
    pub pin_9: GpioPin<N>,
    pub pin_10: GpioPin<N>,
    pub pin_11: GpioPin<N>,
    pub pin_12: GpioPin<N>,
    pub pin_13: GpioPin<N>,
    pub pin_14: GpioPin<N>,
    pub pin_15: GpioPin<N>,
}

/// The right to configure one pin of port `N`.
pub struct GpioPin<N: GpioPortNumber> {
    pin: Pin,
    _phantom: PhantomData<N>,
}

impl<N: GpioPortNumber> GpioPin<N> {
    /// The pin.
    pub closed spec fn pin_id(self) -> Pin {
        self.pin
    }

    fn new(pin: Pin) -> (r: GpioPin<N>)
        ensures
            r.pin_id() == pin,
    {
        GpioPin { pin, _phantom: PhantomData }
    }

    /// The pin.
    pub fn pin(&self) -> (r: Pin)
        ensures
            r == self.pin_id(),
    {
        self.pin
    }
}

/// The controller of port `N`, which takes only tokens of port `N`.
pub struct GpioController<N: GpioPortNumber> {
    port: GpioPort,
    _phantom: PhantomData<N>,
}

impl<N: GpioPortNumber> GpioBank<N> {
    /// The register block of port `N`.
    pub closed spec fn regs(self) -> crate::overlay::RegisterBlock {
        self.registers@
    }

    /// Takes the register block of port `N`.
    pub fn new(registers: GpioRegisters) -> (r: GpioBank<N>)
        ensures
            r.regs() == registers@,
    {
        GpioBank { registers, _phantom: PhantomData }
    }

    /// Splits the block into its controller, with every pin free, and the
    /// sixteen tokens.
    pub fn split(self) -> (r: (GpioController<N>, GpioPins<N>))
        ensures
            r.0.port_spec().port_id() == N::spec_port(),
            r.0.port_spec().in_use() == Seq::new(16, |n: int| false),
            r.0.port_spec().regs() == self.regs(),
            r.1.pin_0.pin_id() == Pin::Pin0,
            r.1.pin_1.pin_id() == Pin::Pin1,
            r.1.pin_2.pin_id() == Pin::Pin2,
            r.1.pin_3.pin_id() == Pin::Pin3,
            r.1.pin_4.pin_id() == Pin::Pin4,
            r.1.pin_5.pin_id() == Pin::Pin5,
            r.1.pin_6.pin_id() == Pin::Pin6,
            r.1.pin_7.pin_id() == Pin::Pin7,
            r.1.pin_8.pin_id() == Pin::Pin8,
            r.1.pin_9.pin_id() == Pin::Pin9,
            r.1.pin_10.pin_id() == Pin::Pin10,
            r.1.pin_11.pin_id() == Pin::Pin11,
            r.1.pin_12.pin_id() == Pin::Pin12,
            r.1.pin_13.pin_id() == Pin::Pin13,
            r.1.pin_14.pin_id() == Pin::Pin14,
            r.1.pin_15.pin_id() == Pin::Pin15,
    {
        let controller = GpioController {
            port: GpioPort::new(N::port(), self.registers),
            _phantom: PhantomData,
        };
        let pins = GpioPins {
            pin_0: GpioPin::new(Pin::Pin0),
            pin_1: GpioPin::new(Pin::Pin1),
            pin_2: GpioPin::new(Pin::Pin2),
            pin_3: GpioPin::new(Pin::Pin3),
            pin_4: GpioPin::new(Pin::Pin4),
            pin_5: GpioPin::new(Pin::Pin5),
            pin_6: GpioPin::new(Pin::Pin6),
            pin_7: GpioPin::new(Pin::Pin7),
            pin_8: GpioPin::new(Pin::Pin8),
            pin_9: GpioPin::new(Pin::Pin9),
            pin_10: GpioPin::new(Pin::Pin10),
            pin_11: GpioPin::new(Pin::Pin11),
            pin_12: GpioPin::new(Pin::Pin12),
            pin_13: GpioPin::new(Pin::Pin13),
            pin_14: GpioPin::new(Pin::Pin14),
            pin_15: GpioPin::new(Pin::Pin15),
        };
        (controller, pins)
    }
}

impl<N: GpioPortNumber> GpioController<N> {
    /// The port's controller.
    pub closed spec fn port_spec(self) -> GpioPort {
        self.port
    }

    /// The port's controller, to read from.
    pub fn port(&self) -> (r: &GpioPort)
        ensures
            *r == self.port_spec(),
    {
        &self.port
    }

    /// The port's controller, to drive output pins through.
    pub fn port_mut(&mut self) -> (r: &mut GpioPort)
        ensures
            *r == old(self).port_spec(),
            final(self).port_spec() == *final(r),
    {
        &mut self.port
    }

    /// Makes the pin of `pin` an input.
    pub fn to_read(&mut self, pin: GpioPin<N>, resistor: Resistor) -> (r: Result<InputPin, Error>)
        ensures
            claims(old(self).port_spec(), final(self).port_spec(), pin.pin_id(), r is Err),
            r is Err ==> r == Err::<InputPin, Error>(Error::PinAlreadyInUse(pin.pin_id())),
            r matches Ok(handle) ==> handle.pin_id() == pin.pin_id() && handle.port_id() == old(
                self,
            ).port_spec().port_id() && final(self).port_spec().regs() == input_config(
                old(self).port_spec().regs(),
                pin.pin_id(),
                resistor,
            ),
    {
        self.port.to_input(pin.pin, resistor)
    }

    /// Makes the pin of `pin` an output.
    pub fn to_write(
        &mut self,
        pin: GpioPin<N>,
        typ: OutputType,
        speed: OutputSpeed,
        resistor: Resistor,
    ) -> (r: Result<OutputPin, Error>)
        ensures
            claims(old(self).port_spec(), final(self).port_spec(), pin.pin_id(), r is Err),
            r is Err ==> r == Err::<OutputPin, Error>(Error::PinAlreadyInUse(pin.pin_id())),
            r matches Ok(handle) ==> handle.pin_id() == pin.pin_id() && handle.port_id() == old(
                self,
            ).port_spec().port_id() && final(self).port_spec().regs() == output_config(
                old(self).port_spec().regs(),
                pin.pin_id(),
                typ,
                speed,
                resistor,
            ),
    {
        self.port.to_output(pin.pin, typ, speed, resistor)
    }

    /// Routes the pin of `pin` to alternate function `alternate_fn`.
    pub fn to_alternate_function(
        &mut self,
        pin: GpioPin<N>,
        typ: OutputType,
        speed: OutputSpeed,
        alternate_fn: AlternateFunction,
        resistor: Resistor,
    ) -> (r: Result<(), Error>)
        ensures
            claims(old(self).port_spec(), final(self).port_spec(), pin.pin_id(), r is Err),
            r is Err ==> r == Err::<(), Error>(Error::PinAlreadyInUse(pin.pin_id())),
            r is Ok ==> final(self).port_spec().regs() == alternate_config(
                old(self).port_spec().regs(),
                seq![pin.pin_id()],
                alternate_fn,
                typ,
                speed,
                resistor,
            ),
    {
        self.port.to_alternate_function(pin.pin, alternate_fn, typ, speed, resistor)
    }
}

} // verus!
