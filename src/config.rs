//! The values that configure a pin, and the pin numbers themselves.

use vstd::prelude::*;

verus! {

/// One of the sixteen pins of a port.
#[derive(Debug, Clone, Copy, PartialEq, Eq, Structural)]
pub enum Pin {
    /// Pin 0.
    Pin0,
    /// Pin 1.
    Pin1,
    /// Pin 2.
    Pin2,
    /// Pin 3.
    Pin3,
    /// Pin 4.
    Pin4,
    /// Pin 5.
    Pin5,
    /// Pin 6.
    Pin6,
    /// Pin 7.
    Pin7,
    /// Pin 8.
    Pin8,
    /// Pin 9.
    Pin9,
    /// Pin 10.
    Pin10,
    /// Pin 11.
    Pin11,
    /// Pin 12.
    Pin12,
    /// Pin 13.
    Pin13,
    /// Pin 14.
    Pin14,
    /// Pin 15.
    Pin15,
}

impl Pin {
    /// The pin's number, 0 to 15.
    pub open spec fn spec_number(self) -> u32 {
        match self {
            Pin::Pin0 => 0,
            Pin::Pin1 => 1,
            Pin::Pin2 => 2,
            Pin::Pin3 => 3,
            Pin::Pin4 => 4,
            Pin::Pin5 => 5,
            Pin::Pin6 => 6,
            Pin::Pin7 => 7,
            Pin::Pin8 => 8,
            Pin::Pin9 => 9,
            Pin::Pin10 => 10,
            Pin::Pin11 => 11,
            Pin::Pin12 => 12,
            Pin::Pin13 => 13,
            Pin::Pin14 => 14,
            Pin::Pin15 => 15,
        }
    }

    /// The pin's number, 0 to 15.
    #[verifier::when_used_as_spec(spec_number)]
    pub fn number(self) -> (r: u32)
        ensures
            r == self.spec_number(),
            r < 16,
    {
        match self {
            Pin::Pin0 => 0,
            Pin::Pin1 => 1,
            Pin::Pin2 => 2,
            Pin::Pin3 => 3,
            Pin::Pin4 => 4,
            Pin::Pin5 => 5,
            Pin::Pin6 => 6,
            Pin::Pin7 => 7,
            Pin::Pin8 => 8,
            Pin::Pin9 => 9,
            Pin::Pin10 => 10,
            Pin::Pin11 => 11,
            Pin::Pin12 => 12,
            Pin::Pin13 => 13,
            Pin::Pin14 => 14,
            Pin::Pin15 => 15,
        }
    }
}

/// What a pin is used for; a 2-bit field of the mode register.
#[derive(Debug, Clone, Copy, PartialEq, Eq, Structural)]
pub enum Mode {
    /// Digital input.
    Input,
    /// General-purpose output.
    Output,
    /// Routed to a peripheral.
    AlternateFunction,
    /// Analog input or output.
    Analog,
}

impl Mode {
    /// The field value.
    pub open spec fn spec_code(self) -> u32 {
        match self {
            Mode::Input => 0,
            Mode::Output => 1,
            Mode::AlternateFunction => 2,
            Mode::Analog => 3,
        }
    }

    /// The field value.
    #[verifier::when_used_as_spec(spec_code)]
    pub fn code(self) -> (r: u32)
        ensures
            r == self.spec_code(),
            r < 4,
    {
        match self {
            Mode::Input => 0,
            Mode::Output => 1,
            Mode::AlternateFunction => 2,
            Mode::Analog => 3,
        }
    }
}

/// How an output drives its pin; a 1-bit field of the output-type register.
#[derive(Debug, Clone, Copy, PartialEq, Eq, Structural)]
pub enum OutputType {
    /// Driven both high and low.
    PushPull,
    /// Driven low only.
    OpenDrain,
}

impl OutputType {
    /// The field value.
    pub open spec fn spec_code(self) -> u32 {
        match self {
            OutputType::PushPull => 0,
            OutputType::OpenDrain => 1,
        }
    }

    /// The field value.
    #[verifier::when_used_as_spec(spec_code)]
    pub fn code(self) -> (r: u32)
        ensures
            r == self.spec_code(),
            r < 2,
    {
        match self {
            OutputType::PushPull => 0,
            OutputType::OpenDrain => 1,
        }
    }
}

/// Slew rate of an output; a 2-bit field of the output-speed register.
#[derive(Debug, Clone, Copy, PartialEq, Eq, Structural)]
pub enum OutputSpeed {
    /// Low speed.
    Low,
    /// Medium speed.
    Medium,
    /// High speed.
    High,
    /// Very high speed.
    VeryHigh,
}

impl OutputSpeed {
    /// The field value.
    pub open spec fn spec_code(self) -> u32 {
        match self {
            OutputSpeed::Low => 0,
            OutputSpeed::Medium => 1,
            OutputSpeed::High => 2,
            OutputSpeed::VeryHigh => 3,
        }
    }

    /// The field value.
    #[verifier::when_used_as_spec(spec_code)]
    pub fn code(self) -> (r: u32)
        ensures
            r == self.spec_code(),
            r < 4,
    {
        match self {
            OutputSpeed::Low => 0,
            OutputSpeed::Medium => 1,
            OutputSpeed::High => 2,
            OutputSpeed::VeryHigh => 3,
        }
    }
}

/// The pull resistor of a pin; a 2-bit field of the pull-up/pull-down register.
#[derive(Debug, Clone, Copy, PartialEq, Eq, Structural)]
pub enum Resistor {
    /// No pull resistor.
    NoPull,
    /// Pulled up.
    PullUp,
    /// Pulled down.
    PullDown,
}

impl Resistor {
    /// The field value.
    pub open spec fn spec_code(self) -> u32 {
        match self {
            Resistor::NoPull => 0,
            Resistor::PullUp => 1,
            Resistor::PullDown => 2,
        }
    }

    /// The field value.
    #[verifier::when_used_as_spec(spec_code)]
    pub fn code(self) -> (r: u32)
        ensures
            r == self.spec_code(),
            r < 3,
    {
        match self {
            Resistor::NoPull => 0,
            Resistor::PullUp => 1,
            Resistor::PullDown => 2,
        }
    }
}

/// Which peripheral signal a pin carries; a 4-bit field of the alternate-function registers.
#[derive(Debug, Clone, Copy, PartialEq, Eq, Structural)]
pub enum AlternateFunction {
    /// Alternate function 0.
    AF0,
    /// Alternate function 1.
    AF1,
    /// Alternate function 2.
    AF2,
    /// Alternate function 3.
    AF3,
    /// Alternate function 4.
    AF4,
    /// Alternate function 5.
    AF5,
    /// Alternate function 6.
    AF6,
    /// Alternate function 7.
    AF7,
    /// Alternate function 8.
    AF8,
    /// Alternate function 9.
    AF9,
    /// Alternate function 10.
    AF10,
    /// Alternate function 11.
    AF11,
    /// Alternate function 12.
    AF12,
    /// Alternate function 13.
    AF13,
    /// Alternate function 14.
    AF14,
    /// Alternate function 15.
    AF15,
}

impl AlternateFunction {
    /// The field value.
    pub open spec fn spec_code(self) -> u32 {
        match self {
            AlternateFunction::AF0 => 0,
            AlternateFunction::AF1 => 1,
            AlternateFunction::AF2 => 2,
            AlternateFunction::AF3 => 3,
            AlternateFunction::AF4 => 4,
            AlternateFunction::AF5 => 5,
            AlternateFunction::AF6 => 6,
            AlternateFunction::AF7 => 7,
            AlternateFunction::AF8 => 8,
            AlternateFunction::AF9 => 9,
            AlternateFunction::AF10 => 10,
            AlternateFunction::AF11 => 11,
            AlternateFunction::AF12 => 12,
            AlternateFunction::AF13 => 13,
            AlternateFunction::AF14 => 14,
            AlternateFunction::AF15 => 15,
        }
    }

    /// The field value.
    #[verifier::when_used_as_spec(spec_code)]
    pub fn code(self) -> (r: u32)
        ensures
            r == self.spec_code(),
            r < 16,
    {
        match self {
            AlternateFunction::AF0 => 0,
            AlternateFunction::AF1 => 1,
            AlternateFunction::AF2 => 2,
            AlternateFunction::AF3 => 3,
            AlternateFunction::AF4 => 4,
            AlternateFunction::AF5 => 5,
            AlternateFunction::AF6 => 6,
            AlternateFunction::AF7 => 7,
            AlternateFunction::AF8 => 8,
            AlternateFunction::AF9 => 9,
            AlternateFunction::AF10 => 10,
            AlternateFunction::AF11 => 11,
            AlternateFunction::AF12 => 12,
            AlternateFunction::AF13 => 13,
            AlternateFunction::AF14 => 14,
            AlternateFunction::AF15 => 15,
        }
    }
}

/// One of the GPIO ports A to K.
#[derive(Debug, Clone, Copy, PartialEq, Eq, Structural)]
pub enum Port {
    /// GPIO port A.
    PortA,
    /// GPIO port B.
    PortB,
    /// GPIO port C.
    PortC,
    /// GPIO port D.
    PortD,
    /// GPIO port E.
    PortE,
    /// GPIO port F.
    PortF,
    /// GPIO port G.
    PortG,
    /// GPIO port H.
    PortH,
    /// GPIO port I.
    PortI,
    /// GPIO port J.
    PortJ,
    /// GPIO port K.
    PortK,
}

impl Port {
    /// The port's position, 0 for A to 10 for K.
    pub open spec fn spec_index(self) -> u32 {
        match self {
            Port::PortA => 0,
            Port::PortB => 1,
            Port::PortC => 2,
            Port::PortD => 3,
            Port::PortE => 4,
            Port::PortF => 5,
            Port::PortG => 6,
            Port::PortH => 7,
            Port::PortI => 8,
            Port::PortJ => 9,
            Port::PortK => 10,
        }
    }

    /// The port's position, 0 for A to 10 for K.
    #[verifier::when_used_as_spec(spec_index)]
    pub fn index(self) -> (r: u32)
        ensures
            r == self.spec_index(),
            r < 11,
    {
        match self {
            Port::PortA => 0,
            Port::PortB => 1,
            Port::PortC => 2,
            Port::PortD => 3,
            Port::PortE => 4,
            Port::PortF => 5,
            Port::PortG => 6,
            Port::PortH => 7,
            Port::PortI => 8,
            Port::PortJ => 9,
            Port::PortK => 10,
        }
    }
}

} // verus!
