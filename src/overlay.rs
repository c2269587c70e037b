//! The register block of one GPIO port.

use crate::cell::SingleItemReg;
use crate::config::{AlternateFunction, Mode, OutputSpeed, OutputType, Pin, Resistor};
use crate::views::{
    AlternateFunctionRegister, BitSetResetRegister, InputDataRegister, ModeRegister,
    OutputDataRegister, OutputSpeedRegister, OutputTypeRegister, ResistorRegister,
};
use vstd::prelude::*;

verus! {

/// The values of all registers of a port, each through its view.
#[derive(Debug, Clone, Copy, PartialEq, Eq, Structural)]
pub struct RegisterBlock {
    pub mode: ModeRegister,
    pub out_type: OutputTypeRegister,
    pub out_speed: OutputSpeedRegister,
    pub pupd: ResistorRegister,
    pub input_data: InputDataRegister,
    pub output_data: OutputDataRegister,
    pub bit_set_reset: BitSetResetRegister,
    pub lock: u32,
    pub alternate_fn: AlternateFunctionRegister,
}

/// The mode register after each pin of `pins`, in order, is given `mode`.
pub open spec fn modes_of(reg: ModeRegister, pins: Seq<Pin>, mode: Mode) -> ModeRegister
    decreases pins.len(),
{
    if pins.len() == 0 {
        reg
    } else {
        modes_of(reg, pins.drop_last(), mode).with_mode(pins.last(), mode)
    }
}

/// The output type register after each pin of `pins` is given `typ`.
pub open spec fn types_of(
    reg: OutputTypeRegister,
    pins: Seq<Pin>,
    typ: OutputType,
) -> OutputTypeRegister
    decreases pins.len(),
{
    if pins.len() == 0 {
        reg
    } else {
        types_of(reg, pins.drop_last(), typ).with_type(pins.last(), typ)
    }
}

/// The output speed register after each pin of `pins` is given `speed`.
pub open spec fn speeds_of(
    reg: OutputSpeedRegister,
    pins: Seq<Pin>,
    speed: OutputSpeed,
) -> OutputSpeedRegister
    decreases pins.len(),
{
    if pins.len() == 0 {
        reg
    } else {
        speeds_of(reg, pins.drop_last(), speed).with_speed(pins.last(), speed)
    }
}

/// The pull-up/pull-down register after each pin of `pins` is given `resistor`.
pub open spec fn resistors_of(
    reg: ResistorRegister,
    pins: Seq<Pin>,
    resistor: Resistor,
) -> ResistorRegister
    decreases pins.len(),
{
    if pins.len() == 0 {
        reg
    } else {
        resistors_of(reg, pins.drop_last(), resistor).with_resistor(pins.last(), resistor)
    }
}

/// The alternate function registers after each pin of `pins` is given `function`.
pub open spec fn functions_of(
    reg: AlternateFunctionRegister,
    pins: Seq<Pin>,
    function: AlternateFunction,
) -> AlternateFunctionRegister
    decreases pins.len(),
{
    if pins.len() == 0 {
        reg
    } else {
        functions_of(reg, pins.drop_last(), function).with_function(pins.last(), function)
    }
}

/// Each fold over the one-pin list `[pin]` is one update of `pin`.
pub proof fn lemma_single_pin_folds(regs: RegisterBlock, pins: Seq<Pin>, pin: Pin)
    requires
        pins == seq![pin],
    ensures
        forall|m: Mode| #[trigger]
            modes_of(regs.mode, pins, m) == regs.mode.with_mode(pin, m),
        forall|t: OutputType| #[trigger]
            types_of(regs.out_type, pins, t) == regs.out_type.with_type(pin, t),
        forall|v: OutputSpeed| #[trigger]
            speeds_of(regs.out_speed, pins, v) == regs.out_speed.with_speed(pin, v),
        forall|r: Resistor| #[trigger]
            resistors_of(regs.pupd, pins, r) == regs.pupd.with_resistor(pin, r),
        forall|f: AlternateFunction| #[trigger]
            functions_of(regs.alternate_fn, pins, f) == regs.alternate_fn.with_function(pin, f),
{
    let none = Seq::<Pin>::empty();
    assert(pins.drop_last() =~= none);
    assert forall|m: Mode| #[trigger]
        modes_of(regs.mode, pins, m) == regs.mode.with_mode(pin, m) by {
        assert(modes_of(regs.mode, none, m) == regs.mode);
    }
    assert forall|t: OutputType| #[trigger]
        types_of(regs.out_type, pins, t) == regs.out_type.with_type(pin, t) by {
        assert(types_of(regs.out_type, none, t) == regs.out_type);
    }
    assert forall|v: OutputSpeed| #[trigger]
        speeds_of(regs.out_speed, pins, v) == regs.out_speed.with_speed(pin, v) by {
        assert(speeds_of(regs.out_speed, none, v) == regs.out_speed);
    }
    assert forall|r: Resistor| #[trigger]
        resistors_of(regs.pupd, pins, r) == regs.pupd.with_resistor(pin, r) by {
        assert(resistors_of(regs.pupd, none, r) == regs.pupd);
    }
    assert forall|f: AlternateFunction| #[trigger]
        functions_of(regs.alternate_fn, pins, f) == regs.alternate_fn.with_function(pin, f) by {
        assert(functions_of(regs.alternate_fn, none, f) == regs.alternate_fn);
    }
}

/// The registers after `pin` is made an input with pull resistor `resistor`.
pub open spec fn input_config(regs: RegisterBlock, pin: Pin, resistor: Resistor) -> RegisterBlock {
    RegisterBlock {
        mode: regs.mode.with_mode(pin, Mode::Input),
        pupd: regs.pupd.with_resistor(pin, resistor),
        ..regs
    }
}

/// The registers after `pin` is made an output.
pub open spec fn output_config(
    regs: RegisterBlock,
    pin: Pin,
    typ: OutputType,
    speed: OutputSpeed,
    resistor: Resistor,
) -> RegisterBlock {
    RegisterBlock {
        mode: regs.mode.with_mode(pin, Mode::Output),
        out_type: regs.out_type.with_type(pin, typ),
        out_speed: regs.out_speed.with_speed(pin, speed),
        pupd: regs.pupd.with_resistor(pin, resistor),
        ..regs
    }
}

/// The registers after every pin of `pins` is given alternate function
/// `function`.
pub open spec fn alternate_config(
    regs: RegisterBlock,
    pins: Seq<Pin>,
    function: AlternateFunction,
    typ: OutputType,
    speed: OutputSpeed,
    resistor: Resistor,
) -> RegisterBlock {
    RegisterBlock {
        mode: modes_of(regs.mode, pins, Mode::AlternateFunction),
        out_type: types_of(regs.out_type, pins, typ),
        out_speed: speeds_of(regs.out_speed, pins, speed),
        pupd: resistors_of(regs.pupd, pins, resistor),
        alternate_fn: functions_of(regs.alternate_fn, pins, function),
        ..regs
    }
}

/// The register block of one GPIO port, declared in the order of the reference
/// manual: mode, output type, output speed, pull-up/pull-down, input data,
/// output data, bit set/reset, lock, alternate function low and high.
/// The lock register is kept for the layout and never accessed.
pub struct GpioRegisters {
    mode: SingleItemReg,
    out_type: SingleItemReg,
    out_speed: SingleItemReg,
    pupd: SingleItemReg,
    input_data: SingleItemReg,
    output_data: SingleItemReg,
    bit_set_reset: SingleItemReg,
    lock: SingleItemReg,
    alternate_fn_low: SingleItemReg,
    alternate_fn_high: SingleItemReg,
}

impl View for GpioRegisters {
    type V = RegisterBlock;

    closed spec fn view(&self) -> RegisterBlock {
        RegisterBlock {
            mode: ModeRegister(self.mode@),
            out_type: OutputTypeRegister(self.out_type@),
            out_speed: OutputSpeedRegister(self.out_speed@),
            pupd: ResistorRegister(self.pupd@),
            input_data: InputDataRegister(self.input_data@),
            output_data: OutputDataRegister(self.output_data@),
            bit_set_reset: BitSetResetRegister(self.bit_set_reset@),
            lock: self.lock@,
            alternate_fn: AlternateFunctionRegister {
                low: self.alternate_fn_low@,
                high: self.alternate_fn_high@,
            },
        }
    }
}

impl GpioRegisters {
    /// A register block holding `values`.
    pub fn new(values: RegisterBlock) -> (r: GpioRegisters)
        ensures
            r@ == values,
    {
        GpioRegisters {
            mode: SingleItemReg::new(values.mode.0),
            out_type: SingleItemReg::new(values.out_type.0),
            out_speed: SingleItemReg::new(values.out_speed.0),
            pupd: SingleItemReg::new(values.pupd.0),
            input_data: SingleItemReg::new(values.input_data.0),
            output_data: SingleItemReg::new(values.output_data.0),
            bit_set_reset: SingleItemReg::new(values.bit_set_reset.0),
            lock: SingleItemReg::new(values.lock),
            alternate_fn_low: SingleItemReg::new(values.alternate_fn.low),
            alternate_fn_high: SingleItemReg::new(values.alternate_fn.high),
        }
    }

    /// Loads every register but the lock register, which reads as 0 here.
    pub fn snapshot(&self) -> (r: RegisterBlock)
        ensures
            r == (RegisterBlock { lock: 0, ..self@ }),
    {
        RegisterBlock {
            mode: ModeRegister(self.mode.read()),
            out_type: OutputTypeRegister(self.out_type.read()),
            out_speed: OutputSpeedRegister(self.out_speed.read()),
            pupd: ResistorRegister(self.pupd.read()),
            input_data: InputDataRegister(self.input_data.read()),
            output_data: OutputDataRegister(self.output_data.read()),
            bit_set_reset: BitSetResetRegister(self.bit_set_reset.read()),
            lock: 0,
            alternate_fn: AlternateFunctionRegister {
                low: self.alternate_fn_low.read(),
                high: self.alternate_fn_high.read(),
            },
        }
    }

    /// Loads the input data register.
    pub fn input_data(&self) -> (r: InputDataRegister)
        ensures
            r == self@.input_data,
    {
        InputDataRegister(self.input_data.read())
    }

    /// Loads the output data register.
    pub fn output_data(&self) -> (r: OutputDataRegister)
        ensures
            r == self@.output_data,
    {
        OutputDataRegister(self.output_data.read())
    }

    /// Stores `value` in the bit set/reset register.
    pub fn write_bit_set_reset(&mut self, value: BitSetResetRegister)
        ensures
            final(self)@ == (RegisterBlock { bit_set_reset: value, ..old(self)@ }),
    {
        self.bit_set_reset.write(value.0);
    }

    /// Gives each pin of `pins` the mode `mode`, in one read-modify-write.
    pub fn update_mode(&mut self, pins: &[Pin], mode: Mode)
        ensures
            final(self)@ == (RegisterBlock {
                mode: modes_of(old(self)@.mode, pins@, mode),
                ..old(self)@
            }),
    {
        let mut r = ModeRegister(self.mode.read());
        let mut i: usize = 0;
        while i < pins.len()
            invariant
                0 <= i <= pins.len(),
                r == modes_of(old(self)@.mode, pins@.take(i as int), mode),
            decreases pins.len() - i,
        {
            assert(pins@.take(i as int + 1).drop_last() == pins@.take(i as int));
            r.set(pins[i], mode);
            i += 1;
        }
        assert(pins@.take(pins.len() as int) == pins@);
        self.mode.write(r.0);
    }

    /// Gives each pin of `pins` the output type `typ`, in one read-modify-write.
    pub fn update_out_type(&mut self, pins: &[Pin], typ: OutputType)
        ensures
            final(self)@ == (RegisterBlock {
                out_type: types_of(old(self)@.out_type, pins@, typ),
                ..old(self)@
            }),
    {
        let mut r = OutputTypeRegister(self.out_type.read());
        let mut i: usize = 0;
        while i < pins.len()
            invariant
                0 <= i <= pins.len(),
                r == types_of(old(self)@.out_type, pins@.take(i as int), typ),
            decreases pins.len() - i,
        {
            assert(pins@.take(i as int + 1).drop_last() == pins@.take(i as int));
            r.set(pins[i], typ);
            i += 1;
        }
        assert(pins@.take(pins.len() as int) == pins@);
        self.out_type.write(r.0);
    }

    /// Gives each pin of `pins` the output speed `speed`, in one
    /// read-modify-write.
    pub fn update_out_speed(&mut self, pins: &[Pin], speed: OutputSpeed)
        ensures
            final(self)@ == (RegisterBlock {
                out_speed: speeds_of(old(self)@.out_speed, pins@, speed),
                ..old(self)@
            }),
    {
        let mut r = OutputSpeedRegister(self.out_speed.read());
        let mut i: usize = 0;
        while i < pins.len()
            invariant
                0 <= i <= pins.len(),
                r == speeds_of(old(self)@.out_speed, pins@.take(i as int), speed),
            decreases pins.len() - i,
        {
            assert(pins@.take(i as int + 1).drop_last() == pins@.take(i as int));
            r.set(pins[i], speed);
            i += 1;
        }
        assert(pins@.take(pins.len() as int) == pins@);
        self.out_speed.write(r.0);
    }

    /// Gives each pin of `pins` the pull resistor `resistor`, in one
    /// read-modify-write.
    pub fn update_resistor(&mut self, pins: &[Pin], resistor: Resistor)
        ensures
            final(self)@ == (RegisterBlock {
                pupd: resistors_of(old(self)@.pupd, pins@, resistor),
                ..old(self)@
            }),
    {
        let mut r = ResistorRegister(self.pupd.read());
        let mut i: usize = 0;
        while i < pins.len()
            invariant
                0 <= i <= pins.len(),
                r == resistors_of(old(self)@.pupd, pins@.take(i as int), resistor),
            decreases pins.len() - i,
        {
            assert(pins@.take(i as int + 1).drop_last() == pins@.take(i as int));
            r.set(pins[i], resistor);
            i += 1;
        }
        assert(pins@.take(pins.len() as int) == pins@);
        self.pupd.write(r.0);
    }

    /// Gives each pin of `pins` the alternate function `function`, in one
    /// read-modify-write of each of the two registers.
    pub fn update_alternate_fn(&mut self, pins: &[Pin], function: AlternateFunction)
        ensures
            final(self)@ == (RegisterBlock {
                alternate_fn: functions_of(old(self)@.alternate_fn, pins@, function),
                ..old(self)@
            }),
    {
        let mut r = AlternateFunctionRegister {
            low: self.alternate_fn_low.read(),
            high: self.alternate_fn_high.read(),
        };
        let mut i: usize = 0;
        while i < pins.len()
            invariant
                0 <= i <= pins.len(),
                r == functions_of(old(self)@.alternate_fn, pins@.take(i as int), function),
            decreases pins.len() - i,
        {
            assert(pins@.take(i as int + 1).drop_last() == pins@.take(i as int));
            r.set(pins[i], function);
            i += 1;
        }
        assert(pins@.take(pins.len() as int) == pins@);
        self.alternate_fn_low.write(r.low);
        self.alternate_fn_high.write(r.high);
    }
}

} // verus!
