use stm32::config::{AlternateFunction, OutputSpeed, OutputType, Pin, Port, Resistor};
use stm32::overlay::{GpioRegisters, RegisterBlock};
use stm32::port::{Error, GpioPort};
use stm32::views::{
    AlternateFunctionRegister, BitSetResetRegister, InputDataRegister, ModeRegister,
    OutputDataRegister, OutputSpeedRegister, OutputTypeRegister, ResistorRegister,
};

fn block(mode: u32, input: u32, output: u32) -> RegisterBlock {
    RegisterBlock {
        mode: ModeRegister(mode),
        out_type: OutputTypeRegister(0),
        out_speed: OutputSpeedRegister(0),
        pupd: ResistorRegister(0),
        input_data: InputDataRegister(input),
        output_data: OutputDataRegister(output),
        bit_set_reset: BitSetResetRegister(0),
        lock: 0,
        alternate_fn: AlternateFunctionRegister { low: 0, high: 0 },
    }
}

fn port_with(mode: u32) -> GpioPort {
    GpioPort::new(Port::PortA, GpioRegisters::new(block(mode, 0, 0)))
}

#[test]
fn to_output_on_pin_5_sets_mode_bits_10_and_11() {
    let mut port = port_with(0);
    assert!(port.to_output(Pin::Pin5, OutputType::PushPull, OutputSpeed::Low, Resistor::NoPull).is_ok());
    assert_eq!(port.registers().snapshot().mode.0, 0x0000_0400);
}

#[test]
fn to_output_leaves_other_mode_bits_alone() {
    let mut port = port_with(0xffff_f3ff);
    port.to_output(Pin::Pin5, OutputType::OpenDrain, OutputSpeed::High, Resistor::PullUp).unwrap();
    let regs = port.registers().snapshot();
    assert_eq!(regs.mode.0, 0xffff_f7ff);
    assert_eq!(regs.out_type.0, 1 << 5);
    assert_eq!(regs.out_speed.0, 0b10 << 10);
    assert_eq!(regs.pupd.0, 0b01 << 10);
}

#[test]
fn to_input_programs_mode_and_resistor() {
    let mut port = port_with(0xffff_ffff);
    port.to_input(Pin::Pin0, Resistor::PullDown).unwrap();
    let regs = port.registers().snapshot();
    assert_eq!(regs.mode.0, 0xffff_fffc);
    assert_eq!(regs.pupd.0, 0b10);
    assert_eq!(regs.out_type.0, 0);
}

#[test]
fn configuring_a_pin_twice_is_refused_and_changes_nothing() {
    let mut port = port_with(0);
    port.to_input(Pin::Pin3, Resistor::PullUp).unwrap();
    let after_first = port.registers().snapshot();
    let second = port.to_output(Pin::Pin3, OutputType::PushPull, OutputSpeed::Low, Resistor::NoPull);
    assert!(matches!(second, Err(Error::PinAlreadyInUse(Pin::Pin3))));
    let third = port.to_input(Pin::Pin3, Resistor::NoPull);
    assert!(matches!(third, Err(Error::PinAlreadyInUse(Pin::Pin3))));
    let fourth = port.to_alternate_function(
        Pin::Pin3,
        AlternateFunction::AF1,
        OutputType::PushPull,
        OutputSpeed::Low,
        Resistor::NoPull,
    );
    assert_eq!(fourth, Err(Error::PinAlreadyInUse(Pin::Pin3)));
    assert_eq!(port.registers().snapshot(), after_first);
    assert!(port.is_in_use(Pin::Pin3));
    assert!(!port.is_in_use(Pin::Pin4));
}

#[test]
fn alternate_function_batch_sets_every_register() {
    let mut port = port_with(0);
    port.to_alternate_function_all(
        &[Pin::Pin1, Pin::Pin9],
        AlternateFunction::AF5,
        OutputType::OpenDrain,
        OutputSpeed::VeryHigh,
        Resistor::PullUp,
    )
    .unwrap();
    let regs = port.registers().snapshot();
    assert_eq!(regs.mode.0, (0b10 << 2) | (0b10 << 18));
    assert_eq!(regs.out_type.0, (1 << 1) | (1 << 9));
    assert_eq!(regs.out_speed.0, (0b11 << 2) | (0b11 << 18));
    assert_eq!(regs.pupd.0, (0b01 << 2) | (0b01 << 18));
    assert_eq!(regs.alternate_fn, AlternateFunctionRegister { low: 0x50, high: 0x50 });
}

#[test]
fn disjoint_batches_both_succeed() {
    let mut port = port_with(0);
    let first = [Pin::Pin0, Pin::Pin1, Pin::Pin2];
    let second = [Pin::Pin8, Pin::Pin15];
    let args = (AlternateFunction::AF7, OutputType::PushPull, OutputSpeed::Medium, Resistor::NoPull);
    assert!(port.to_alternate_function_all(&first, args.0, args.1, args.2, args.3).is_ok());
    assert!(port.to_alternate_function_all(&second, args.0, args.1, args.2, args.3).is_ok());
    assert_eq!(port.registers().snapshot().mode.0, 0b10_10_10 | (0b10 << 16) | (0b10 << 30));
}

#[test]
fn batch_with_a_taken_pin_changes_nothing() {
    let mut port = port_with(0);
    let args = (AlternateFunction::AF7, OutputType::PushPull, OutputSpeed::Medium, Resistor::NoPull);
    port.to_alternate_function_all(&[Pin::Pin4, Pin::Pin5], args.0, args.1, args.2, args.3).unwrap();
    let before = port.registers().snapshot();
    let again = port.to_alternate_function_all(
        &[Pin::Pin6, Pin::Pin4, Pin::Pin5],
        AlternateFunction::AF1,
        OutputType::OpenDrain,
        OutputSpeed::High,
        Resistor::PullDown,
    );
    assert_eq!(again, Err(Error::PinAlreadyInUse(Pin::Pin4)));
    assert_eq!(port.registers().snapshot(), before);
    assert!(!port.is_in_use(Pin::Pin6));
}

#[test]
fn batch_naming_a_pin_twice_is_refused() {
    let mut port = port_with(0);
    let r = port.to_alternate_function_all(
        &[Pin::Pin10, Pin::Pin11, Pin::Pin10],
        AlternateFunction::AF2,
        OutputType::PushPull,
        OutputSpeed::Low,
        Resistor::NoPull,
    );
    assert_eq!(r, Err(Error::PinAlreadyInUse(Pin::Pin10)));
    assert_eq!(port.registers().snapshot(), block(0, 0, 0));
    assert!(!port.is_in_use(Pin::Pin10));
    assert!(!port.is_in_use(Pin::Pin11));
}

#[test]
fn empty_batch_succeeds_and_changes_nothing() {
    let mut port = port_with(0x1234_5678);
    assert!(port
        .to_alternate_function_all(&[], AlternateFunction::AF0, OutputType::PushPull, OutputSpeed::Low, Resistor::NoPull)
        .is_ok());
    assert_eq!(port.registers().snapshot(), block(0x1234_5678, 0, 0));
}

#[test]
fn input_pin_reads_the_input_data_register() {
    let mut port = GpioPort::new(Port::PortC, GpioRegisters::new(block(0, 1 << 13, 0)));
    let pin_13 = port.to_input(Pin::Pin13, Resistor::NoPull).unwrap();
    let pin_2 = port.to_input(Pin::Pin2, Resistor::NoPull).unwrap();
    assert!(pin_13.get(&port));
    assert!(!pin_2.get(&port));
}

#[test]
fn output_pin_writes_the_bit_set_reset_register() {
    let mut port = GpioPort::new(Port::PortG, GpioRegisters::new(block(0, 0, 1 << 14)));
    let mut pin_13 = port
        .to_output(Pin::Pin13, OutputType::PushPull, OutputSpeed::Low, Resistor::NoPull)
        .unwrap();
    let p14 = port
        .to_output(Pin::Pin14, OutputType::PushPull, OutputSpeed::Low, Resistor::NoPull)
        .unwrap();
    pin_13.set(&mut port, true);
    assert_eq!(port.registers().snapshot().bit_set_reset.0, 1 << 13);
    pin_13.set(&mut port, false);
    assert_eq!(port.registers().snapshot().bit_set_reset.0, 1 << 29);
    assert!(p14.get(&port));
    assert!(!pin_13.get(&port));
    assert_eq!(port.port(), Port::PortG);
}
