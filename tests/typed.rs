use stm32::config::{AlternateFunction, OutputSpeed, OutputType, Pin, Port, Resistor};
use stm32::overlay::{GpioRegisters, RegisterBlock};
use stm32::typed::{GpioBank, GpioPortNumber, PortB, PortG};
use stm32::views::{
    AlternateFunctionRegister, BitSetResetRegister, InputDataRegister, ModeRegister,
    OutputDataRegister, OutputSpeedRegister, OutputTypeRegister, ResistorRegister,
};

fn zero() -> RegisterBlock {
    RegisterBlock {
        mode: ModeRegister(0),
        out_type: OutputTypeRegister(0),
        out_speed: OutputSpeedRegister(0),
        pupd: ResistorRegister(0),
        input_data: InputDataRegister(0),
        output_data: OutputDataRegister(0),
        bit_set_reset: BitSetResetRegister(0),
        lock: 0,
        alternate_fn: AlternateFunctionRegister { low: 0, high: 0 },
    }
}

#[test]
fn split_gives_a_controller_and_sixteen_tokens() {
    let bank: GpioBank<PortG> = GpioBank::new(GpioRegisters::new(zero()));
    let (mut controller, pins) = bank.split();
    assert_eq!(pins.pin_0.pin(), Pin::Pin0);
    assert_eq!(pins.pin_15.pin(), Pin::Pin15);
    assert_eq!(controller.port().port(), Port::PortG);
    let mut led = controller
        .to_write(pins.pin_13, OutputType::PushPull, OutputSpeed::Low, Resistor::NoPull)
        .unwrap();
    assert_eq!(led.pin(), Pin::Pin13);
    assert_eq!(led.port(), Port::PortG);
    controller.to_read(pins.pin_0, Resistor::PullDown).unwrap();
    controller
        .to_alternate_function(pins.pin_9, OutputType::PushPull, OutputSpeed::High, AlternateFunction::AF7, Resistor::NoPull)
        .unwrap();
    let regs = controller.port().registers().snapshot();
    assert_eq!(regs.mode.0, (0b01 << 26) | (0b10 << 18));
    assert_eq!(regs.pupd.0, 0b10);
    assert_eq!(regs.alternate_fn.high, 0x70);
    assert!(!led.get(controller.port()));
    led.set(controller.port_mut(), false);
    assert_eq!(controller.port().registers().snapshot().bit_set_reset.0, 1 << 29);
}

#[test]
fn port_tags_name_their_ports() {
    assert_eq!(PortB::port(), Port::PortB);
    assert_eq!(PortG::port(), Port::PortG);
}
