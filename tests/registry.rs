use stm32::config::{AlternateFunction, OutputSpeed, OutputType, Pin, Port, Resistor};
use stm32::overlay::{GpioRegisters, RegisterBlock};
use stm32::port::Error;
use stm32::registry::Gpio;
use stm32::views::{
    AlternateFunctionRegister, BitSetResetRegister, InputDataRegister, ModeRegister,
    OutputDataRegister, OutputSpeedRegister, OutputTypeRegister, ResistorRegister,
};

fn zero() -> RegisterBlock {
    RegisterBlock {
        mode: ModeRegister(0),
        out_type: OutputTypeRegister(0),
        out_speed: OutputSpeedRegister(0),
        pupd: ResistorRegister(0),
        input_data: InputDataRegister(0),
        output_data: OutputDataRegister(0),
        bit_set_reset: BitSetResetRegister(0),
        lock: 0,
        alternate_fn: AlternateFunctionRegister { low: 0, high: 0 },
    }
}

fn gpio() -> Gpio {
    let r = || GpioRegisters::new(zero());
    Gpio::new(r(), r(), r(), r(), r(), r(), r(), r(), r(), r(), r())
}

#[test]
fn registry_routes_by_port() {
    let mut gpio = gpio();
    gpio.to_output((Port::PortB, Pin::Pin5), OutputType::PushPull, OutputSpeed::Low, Resistor::NoPull)
        .unwrap();
    assert_eq!(gpio.port_ref(Port::PortB).registers().snapshot().mode.0, 0x400);
    assert_eq!(gpio.port_ref(Port::PortA).registers().snapshot(), zero());
    assert!(gpio.to_input((Port::PortA, Pin::Pin5), Resistor::PullUp).is_ok());
    assert!(matches!(
        gpio.to_input((Port::PortB, Pin::Pin5), Resistor::PullUp),
        Err(Error::PinAlreadyInUse(Pin::Pin5))
    ));
    assert_eq!(gpio.port(Port::PortK).port(), Port::PortK);
}

#[test]
fn registry_single_alternate_function() {
    let mut gpio = gpio();
    let r = gpio.to_alternate_function(
        (Port::PortD, Pin::Pin12),
        AlternateFunction::AF12,
        OutputType::PushPull,
        OutputSpeed::VeryHigh,
        Resistor::NoPull,
    );
    assert_eq!(r, Ok(()));
    let regs = gpio.port_ref(Port::PortD).registers().snapshot();
    assert_eq!(regs.alternate_fn.high, 0xc << 16);
    assert_eq!(regs.mode.0, 0b10 << 24);
}

#[test]
fn registry_batch_over_two_ports() {
    let mut gpio = gpio();
    let pins = [(Port::PortC, Pin::Pin1), (Port::PortE, Pin::Pin9), (Port::PortC, Pin::Pin8)];
    gpio.to_alternate_function_all(&pins, AlternateFunction::AF3, OutputType::PushPull, OutputSpeed::Low, Resistor::NoPull)
        .unwrap();
    let c = gpio.port_ref(Port::PortC).registers().snapshot();
    let e = gpio.port_ref(Port::PortE).registers().snapshot();
    assert_eq!(c.mode.0, (0b10 << 2) | (0b10 << 16));
    assert_eq!(c.alternate_fn, AlternateFunctionRegister { low: 0x30, high: 0x3 });
    assert_eq!(e.mode.0, 0b10 << 18);
    assert_eq!(e.alternate_fn, AlternateFunctionRegister { low: 0, high: 0x30 });
    assert!(gpio.port_ref(Port::PortC).is_in_use(Pin::Pin8));
    assert!(!gpio.port_ref(Port::PortE).is_in_use(Pin::Pin8));
}

#[test]
fn registry_batch_with_one_conflict_changes_no_port() {
    let mut gpio = gpio();
    gpio.to_input((Port::PortH, Pin::Pin2), Resistor::NoPull).unwrap();
    let h_before = gpio.port_ref(Port::PortH).registers().snapshot();
    let pins = [(Port::PortI, Pin::Pin0), (Port::PortI, Pin::Pin1), (Port::PortH, Pin::Pin2)];
    let r = gpio.to_alternate_function_all(&pins, AlternateFunction::AF4, OutputType::OpenDrain, OutputSpeed::High, Resistor::PullUp);
    assert_eq!(r, Err(Error::PinAlreadyInUse(Pin::Pin2)));
    assert_eq!(gpio.port_ref(Port::PortI).registers().snapshot(), zero());
    assert_eq!(gpio.port_ref(Port::PortH).registers().snapshot(), h_before);
    assert!(!gpio.port_ref(Port::PortI).is_in_use(Pin::Pin0));
}

#[test]
fn registry_batch_same_pin_number_on_two_ports_is_no_conflict() {
    let mut gpio = gpio();
    let pins = [(Port::PortA, Pin::Pin7), (Port::PortJ, Pin::Pin7)];
    assert!(gpio
        .to_alternate_function_all(&pins, AlternateFunction::AF1, OutputType::PushPull, OutputSpeed::Low, Resistor::NoPull)
        .is_ok());
    let dup = [(Port::PortB, Pin::Pin7), (Port::PortB, Pin::Pin7)];
    assert_eq!(
        gpio.to_alternate_function_all(&dup, AlternateFunction::AF1, OutputType::PushPull, OutputSpeed::Low, Resistor::NoPull),
        Err(Error::PinAlreadyInUse(Pin::Pin7))
    );
    assert_eq!(gpio.port_ref(Port::PortB).registers().snapshot(), zero());
}

#[test]
fn registry_batch_of_all_sixteen_pins() {
    let mut gpio = gpio();
    let all = [
        Pin::Pin0, Pin::Pin1, Pin::Pin2, Pin::Pin3, Pin::Pin4, Pin::Pin5, Pin::Pin6, Pin::Pin7,
        Pin::Pin8, Pin::Pin9, Pin::Pin10, Pin::Pin11, Pin::Pin12, Pin::Pin13, Pin::Pin14, Pin::Pin15,
    ];
    let pins: Vec<(Port, Pin)> = all.iter().map(|&p| (Port::PortF, p)).collect();
    gpio.to_alternate_function_all(&pins, AlternateFunction::AF15, OutputType::PushPull, OutputSpeed::Low, Resistor::NoPull)
        .unwrap();
    let f = gpio.port_ref(Port::PortF).registers().snapshot();
    assert_eq!(f.mode.0, 0xaaaa_aaaa);
    assert_eq!(f.alternate_fn, AlternateFunctionRegister { low: 0xffff_ffff, high: 0xffff_ffff });
}
