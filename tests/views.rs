use stm32::config::{AlternateFunction, Mode, OutputSpeed, OutputType, Pin, Resistor};
use stm32::views::{
    AlternateFunctionRegister, BitSetResetRegister, InputDataRegister, ModeRegister,
    OutputDataRegister, OutputSpeedRegister, OutputTypeRegister, ResistorRegister,
};

#[test]
fn mode_of_pin_5_is_bits_10_and_11() {
    let mut r = ModeRegister(0);
    r.set(Pin::Pin5, Mode::Output);
    assert_eq!(r.0, 0x0000_0400);
    r.set(Pin::Pin5, Mode::Analog);
    assert_eq!(r.0, 0x0000_0c00);
    let mut full = ModeRegister(0xffff_ffff);
    full.set(Pin::Pin15, Mode::Input);
    assert_eq!(full.0, 0x3fff_ffff);
}

#[test]
fn output_type_is_one_bit_per_pin() {
    let mut r = OutputTypeRegister(0);
    r.set(Pin::Pin7, OutputType::OpenDrain);
    assert_eq!(r.0, 0x80);
    r.set(Pin::Pin7, OutputType::PushPull);
    assert_eq!(r.0, 0);
}

#[test]
fn speed_and_resistor_are_two_bits_per_pin() {
    let mut s = OutputSpeedRegister(0);
    s.set(Pin::Pin1, OutputSpeed::VeryHigh);
    s.set(Pin::Pin2, OutputSpeed::Medium);
    assert_eq!(s.0, 0b01_11_00);
    let mut p = ResistorRegister(0);
    p.set(Pin::Pin0, Resistor::PullDown);
    p.set(Pin::Pin3, Resistor::PullUp);
    assert_eq!(p.0, 0b01_00_00_10);
}

#[test]
fn alternate_function_low_and_high_words() {
    let mut r = AlternateFunctionRegister { low: 0, high: 0 };
    r.set(Pin::Pin2, AlternateFunction::AF7);
    assert_eq!(r, AlternateFunctionRegister { low: 0x700, high: 0 });
    r.set(Pin::Pin9, AlternateFunction::AF12);
    assert_eq!(r, AlternateFunctionRegister { low: 0x700, high: 0xc0 });
    r.set(Pin::Pin15, AlternateFunction::AF15);
    assert_eq!(r.high, 0xf000_00c0);
}

#[test]
fn data_registers_read_one_bit_per_pin() {
    let input = InputDataRegister(0b1000_0000_0000_0010);
    assert!(input.get(Pin::Pin1));
    assert!(input.get(Pin::Pin15));
    assert!(!input.get(Pin::Pin0));
    let mut output = OutputDataRegister(0);
    output.set(Pin::Pin4, true);
    assert!(output.get(Pin::Pin4));
    assert_eq!(output.0, 0x10);
    output.set(Pin::Pin4, false);
    assert_eq!(output.0, 0);
}

#[test]
fn bit_set_reset_sets_pin_3_and_clears_pin_9_in_one_word() {
    let mut w = BitSetResetRegister::default();
    w.set(Pin::Pin3);
    w.reset(Pin::Pin9);
    assert_eq!(w.0, (1 << 3) | (1 << (9 + 16)));
}

#[test]
fn bit_set_reset_keeps_both_requests_for_one_pin() {
    let mut w = BitSetResetRegister::new();
    w.set(Pin::Pin0);
    w.reset(Pin::Pin0);
    assert_eq!(w.0, 0x0001_0001);
}

#[test]
fn enum_codes() {
    assert_eq!(Pin::Pin11.number(), 11);
    assert_eq!(Mode::AlternateFunction.code(), 0b10);
    assert_eq!(Resistor::PullDown.code(), 0b10);
    assert_eq!(OutputSpeed::High.code(), 0b10);
    assert_eq!(OutputType::OpenDrain.code(), 1);
    assert_eq!(AlternateFunction::AF10.code(), 10);
}
