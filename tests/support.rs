use stm32::cell::SingleItemReg;
use stm32::irq::{MaskBit, MaskMutex, MaskRegister};
use stm32::util::delay;
use stm32::config::{Pin, Port, Resistor};
use stm32::overlay::{GpioRegisters, RegisterBlock};
use stm32::port::GpioPort;
use stm32::views::{
    AlternateFunctionRegister, BitSetResetRegister, InputDataRegister, ModeRegister,
    OutputDataRegister, OutputSpeedRegister, OutputTypeRegister, ResistorRegister,
};

#[test]
fn single_item_register_reads_what_was_written() {
    let mut reg = SingleItemReg::new(0x40);
    assert_eq!(reg.read(), 0x40);
    reg.write(0x1000_00ff);
    assert_eq!(reg.read(), 0x1000_00ff);
    reg.update(|w| w | 0x0200_0000);
    assert_eq!(reg.read(), 0x1200_00ff);
}

#[test]
fn mask_mutex_restores_the_previous_mask() {
    let mut m = MaskMutex::new(MaskBit { enabled: false }, 5u32);
    let guard = m.lock();
    assert!(!guard.prev());
    *m.data_mut(&guard) += 1;
    let inner = m.lock();
    assert!(inner.prev());
    m.unlock(inner);
    m.unlock(guard);
    let check = m.lock();
    assert!(!check.prev());
    m.unlock(check);
    assert_eq!(m.into_inner(), 6);
}

#[test]
fn mask_bit_holds_the_mask() {
    let mut bit = MaskBit { enabled: false };
    bit.set_mask(true);
    assert!(bit.get_mask());
}

#[test]
fn delay_returns() {
    delay(0);
    delay(1000);
}

#[test]
fn port_configured_inside_a_critical_section() {
    let block = RegisterBlock {
        mode: ModeRegister(0),
        out_type: OutputTypeRegister(0),
        out_speed: OutputSpeedRegister(0),
        pupd: ResistorRegister(0),
        input_data: InputDataRegister(0),
        output_data: OutputDataRegister(0),
        bit_set_reset: BitSetResetRegister(0),
        lock: 0,
        alternate_fn: AlternateFunctionRegister { low: 0, high: 0 },
    };
    let port = GpioPort::new(Port::PortE, GpioRegisters::new(block));
    let mut m = MaskMutex::new(MaskBit { enabled: false }, port);
    let guard = m.lock();
    assert!(m.data_mut(&guard).to_input(Pin::Pin1, Resistor::PullUp).is_ok());
    m.unlock(guard);
    let port = m.into_inner();
    assert_eq!(port.registers().snapshot().pupd.0, 0b01 << 2);
}
