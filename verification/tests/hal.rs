use rustduino::atmega2560p::hal::interrupts::GlobalInterrupts;
use rustduino::atmega2560p::hal::pin::Pin;
use rustduino::atmega2560p::hal::port::{Direction, Gpio, GpioState, PortName};
use rustduino::atmega2560p::hal::power::{Power, PowerRegister, PowerState};
use rustduino::atmega2560p::hal::{Hal, HalState};
use rustduino::register::Register;

#[test]
fn register_reads_what_was_written() {
    let mut register = Register::new(0x5A);
    assert_eq!(register.read(), 0x5A);
    register.write(0xA5);
    assert_eq!(register.read(), 0xA5);
    register.write(0);
    assert_eq!(register.read(), 0);
}

#[test]
fn register_bits() {
    let mut register = Register::new(0b1000_0001);
    assert!(register.get_bit(0));
    assert!(!register.get_bit(1));
    assert!(!register.get_bit(6));
    assert!(register.get_bit(7));
    register.update_bit(1, true);
    assert_eq!(register.read(), 0b1000_0011);
    register.update_bit(7, false);
    assert_eq!(register.read(), 0b0000_0011);
    register.update_bit(0, true);
    assert_eq!(register.read(), 0b0000_0011);
    register.update_bit(5, false);
    assert_eq!(register.read(), 0b0000_0011);
}

#[test]
fn register_fields() {
    let mut register = Register::new(0xFF);
    register.update_bits(2, 5, 0b010);
    assert_eq!(register.read(), 0b1110_1011);
    register.update_bits(0, 8, 0x3C);
    assert_eq!(register.read(), 0x3C);
    register.update_bits(7, 8, 1);
    assert_eq!(register.read(), 0xBC);
    register.update_bits(0, 1, 1);
    assert_eq!(register.read(), 0xBD);
    register.update_bits(4, 8, 0);
    assert_eq!(register.read(), 0x0D);
    register.update_bits(0, 4, 0b1111);
    assert_eq!(register.read(), 0x0F);
}

#[test]
fn guard_restores_what_it_found() {
    for sreg in [0x00u8, 0x80, 0x7F, 0xFF, 0x81] {
        let mut interrupts = GlobalInterrupts::new(sreg);
        assert_eq!(interrupts.is_enabled(), sreg >= 0x80);
        let prior = interrupts.disable();
        assert!(!interrupts.is_enabled());
        assert_eq!(interrupts.status(), sreg & 0x7F);
        interrupts.enable(prior);
        assert_eq!(interrupts.status(), sreg);
    }
}

#[test]
fn nested_guards_leave_the_mask_as_the_outermost_found_it() {
    let mut interrupts = GlobalInterrupts::new(0x82);
    let outer = interrupts.disable();
    let inner = interrupts.disable();
    assert_eq!(interrupts.status(), 0x02);
    interrupts.enable(inner);
    assert_eq!(interrupts.status(), 0x02);
    assert!(!interrupts.is_enabled());
    interrupts.enable(outer);
    assert_eq!(interrupts.status(), 0x82);
    assert!(interrupts.is_enabled());
}

#[test]
fn power_bits_are_cleared_and_set_one_at_a_time() {
    let mut power = Power::new(PowerState { prr0: 0xFF, prr1: 0x0F });
    power.clear_bit(PowerRegister::Prr0, 1);
    assert_eq!(power.state(), PowerState { prr0: 0xFD, prr1: 0x0F });
    power.clear_bit(PowerRegister::Prr0, 1);
    assert_eq!(power.state(), PowerState { prr0: 0xFD, prr1: 0x0F });
    power.clear_bit(PowerRegister::Prr1, 0);
    assert_eq!(power.state(), PowerState { prr0: 0xFD, prr1: 0x0E });
    power.clear_bit(PowerRegister::Prr1, 7);
    assert_eq!(power.state(), PowerState { prr0: 0xFD, prr1: 0x0E });
    power.set_bit(PowerRegister::Prr1, 7);
    assert_eq!(power.state(), PowerState { prr0: 0xFD, prr1: 0x8E });
    power.set_bit(PowerRegister::Prr0, 1);
    assert_eq!(power.state(), PowerState { prr0: 0xFF, prr1: 0x8E });
}

#[test]
fn pin_directions_are_set_one_at_a_time() {
    let start = GpioState { ddr_d: 0x0F, ddr_e: 0xF0, ddr_h: 0x00, ddr_j: 0xFF };
    let mut gpio = Gpio::new(start);
    assert_eq!(gpio.state(), start);
    gpio.set_direction(PortName::D, 7, Direction::Output);
    assert_eq!(gpio.state(), GpioState { ddr_d: 0x8F, ..start });
    gpio.set_direction(PortName::D, 0, Direction::Input);
    assert_eq!(gpio.state(), GpioState { ddr_d: 0x8E, ..start });
    gpio.set_direction(PortName::E, 4, Direction::Input);
    assert_eq!(gpio.state(), GpioState { ddr_d: 0x8E, ddr_e: 0xE0, ..start });
    gpio.set_direction(PortName::H, 2, Direction::Output);
    assert_eq!(gpio.state(), GpioState { ddr_d: 0x8E, ddr_e: 0xE0, ddr_h: 0x04, ddr_j: 0xFF });
    gpio.set_direction(PortName::J, 2, Direction::Input);
    assert_eq!(gpio.state(), GpioState { ddr_d: 0x8E, ddr_e: 0xE0, ddr_h: 0x04, ddr_j: 0xFB });
    gpio.set_direction(PortName::J, 2, Direction::Input);
    assert_eq!(gpio.state(), GpioState { ddr_d: 0x8E, ddr_e: 0xE0, ddr_h: 0x04, ddr_j: 0xFB });
    assert!(Direction::Output.bit());
    assert!(!Direction::Input.bit());
}

#[test]
fn services_hold_what_they_were_made_with() {
    let state = HalState {
        sreg: 0x93,
        power: PowerState { prr0: 0x12, prr1: 0x34 },
        gpio: GpioState { ddr_d: 1, ddr_e: 2, ddr_h: 3, ddr_j: 4 },
    };
    let hal = Hal::new(state);
    assert_eq!(hal.state(), state);
    assert_eq!(hal.interrupts.status(), 0x93);
    assert_eq!(hal.power.state(), state.power);
    assert_eq!(hal.gpio.state(), state.gpio);
}

#[test]
fn a_pin_points_where_it_was_last_told() {
    let mut pin = Pin::new();
    assert_eq!(pin.direction(), Direction::Input);
    pin.output();
    assert_eq!(pin.direction(), Direction::Output);
    pin.output();
    assert_eq!(pin.direction(), Direction::Output);
    pin.input();
    assert_eq!(pin.direction(), Direction::Input);
}
