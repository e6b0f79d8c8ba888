use rustduino::atmega2560p::com::usart_initialize::{
    ConfigError, Usart, UsartDataSize, UsartModes, UsartNum, UsartParity, UsartPolarity,
    UsartState, UsartStop,
};
use rustduino::atmega2560p::hal::port::{Direction, Gpio, GpioState, PortName};
use rustduino::atmega2560p::hal::power::PowerRegister;

fn unit(num: UsartNum, ucsra: u8, ucsrb: u8, ucsrc: u8) -> Usart {
    Usart::from_state(UsartState {
        unit: num,
        poll_limit: 1,
        ucsra,
        ucsrb,
        ucsrc,
        ubrrl: 0x11,
        ubrrh: 0x02,
        udr: 0x33,
    })
}

fn all_inputs() -> Gpio {
    Gpio::new(GpioState { ddr_d: 0, ddr_e: 0, ddr_h: 0, ddr_j: 0 })
}

fn all_outputs() -> Gpio {
    Gpio::new(GpioState { ddr_d: 0xff, ddr_e: 0xff, ddr_h: 0xff, ddr_j: 0xff })
}

#[test]
fn unit_resolver_tables() {
    let table = [
        (UsartNum::usart0, 0u8, 0xC0u16, PortName::E, 2u8, 1u8, 0u8, PowerRegister::Prr0, 1u8),
        (UsartNum::usart1, 1, 0xC8, PortName::D, 5, 3, 2, PowerRegister::Prr1, 0),
        (UsartNum::usart2, 2, 0xD0, PortName::H, 2, 1, 0, PowerRegister::Prr1, 1),
        (UsartNum::usart3, 3, 0x130, PortName::J, 2, 1, 0, PowerRegister::Prr1, 2),
    ];
    for (num, ordinal, address, port, xck, td, rd, register, bit) in table {
        assert_eq!(num.ordinal(), ordinal);
        assert_eq!(num.base_address(), address);
        assert_eq!(num.port(), port);
        assert_eq!(num.xck(), xck);
        assert_eq!(num.td(), td);
        assert_eq!(num.rd(), rd);
        assert_eq!(num.power_register(), register);
        assert_eq!(num.power_bit(), bit);
        assert_eq!(UsartNum::from_ordinal(ordinal), Ok(num));
        assert_eq!(UsartNum::from_address(address), Ok(num));
        let handle = Usart::new(num);
        assert_eq!(handle.get_num(), num);
        assert_eq!(handle.get_port(), port);
        assert_eq!(handle.get_xck(), xck);
        assert_eq!(handle.get_td(), td);
        assert_eq!(handle.get_rd(), rd);
    }
}

#[test]
fn unknown_units_are_invalid() {
    for ordinal in [4u8, 5, 17, 255] {
        assert_eq!(UsartNum::from_ordinal(ordinal), Err(ConfigError::InvalidUnit));
    }
    for address in [0u16, 0xC1, 0xC4, 0xD8, 0x30, 0x131, 0xFFFF] {
        assert_eq!(UsartNum::from_address(address), Err(ConfigError::InvalidUnit));
    }
}

#[test]
fn mode_tables() {
    let table = [
        (UsartModes::norm_async, false, 0u8, false, Some(16u8), None),
        (UsartModes::dou_async, false, 0, true, Some(8), None),
        (UsartModes::master_sync, true, 1, false, Some(2), Some(Direction::Output)),
        (UsartModes::slave_sync, true, 1, false, None, Some(Direction::Input)),
    ];
    for (mode, synchronous, code, double, multiplier, direction) in table {
        assert_eq!(mode.synchronous(), synchronous);
        assert_eq!(mode.select_code(), code);
        assert_eq!(mode.double_speed(), double);
        assert_eq!(mode.multiplier(), multiplier);
        assert_eq!(mode.clock_direction(), direction);
    }
}

#[test]
fn mode_select_normal_async() {
    let mut handle = unit(UsartNum::usart0, 0xFF, 0xFF, 0xFF);
    let mut gpio = all_outputs();
    handle.mode_select(&mut gpio, UsartModes::norm_async);
    let after = handle.state();
    assert_eq!(after.ucsra, 0b1111_1101);
    assert_eq!(after.ucsrc, 0b0011_1111);
    assert_eq!(after.ucsrb, 0xFF);
    assert_eq!(after.ubrrl, 0x11);
    assert_eq!(after.ubrrh, 0x02);
    assert_eq!(gpio.state(), all_outputs().state());
    assert!(!handle.get_mode());
}

#[test]
fn mode_select_double_speed_async() {
    let mut handle = unit(UsartNum::usart0, 0, 0, 0b1100_0000);
    let mut gpio = all_inputs();
    handle.mode_select(&mut gpio, UsartModes::dou_async);
    assert_eq!(handle.state().ucsra, 0b0000_0010);
    assert_eq!(handle.state().ucsrc, 0);
    assert_eq!(gpio.state(), all_inputs().state());
    assert!(!handle.get_mode());
}

#[test]
fn mode_select_master_drives_the_clock_line() {
    let lines = [
        (UsartNum::usart0, GpioState { ddr_d: 0, ddr_e: 0b100, ddr_h: 0, ddr_j: 0 }),
        (UsartNum::usart1, GpioState { ddr_d: 0b10_0000, ddr_e: 0, ddr_h: 0, ddr_j: 0 }),
        (UsartNum::usart2, GpioState { ddr_d: 0, ddr_e: 0, ddr_h: 0b100, ddr_j: 0 }),
        (UsartNum::usart3, GpioState { ddr_d: 0, ddr_e: 0, ddr_h: 0, ddr_j: 0b100 }),
    ];
    for (num, expected) in lines {
        let mut handle = unit(num, 0b0000_0010, 0, 0b1000_0000);
        let mut gpio = all_inputs();
        handle.mode_select(&mut gpio, UsartModes::master_sync);
        assert_eq!(handle.state().ucsra, 0);
        assert_eq!(handle.state().ucsrc, 0b0100_0000);
        assert_eq!(gpio.state(), expected);
        assert!(handle.get_mode());
    }
}

#[test]
fn mode_select_slave_releases_the_clock_line() {
    let lines = [
        (UsartNum::usart0, GpioState { ddr_d: 0xff, ddr_e: 0xfb, ddr_h: 0xff, ddr_j: 0xff }),
        (UsartNum::usart1, GpioState { ddr_d: 0xdf, ddr_e: 0xff, ddr_h: 0xff, ddr_j: 0xff }),
        (UsartNum::usart2, GpioState { ddr_d: 0xff, ddr_e: 0xff, ddr_h: 0xfb, ddr_j: 0xff }),
        (UsartNum::usart3, GpioState { ddr_d: 0xff, ddr_e: 0xff, ddr_h: 0xff, ddr_j: 0xfb }),
    ];
    for (num, expected) in lines {
        let mut handle = unit(num, 0b0000_0010, 0, 0);
        let mut gpio = all_outputs();
        handle.mode_select(&mut gpio, UsartModes::slave_sync);
        assert_eq!(handle.state().ucsra, 0);
        assert_eq!(handle.state().ucsrc, 0b0100_0000);
        assert_eq!(gpio.state(), expected);
    }
}

#[test]
fn polarity_of_an_asynchronous_unit_is_always_cleared() {
    for polarity in [UsartPolarity::output_rise, UsartPolarity::input_rise] {
        let mut handle = unit(UsartNum::usart0, 0, 0, 0b1011_1111);
        handle.set_polarity(polarity);
        assert_eq!(handle.state().ucsrc, 0b1011_1110);
        assert_eq!(handle.state().ucsra, 0);
    }
}

#[test]
fn polarity_of_a_synchronous_unit_follows_the_choice() {
    let mut handle = unit(UsartNum::usart0, 0, 0, 0b0100_0000);
    handle.set_polarity(UsartPolarity::input_rise);
    assert_eq!(handle.state().ucsrc, 0b0100_0001);
    handle.set_polarity(UsartPolarity::output_rise);
    assert_eq!(handle.state().ucsrc, 0b0100_0000);
    assert!(UsartPolarity::input_rise.bit());
    assert!(!UsartPolarity::output_rise.bit());
}

#[test]
fn check_enables_both_transfer_interrupts() {
    let mut handle = unit(UsartNum::usart0, 0, 0b0001_0101, 0);
    handle.check();
    assert_eq!(handle.state().ucsrb, 0b1101_0101);
    handle.check();
    assert_eq!(handle.state().ucsrb, 0b1101_0101);
    assert_eq!(handle.state().ucsra, 0);
    assert_eq!(handle.state().ucsrc, 0);
}

#[test]
fn frame_tables() {
    let sizes = [
        (UsartDataSize::five, 5u8, 0b00u8, false),
        (UsartDataSize::six, 6, 0b01, false),
        (UsartDataSize::seven, 7, 0b10, false),
        (UsartDataSize::eight, 8, 0b11, false),
        (UsartDataSize::nine, 9, 0b11, true),
    ];
    for (size, bits, low, high) in sizes {
        assert_eq!(size.data_bits(), bits);
        assert_eq!(size.low_code(), low);
        assert_eq!(size.high_bit(), high);
    }
    assert_eq!(UsartParity::no.code(), 0b00);
    assert_eq!(UsartParity::even.code(), 0b10);
    assert_eq!(UsartParity::odd.code(), 0b11);
    assert!(!UsartStop::one.bit());
    assert!(UsartStop::two.bit());
}

#[test]
fn single_frame_writes() {
    let mut handle = unit(UsartNum::usart2, 0xFF, 0xFF, 0xFF);
    handle.set_size(UsartDataSize::six);
    assert_eq!(handle.state().ucsrc, 0b1111_1011);
    assert_eq!(handle.state().ucsrb, 0b1111_1011);
    handle.set_parity(UsartParity::no);
    assert_eq!(handle.state().ucsrc, 0b1100_1011);
    handle.set_stop(UsartStop::one);
    assert_eq!(handle.state().ucsrc, 0b1100_0011);
    handle.set_stop(UsartStop::two);
    assert_eq!(handle.state().ucsrc, 0b1100_1011);
    handle.set_parity(UsartParity::even);
    assert_eq!(handle.state().ucsrc, 0b1110_1011);
    handle.set_size(UsartDataSize::nine);
    assert_eq!(handle.state().ucsrc, 0b1110_1111);
    assert_eq!(handle.state().ucsrb, 0b1111_1111);
    assert_eq!(handle.state().ucsra, 0xFF);
    assert_eq!(handle.state().ubrrl, 0x11);
    assert_eq!(handle.state().ubrrh, 0x02);
    assert_eq!(handle.state().udr, 0x33);
}
