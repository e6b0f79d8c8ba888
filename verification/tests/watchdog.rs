use rustduino::atmega328p::hal::interrupt::Interrupt;
use rustduino::atmega328p::hal::watchdog::{Watchdog, WatchdogState};

#[test]
fn a_new_watchdog_has_cleared_registers() {
    assert_eq!(Watchdog::new().state(), WatchdogState { mcusr: 0, wdtcsr: 0 });
}

#[test]
fn reset_keeps_the_three_low_flags() {
    let cases = [(0xFFu8, 0x07u8), (0x08, 0x00), (0x0D, 0x05), (0x00, 0x00), (0x07, 0x07)];
    for (before, after) in cases {
        let mut watchdog = Watchdog::from_state(WatchdogState { mcusr: before, wdtcsr: 0x6B });
        watchdog.reset_watchdog();
        assert_eq!(watchdog.state(), WatchdogState { mcusr: after, wdtcsr: 0x6B });
        watchdog.reset_watchdog();
        assert_eq!(watchdog.state(), WatchdogState { mcusr: after, wdtcsr: 0x6B });
    }
}

#[test]
fn disable_clears_the_control_register_and_enables_interrupts() {
    for sreg in [0x00u8, 0x80, 0x55, 0xFF] {
        let mut interrupt = Interrupt::new(sreg);
        let mut watchdog = Watchdog::from_state(WatchdogState { mcusr: 0x0F, wdtcsr: 0x4E });
        watchdog.disable(&mut interrupt);
        assert_eq!(watchdog.state(), WatchdogState { mcusr: 0x07, wdtcsr: 0x00 });
        assert_eq!(interrupt.status(), sreg | 0x80);
    }
}

#[test]
fn interrupt_flag_is_bit_seven() {
    let mut interrupt = Interrupt::new(0x01);
    interrupt.enable();
    assert_eq!(interrupt.status(), 0x81);
    interrupt.enable();
    assert_eq!(interrupt.status(), 0x81);
    interrupt.disable();
    assert_eq!(interrupt.status(), 0x01);
    interrupt.disable();
    assert_eq!(interrupt.status(), 0x01);
}
