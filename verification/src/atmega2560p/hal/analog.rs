//! The analog-to-digital converter, which samples an analog pin, and the
//! timers, which put a pulse-width modulated wave on a digital pin.

use crate::atmega2560p::com::usart_initialize::{powered, UsartNum};
use crate::atmega2560p::hal::pin::{AnalogPin, DigitalPin};
use crate::atmega2560p::hal::port::Direction;
use crate::atmega2560p::hal::power::{Power, PowerRegister, PowerState};
use crate::bits::{
    bit_is_set, field, lemma_field_limits, lemma_with_bit_reads, lemma_with_field_keeps_field,
    lemma_with_field_reads, set_word_bits, with_bit, with_field, with_word_field,
    word_field_limit,
};
use crate::register::Register;
use vstd::prelude::*;

verus! {

/// Converter-enable bit of control and status register A.
pub const ADEN: u8 = 7;

/// Start-conversion bit of control and status register A.
pub const ADSC: u8 = 6;

/// Auto-trigger bit of control and status register A.
pub const ADATE: u8 = 5;

/// Conversion-complete flag of control and status register A.
pub const ADIF: u8 = 4;

/// High channel-select bit, in control and status register B.
pub const MUX5: u8 = 3;

/// The converter's bit in power-reduction register 0.
pub const PRADC: u8 = 0;

/// Voltage references of the converter.
#[allow(non_camel_case_types)]
#[derive(Clone, Copy, Debug, PartialEq, Eq, Structural)]
pub enum RefType {
    DEFAULT,
    INTERNAL1V1,
    INTERNAL2V56,
    EXTERNAL,
}

/// The eight-bit timers.
#[derive(Clone, Copy, Debug, PartialEq, Eq, Structural)]
pub enum TimerNo8 {
    Timer0,
    Timer2,
}

/// The sixteen-bit timers.
#[derive(Clone, Copy, Debug, PartialEq, Eq, Structural)]
pub enum TimerNo16 {
    Timer1,
    Timer3,
    Timer4,
    Timer5,
}

/// The compare outputs of a timer. Only the sixteen-bit timers have
/// output C.
#[derive(Clone, Copy, Debug, PartialEq, Eq, Structural)]
pub enum PwmOutput {
    A,
    B,
    C,
}

/// One of the six timers.
#[derive(Clone, Copy, Debug, PartialEq, Eq, Structural)]
pub enum PwmTimer {
    Eight(TimerNo8),
    Sixteen(TimerNo16),
}

/// How a digital pin gets its wave: from which timer, through which compare
/// output, and which serial unit is powered along with it.
#[derive(Clone, Copy, Debug, PartialEq, Eq, Structural)]
pub struct PwmRoute {
    pub timer: PwmTimer,
    pub output: PwmOutput,
    pub unit: Option<UsartNum>,
}

impl RefType {
    /// Content of the two reference-select bits.
    pub open spec fn spec_code(self) -> u8 {
        match self {
            RefType::DEFAULT => 0b01,
            RefType::INTERNAL1V1 => 0b10,
            RefType::INTERNAL2V56 => 0b11,
            RefType::EXTERNAL => 0b00,
        }
    }

    /// Content of the two reference-select bits.
    #[verifier::when_used_as_spec(spec_code)]
    pub fn code(self) -> (code: u8)
        ensures
            code == self.spec_code(),
            code <= 3,
    {
        match self {
            RefType::DEFAULT => 0b01,
            RefType::INTERNAL1V1 => 0b10,
            RefType::INTERNAL2V56 => 0b11,
            RefType::EXTERNAL => 0b00,
        }
    }
}

impl TimerNo8 {
    /// Content of the four low bits of control register B while the timer
    /// generates a wave: the clock selection.
    pub open spec fn spec_clock_code(self) -> u8 {
        match self {
            TimerNo8::Timer0 => 0b0011,
            TimerNo8::Timer2 => 0b0101,
        }
    }

    /// Content of the four low bits of control register B while the timer
    /// generates a wave: the clock selection.
    #[verifier::when_used_as_spec(spec_clock_code)]
    pub fn clock_code(self) -> (code: u8)
        ensures
            code == self.spec_clock_code(),
            code <= 15,
    {
        match self {
            TimerNo8::Timer0 => 0b0011,
            TimerNo8::Timer2 => 0b0101,
        }
    }
}

impl PwmOutput {
    /// Content of bits 4 to 7 of control register A of an eight-bit timer
    /// that drives this output.
    pub open spec fn spec_code8(self) -> u8 {
        match self {
            PwmOutput::A => 0b1000,
            _ => 0b0010,
        }
    }

    /// Content of bits 2 to 7 of control register A of a sixteen-bit timer
    /// that drives this output.
    pub open spec fn spec_code16(self) -> u8 {
        match self {
            PwmOutput::A => 0b10_0000,
            PwmOutput::B => 0b00_1000,
            PwmOutput::C => 0b00_0010,
        }
    }

    /// Content of bits 4 to 7 of control register A of an eight-bit timer
    /// that drives this output.
    #[verifier::when_used_as_spec(spec_code8)]
    pub fn code8(self) -> (code: u8)
        ensures
            code == self.spec_code8(),
            code <= 15,
    {
        match self {
            PwmOutput::A => 0b1000,
            _ => 0b0010,
        }
    }

    /// Content of bits 2 to 7 of control register A of a sixteen-bit timer
    /// that drives this output.
    #[verifier::when_used_as_spec(spec_code16)]
    pub fn code16(self) -> (code: u8)
        ensures
            code == self.spec_code16(),
            code <= 63,
    {
        match self {
            PwmOutput::A => 0b10_0000,
            PwmOutput::B => 0b00_1000,
            PwmOutput::C => 0b00_0010,
        }
    }
}

/// The prescaler code of a division factor, for the factors that the
/// converter offers.
pub open spec fn spec_prescaler_code(factor: u8) -> Option<u8> {
    if factor == 2 {
        Some(0b000u8)
    } else if factor == 4 {
        Some(0b010u8)
    } else if factor == 8 {
        Some(0b011u8)
    } else if factor == 16 {
        Some(0b100u8)
    } else if factor == 32 {
        Some(0b101u8)
    } else if factor == 64 {
        Some(0b110u8)
    } else if factor == 128 {
        Some(0b111u8)
    } else {
        None
    }
}

/// The prescaler code of a division factor, for the factors that the
/// converter offers.
#[verifier::when_used_as_spec(spec_prescaler_code)]
pub fn prescaler_code(factor: u8) -> (code: Option<u8>)
    ensures
        code == spec_prescaler_code(factor),
        code is Some ==> code->Some_0 <= 7,
{
    match factor {
        2 => Some(0b000),
        4 => Some(0b010),
        8 => Some(0b011),
        16 => Some(0b100),
        32 => Some(0b101),
        64 => Some(0b110),
        128 => Some(0b111),
        _ => None,
    }
}

/// A route from its three parts.
pub open spec fn route(timer: PwmTimer, output: PwmOutput, unit: Option<UsartNum>) -> Option<
    PwmRoute,
> {
    Some(PwmRoute { timer, output, unit })
}

/// The route of the wave for the pins that can carry one: 2 to 13 and 44
/// to 46.
pub open spec fn spec_pwm_route(pin: usize) -> Option<PwmRoute> {
    if pin == 4 {
        route(PwmTimer::Eight(TimerNo8::Timer0), PwmOutput::B, None)
    } else if pin == 13 {
        route(PwmTimer::Eight(TimerNo8::Timer0), PwmOutput::A, None)
    } else if pin == 9 {
        route(PwmTimer::Eight(TimerNo8::Timer2), PwmOutput::B, Some(UsartNum::usart0))
    } else if pin == 10 {
        route(PwmTimer::Eight(TimerNo8::Timer2), PwmOutput::A, Some(UsartNum::usart0))
    } else if pin == 12 {
        route(PwmTimer::Sixteen(TimerNo16::Timer1), PwmOutput::B, Some(UsartNum::usart0))
    } else if pin == 11 {
        route(PwmTimer::Sixteen(TimerNo16::Timer1), PwmOutput::A, Some(UsartNum::usart0))
    } else if pin == 2 {
        route(PwmTimer::Sixteen(TimerNo16::Timer3), PwmOutput::B, Some(UsartNum::usart1))
    } else if pin == 5 {
        route(PwmTimer::Sixteen(TimerNo16::Timer3), PwmOutput::A, Some(UsartNum::usart1))
    } else if pin == 3 {
        route(PwmTimer::Sixteen(TimerNo16::Timer3), PwmOutput::C, Some(UsartNum::usart1))
    } else if pin == 7 {
        route(PwmTimer::Sixteen(TimerNo16::Timer4), PwmOutput::B, Some(UsartNum::usart1))
    } else if pin == 6 {
        route(PwmTimer::Sixteen(TimerNo16::Timer4), PwmOutput::A, Some(UsartNum::usart1))
    } else if pin == 8 {
        route(PwmTimer::Sixteen(TimerNo16::Timer4), PwmOutput::C, Some(UsartNum::usart1))
    } else if pin == 45 {
        route(PwmTimer::Sixteen(TimerNo16::Timer5), PwmOutput::B, Some(UsartNum::usart1))
    } else if pin == 46 {
        route(PwmTimer::Sixteen(TimerNo16::Timer5), PwmOutput::A, Some(UsartNum::usart1))
    } else if pin == 44 {
        route(PwmTimer::Sixteen(TimerNo16::Timer5), PwmOutput::C, Some(UsartNum::usart1))
    } else {
        None
    }
}

/// The route of the wave for the pins that can carry one: 2 to 13 and 44
/// to 46.
#[verifier::when_used_as_spec(spec_pwm_route)]
pub fn pwm_route(pin: usize) -> (route: Option<PwmRoute>)
    ensures
        route == spec_pwm_route(pin),
        route is Some && route->Some_0.timer is Eight ==> route->Some_0.output != PwmOutput::C,
{
    let (timer, output, unit) = match pin {
        4 => (PwmTimer::Eight(TimerNo8::Timer0), PwmOutput::B, None),
        13 => (PwmTimer::Eight(TimerNo8::Timer0), PwmOutput::A, None),
        9 => (PwmTimer::Eight(TimerNo8::Timer2), PwmOutput::B, Some(UsartNum::usart0)),
        10 => (PwmTimer::Eight(TimerNo8::Timer2), PwmOutput::A, Some(UsartNum::usart0)),
        12 => (PwmTimer::Sixteen(TimerNo16::Timer1), PwmOutput::B, Some(UsartNum::usart0)),
        11 => (PwmTimer::Sixteen(TimerNo16::Timer1), PwmOutput::A, Some(UsartNum::usart0)),
        2 => (PwmTimer::Sixteen(TimerNo16::Timer3), PwmOutput::B, Some(UsartNum::usart1)),
        5 => (PwmTimer::Sixteen(TimerNo16::Timer3), PwmOutput::A, Some(UsartNum::usart1)),
        3 => (PwmTimer::Sixteen(TimerNo16::Timer3), PwmOutput::C, Some(UsartNum::usart1)),
        7 => (PwmTimer::Sixteen(TimerNo16::Timer4), PwmOutput::B, Some(UsartNum::usart1)),
        6 => (PwmTimer::Sixteen(TimerNo16::Timer4), PwmOutput::A, Some(UsartNum::usart1)),
        8 => (PwmTimer::Sixteen(TimerNo16::Timer4), PwmOutput::C, Some(UsartNum::usart1)),
        45 => (PwmTimer::Sixteen(TimerNo16::Timer5), PwmOutput::B, Some(UsartNum::usart1)),
        46 => (PwmTimer::Sixteen(TimerNo16::Timer5), PwmOutput::A, Some(UsartNum::usart1)),
        44 => (PwmTimer::Sixteen(TimerNo16::Timer5), PwmOutput::C, Some(UsartNum::usart1)),
        _ => {
            return None;
        },
    };
    Some(PwmRoute { timer, output, unit })
}

/// The analog comparator's control and status register.
pub struct AnalogComparator {
    acsr: Register,
}

impl View for AnalogComparator {
    type V = u8;

    closed spec fn view(&self) -> u8 {
        self.acsr@
    }
}

impl AnalogComparator {
    /// A comparator with its register cleared.
    pub fn new() -> (comparator: AnalogComparator)
        ensures
            comparator@ == 0,
    {
        AnalogComparator { acsr: Register::new(0) }
    }
}

/// The content of the converter's registers.
#[derive(Clone, Copy, Debug, PartialEq, Eq, Structural)]
pub struct AnalogState {
    pub adcl: u8,
    pub adch: u8,
    pub adcsra: u8,
    pub adcsrb: u8,
    pub admux: u8,
    pub didr2: u8,
    pub didr0: u8,
    pub didr1: u8,
}

/// The low three bits of the channel of an analog pin.
pub open spec fn channel_code(pin: u32) -> u8 {
    (pin % 8) as u8
}

/// Whether an analog pin is one of the upper eight, which are selected by
/// the high channel bit and have their input buffers in the second
/// digital-input-disable register.
pub open spec fn upper_bank(pin: u32) -> bool {
    pin >= 8
}

/// The bit that switches off the digital input buffer of an analog pin, in
/// the digital-input-disable register of its bank.
pub open spec fn input_disable_bit(pin: u32) -> u8 {
    if pin == 11 {
        4
    } else {
        (pin % 8) as u8
    }
}

impl AnalogState {
    /// The ten-bit result of the last conversion.
    pub open spec fn conversion(self) -> int {
        self.adcl + 256 * self.adch
    }

    /// This state with the reference of `reftype` selected.
    pub open spec fn with_reference(self, reftype: RefType) -> AnalogState {
        AnalogState { admux: with_field(self.admux, 6, 8, reftype.spec_code()), ..self }
    }

    /// This state with the prescaler code `code` selected.
    pub open spec fn with_prescaler(self, code: u8) -> AnalogState {
        AnalogState { adcsra: with_field(self.adcsra, 0, 3, code), ..self }
    }

    /// This state with `pin` selected as the channel and the digital input
    /// buffer of the pin switched off.
    pub open spec fn with_channel(self, pin: u32) -> AnalogState {
        AnalogState {
            admux: with_field(self.admux, 0, 3, channel_code(pin)),
            adcsrb: with_bit(self.adcsrb, MUX5, upper_bank(pin)),
            didr0: if upper_bank(pin) {
                self.didr0
            } else {
                with_bit(self.didr0, input_disable_bit(pin), true)
            },
            didr2: if upper_bank(pin) {
                with_bit(self.didr2, input_disable_bit(pin), true)
            } else {
                self.didr2
            },
            ..self
        }
    }

    /// This state after `pin` was sampled: the channel selected, and of
    /// control and status register A the start bit set, bit 3 and the
    /// conversion flag kept, and the enable, auto-trigger and prescaler
    /// bits clear.
    pub open spec fn sampled(self, pin: u32) -> AnalogState {
        AnalogState { adcsra: (self.adcsra & 0b0001_1000) | 0b0100_0000, ..self.with_channel(pin) }
    }
}

/// The analog-to-digital converter.
pub struct Analog {
    adcl: Register,
    adch: Register,
    adcsra: Register,
    adcsrb: Register,
    admux: Register,
    didr2: Register,
    didr0: Register,
    didr1: Register,
}

impl View for Analog {
    type V = AnalogState;

    closed spec fn view(&self) -> AnalogState {
        AnalogState {
            adcl: self.adcl@,
            adch: self.adch@,
            adcsra: self.adcsra@,
            adcsrb: self.adcsrb@,
            admux: self.admux@,
            didr2: self.didr2@,
            didr0: self.didr0@,
            didr1: self.didr1@,
        }
    }
}

impl Analog {
    /// A converter with every register cleared.
    pub fn new() -> (analog: Analog)
        ensures
            analog@ == (AnalogState {
                adcl: 0,
                adch: 0,
                adcsra: 0,
                adcsrb: 0,
                admux: 0,
                didr2: 0,
                didr0: 0,
                didr1: 0,
            }),
    {
        Analog {
            adcl: Register::new(0),
            adch: Register::new(0),
            adcsra: Register::new(0),
            adcsrb: Register::new(0),
            admux: Register::new(0),
            didr2: Register::new(0),
            didr0: Register::new(0),
            didr1: Register::new(0),
        }
    }

    /// A converter whose registers hold the given content.
    pub fn from_state(state: AnalogState) -> (analog: Analog)
        ensures
            analog@ == state,
    {
        Analog {
            adcl: Register::new(state.adcl),
            adch: Register::new(state.adch),
            adcsra: Register::new(state.adcsra),
            adcsrb: Register::new(state.adcsrb),
            admux: Register::new(state.admux),
            didr2: Register::new(state.didr2),
            didr0: Register::new(state.didr0),
            didr1: Register::new(state.didr1),
        }
    }

    /// The content of the converter's registers.
    pub fn state(&self) -> (state: AnalogState)
        ensures
            state == self@,
    {
        AnalogState {
            adcl: self.adcl.read(),
            adch: self.adch.read(),
            adcsra: self.adcsra.read(),
            adcsrb: self.adcsrb.read(),
            admux: self.admux.read(),
            didr2: self.didr2.read(),
            didr0: self.didr0.read(),
            didr1: self.didr1.read(),
        }
    }

    /// Enables the converter.
    pub fn adc_enable(&mut self)
        ensures
            final(self)@ == (AnalogState {
                adcsra: with_bit(old(self)@.adcsra, ADEN, true),
                ..old(self)@
            }),
    {
        self.adcsra.update_bit(ADEN, true);
    }

    /// Starts a conversion.
    pub fn adc_con_start(&mut self)
        ensures
            final(self)@ == (AnalogState {
                adcsra: with_bit(old(self)@.adcsra, ADSC, true),
                ..old(self)@
            }),
    {
        self.adcsra.update_bit(ADSC, true);
    }

    /// Stops auto triggering.
    pub fn adc_auto_trig(&mut self)
        ensures
            final(self)@ == (AnalogState {
                adcsra: with_bit(old(self)@.adcsra, ADATE, false),
                ..old(self)@
            }),
    {
        self.adcsra.update_bit(ADATE, false);
    }

    /// Disables the converter.
    pub fn adc_disable(&mut self)
        ensures
            final(self)@ == (AnalogState {
                adcsra: with_bit(old(self)@.adcsra, ADEN, false),
                ..old(self)@
            }),
    {
        self.adcsra.update_bit(ADEN, false);
    }

    /// Sets the converter's power-reduction bit.
    pub fn power_adc_enable(&mut self, power: &mut Power)
        ensures
            final(self)@ == old(self)@,
            final(power)@ == old(power)@.raised(PowerRegister::Prr0, PRADC),
    {
        power.set_bit(PowerRegister::Prr0, PRADC);
    }

    /// Clears the converter's power-reduction bit.
    pub fn power_adc_disable(&mut self, power: &mut Power)
        ensures
            final(self)@ == old(self)@,
            final(power)@ == old(power)@.cleared(PowerRegister::Prr0, PRADC),
    {
        power.clear_bit(PowerRegister::Prr0, PRADC);
    }

    /// Selects the division factor between the system clock and the
    /// converter's clock. The factor is one of 2, 4, 8, 16, 32, 64 and 128.
    pub fn analog_prescaler(&mut self, factor: u8)
        requires
            spec_prescaler_code(factor) is Some,
        ensures
            final(self)@ == old(self)@.with_prescaler(spec_prescaler_code(factor)->Some_0),
    {
        proof {
            lemma_field_limits();
        }
        match prescaler_code(factor) {
            Some(code) => {
                self.adcsra.update_bits(0, 3, code);
            },
            None => {},
        }
    }
}

/// Selects the voltage reference of the converter.
pub fn analog_reference(analog: &mut Analog, reftype: RefType)
    ensures
        final(analog)@ == old(analog)@.with_reference(reftype),
{
    proof {
        lemma_field_limits();
    }
    analog.admux.update_bits(6, 8, reftype.code());
}

/// What the writes of a sampling leave in control and status register A.
proof fn lemma_sampling_control(adcsra: u8)
    by (bit_vector)
    ensures
        with_bit(
            with_bit(
                with_bit(with_field(with_bit(adcsra, 7, true), 0, 3, 0), 5, false),
                6,
                true,
            ),
            7,
            false,
        ) == (adcsra & 0b0001_1000) | 0b0100_0000,
{
}

/// The two result registers, written into bits 0 to 7 and 8 to 9 of a
/// cleared word, give the ten-bit result.
proof fn lemma_conversion_word(low: u8, high: u8)
    by (bit_vector)
    requires
        high <= 3,
    ensures
        word_field_limit(8) == 255,
        word_field_limit(2) == 3,
        with_word_field(with_word_field(0, 0, 8, low as u32), 8, 10, high as u32) == low + 256
            * high,
{
}

impl AnalogPin {
    /// Samples the pin. The pin is pointed inward, the converter is powered,
    /// enabled, clocked at half the system clock and taken off auto
    /// triggering, the pin is selected as channel and a conversion is
    /// started. The result is what the two result registers hold; the
    /// converter is disabled again once it is read. The caller sees to it
    /// that the pin is one of the sixteen analog pins, that the conversion
    /// flag is clear and that the result registers hold no more than ten
    /// bits.
    pub fn read(&mut self, analog: &mut Analog, power: &mut Power) -> (sample: u32)
        requires
            old(self).pinno < 16,
            !bit_is_set(old(analog)@.adcsra, ADIF),
            old(analog)@.adch <= 3,
        ensures
            sample == old(analog)@.conversion(),
            final(analog)@ == old(analog)@.sampled(old(self).pinno),
            final(power)@ == old(power)@.cleared(PowerRegister::Prr0, PRADC),
            final(self).pin@ == Direction::Input,
            final(self).pinno == old(self).pinno,
    {
        proof {
            lemma_field_limits();
            lemma_sampling_control(old(analog)@.adcsra);
            lemma_conversion_word(old(analog)@.adcl, old(analog)@.adch);
        }
        self.pin.input();
        let pin: u32 = self.pinno;
        analog.power_adc_disable(power);
        analog.adc_enable();
        analog.analog_prescaler(2);
        analog.adc_auto_trig();
        let upper: bool = pin >= 8;
        let buffer: u8 = if pin == 11 {
            4
        } else {
            (pin % 8) as u8
        };
        analog.admux.update_bits(0, 3, (pin % 8) as u8);
        if upper {
            analog.didr2.update_bit(buffer, true);
        } else {
            analog.didr0.update_bit(buffer, true);
        }
        analog.adcsrb.update_bit(MUX5, upper);
        analog.adc_con_start();
        let mut a: u32 = 0;
        a = set_word_bits(a, 0, 8, analog.adcl.read() as u32);
        a = set_word_bits(a, 8, 10, analog.adch.read() as u32);
        analog.adc_disable();
        a
    }
}

/// The content of an eight-bit timer's registers.
#[derive(Clone, Copy, Debug, PartialEq, Eq, Structural)]
pub struct Timer8State {
    pub timer: TimerNo8,
    pub tccra: u8,
    pub tccrb: u8,
    pub ocra: u8,
    pub ocrb: u8,
}

impl Timer8State {
    /// This state with the timer generating a wave of duty `value` on
    /// `output`: fast PWM, the timer's clock selected, the output cleared on
    /// a compare match.
    pub open spec fn with_pwm(self, output: PwmOutput, value: u8) -> Timer8State {
        Timer8State {
            tccra: with_field(with_field(self.tccra, 0, 2, 0b11), 4, 8, output.spec_code8()),
            tccrb: with_field(self.tccrb, 0, 4, self.timer.spec_clock_code()),
            ocra: if output == PwmOutput::A {
                value
            } else {
                self.ocra
            },
            ocrb: if output == PwmOutput::A {
                self.ocrb
            } else {
                value
            },
            ..self
        }
    }
}

/// An eight-bit timer.
pub struct Timer8 {
    timer: TimerNo8,
    tccra: Register,
    tccrb: Register,
    ocra: Register,
    ocrb: Register,
}

impl View for Timer8 {
    type V = Timer8State;

    closed spec fn view(&self) -> Timer8State {
        Timer8State {
            timer: self.timer,
            tccra: self.tccra@,
            tccrb: self.tccrb@,
            ocra: self.ocra@,
            ocrb: self.ocrb@,
        }
    }
}

impl Timer8 {
    /// The timer `timer` with every register cleared.
    pub fn new(timer: TimerNo8) -> (made: Timer8)
        ensures
            made@ == (Timer8State { timer, tccra: 0, tccrb: 0, ocra: 0, ocrb: 0 }),
    {
        Timer8 {
            timer,
            tccra: Register::new(0),
            tccrb: Register::new(0),
            ocra: Register::new(0),
            ocrb: Register::new(0),
        }
    }

    /// The content of the timer's registers.
    pub fn state(&self) -> (state: Timer8State)
        ensures
            state == self@,
    {
        Timer8State {
            timer: self.timer,
            tccra: self.tccra.read(),
            tccrb: self.tccrb.read(),
            ocra: self.ocra.read(),
            ocrb: self.ocrb.read(),
        }
    }

    /// Makes the timer generate a wave of duty `value` on `output`, which
    /// is A or B.
    pub fn pwm(&mut self, output: PwmOutput, value: u8)
        requires
            output != PwmOutput::C,
        ensures
            final(self)@ == old(self)@.with_pwm(output, value),
    {
        proof {
            lemma_field_limits();
        }
        self.tccra.update_bits(0, 2, 0b11);
        self.tccrb.update_bits(0, 4, self.timer.clock_code());
        self.tccra.update_bits(4, 8, output.code8());
        match output {
            PwmOutput::A => self.ocra.write(value),
            _ => self.ocrb.write(value),
        }
    }
}

/// The content of a sixteen-bit timer's registers: the two control
/// registers and the low bytes of the three compare registers.
#[derive(Clone, Copy, Debug, PartialEq, Eq, Structural)]
pub struct Timer16State {
    pub timer: TimerNo16,
    pub tccra: u8,
    pub tccrb: u8,
    pub ocral: u8,
    pub ocrbl: u8,
    pub ocrcl: u8,
}

impl Timer16State {
    /// This state with the timer generating a wave of duty `value` on
    /// `output`: eight-bit phase-correct PWM, the system clock divided by
    /// 64, the output cleared on a compare match.
    pub open spec fn with_pwm(self, output: PwmOutput, value: u8) -> Timer16State {
        Timer16State {
            tccra: with_field(with_field(self.tccra, 0, 2, 0b01), 2, 8, output.spec_code16()),
            tccrb: with_field(self.tccrb, 0, 5, 0b0_0011),
            ocral: if output == PwmOutput::A {
                value
            } else {
                self.ocral
            },
            ocrbl: if output == PwmOutput::B {
                value
            } else {
                self.ocrbl
            },
            ocrcl: if output == PwmOutput::C {
                value
            } else {
                self.ocrcl
            },
            ..self
        }
    }
}

/// A sixteen-bit timer.
pub struct Timer16 {
    timer: TimerNo16,
    tccra: Register,
    tccrb: Register,
    ocral: Register,
    ocrbl: Register,
    ocrcl: Register,
}

impl View for Timer16 {
    type V = Timer16State;

    closed spec fn view(&self) -> Timer16State {
        Timer16State {
            timer: self.timer,
            tccra: self.tccra@,
            tccrb: self.tccrb@,
            ocral: self.ocral@,
            ocrbl: self.ocrbl@,
            ocrcl: self.ocrcl@,
        }
    }
}

impl Timer16 {
    /// The timer `timer` with every register cleared.
    pub fn new(timer: TimerNo16) -> (made: Timer16)
        ensures
            made@ == (Timer16State { timer, tccra: 0, tccrb: 0, ocral: 0, ocrbl: 0, ocrcl: 0 }),
    {
        Timer16 {
            timer,
            tccra: Register::new(0),
            tccrb: Register::new(0),
            ocral: Register::new(0),
            ocrbl: Register::new(0),
            ocrcl: Register::new(0),
        }
    }

    /// The content of the timer's registers.
    pub fn state(&self) -> (state: Timer16State)
        ensures
            state == self@,
    {
        Timer16State {
            timer: self.timer,
            tccra: self.tccra.read(),
            tccrb: self.tccrb.read(),
            ocral: self.ocral.read(),
            ocrbl: self.ocrbl.read(),
            ocrcl: self.ocrcl.read(),
        }
    }

    /// Makes the timer generate a wave of duty `value` on `output`.
    pub fn pwm(&mut self, output: PwmOutput, value: u8)
        ensures
            final(self)@ == old(self)@.with_pwm(output, value),
    {
        proof {
            lemma_field_limits();
        }
        self.tccra.update_bits(0, 2, 0b01);
        self.tccrb.update_bits(0, 5, 0b0_0011);
        self.tccra.update_bits(2, 8, output.code16());
        match output {
            PwmOutput::A => self.ocral.write(value),
            PwmOutput::B => self.ocrbl.write(value),
            PwmOutput::C => self.ocrcl.write(value),
        }
    }
}

/// The content of the registers of all six timers.
#[derive(Clone, Copy, Debug, PartialEq, Eq, Structural)]
pub struct TimersState {
    pub timer0: Timer8State,
    pub timer2: Timer8State,
    pub timer1: Timer16State,
    pub timer3: Timer16State,
    pub timer4: Timer16State,
    pub timer5: Timer16State,
}

impl TimersState {
    /// This state with the timer of `route` generating a wave of duty
    /// `value` on the output of `route`, and every other timer as it was.
    pub open spec fn with_pwm(self, route: PwmRoute, value: u8) -> TimersState {
        match route.timer {
            PwmTimer::Eight(TimerNo8::Timer0) => TimersState {
                timer0: self.timer0.with_pwm(route.output, value),
                ..self
            },
            PwmTimer::Eight(TimerNo8::Timer2) => TimersState {
                timer2: self.timer2.with_pwm(route.output, value),
                ..self
            },
            PwmTimer::Sixteen(TimerNo16::Timer1) => TimersState {
                timer1: self.timer1.with_pwm(route.output, value),
                ..self
            },
            PwmTimer::Sixteen(TimerNo16::Timer3) => TimersState {
                timer3: self.timer3.with_pwm(route.output, value),
                ..self
            },
            PwmTimer::Sixteen(TimerNo16::Timer4) => TimersState {
                timer4: self.timer4.with_pwm(route.output, value),
                ..self
            },
            PwmTimer::Sixteen(TimerNo16::Timer5) => TimersState {
                timer5: self.timer5.with_pwm(route.output, value),
                ..self
            },
        }
    }
}

/// The six timers.
pub struct Timers {
    pub timer0: Timer8,
    pub timer2: Timer8,
    pub timer1: Timer16,
    pub timer3: Timer16,
    pub timer4: Timer16,
    pub timer5: Timer16,
}

impl View for Timers {
    type V = TimersState;

    open spec fn view(&self) -> TimersState {
        TimersState {
            timer0: self.timer0@,
            timer2: self.timer2@,
            timer1: self.timer1@,
            timer3: self.timer3@,
            timer4: self.timer4@,
            timer5: self.timer5@,
        }
    }
}

impl Timers {
    /// The six timers, each with every register cleared.
    pub fn new() -> (timers: Timers)
        ensures
            timers@.timer0 == (Timer8State {
                timer: TimerNo8::Timer0,
                tccra: 0,
                tccrb: 0,
                ocra: 0,
                ocrb: 0,
            }),
            timers@.timer2 == (Timer8State { timer: TimerNo8::Timer2, ..timers@.timer0 }),
            timers@.timer1 == (Timer16State {
                timer: TimerNo16::Timer1,
                tccra: 0,
                tccrb: 0,
                ocral: 0,
                ocrbl: 0,
                ocrcl: 0,
            }),
            timers@.timer3 == (Timer16State { timer: TimerNo16::Timer3, ..timers@.timer1 }),
            timers@.timer4 == (Timer16State { timer: TimerNo16::Timer4, ..timers@.timer1 }),
            timers@.timer5 == (Timer16State { timer: TimerNo16::Timer5, ..timers@.timer1 }),
    {
        Timers {
            timer0: Timer8::new(TimerNo8::Timer0),
            timer2: Timer8::new(TimerNo8::Timer2),
            timer1: Timer16::new(TimerNo16::Timer1),
            timer3: Timer16::new(TimerNo16::Timer3),
            timer4: Timer16::new(TimerNo16::Timer4),
            timer5: Timer16::new(TimerNo16::Timer5),
        }
    }

    /// The content of the registers of all six timers.
    pub fn state(&self) -> (state: TimersState)
        ensures
            state == self@,
    {
        TimersState {
            timer0: self.timer0.state(),
            timer2: self.timer2.state(),
            timer1: self.timer1.state(),
            timer3: self.timer3.state(),
            timer4: self.timer4.state(),
            timer5: self.timer5.state(),
        }
    }
}

/// The power-reduction registers after the serial unit of a route, if it has
/// one, is powered.
pub open spec fn route_powered(power: PowerState, route: PwmRoute) -> PowerState {
    match route.unit {
        Some(unit) => powered(power, unit),
        None => power,
    }
}

impl DigitalPin {
    /// Puts a wave of duty `value1` on the pin, which is one of 2 to 13 and
    /// 44 to 46: points the pin outward, powers the serial unit of the pin's
    /// route where it has one, and makes the timer of the route generate the
    /// wave on the route's output.
    pub fn write(&mut self, timers: &mut Timers, power: &mut Power, value1: u8)
        requires
            spec_pwm_route(old(self).pinno) is Some,
        ensures
            final(self).pin@ == Direction::Output,
            final(self).pinno == old(self).pinno,
            final(timers)@ == old(timers)@.with_pwm(
                spec_pwm_route(old(self).pinno)->Some_0,
                value1,
            ),
            final(power)@ == route_powered(old(power)@, spec_pwm_route(old(self).pinno)->Some_0),
    {
        self.pin.output();
        match pwm_route(self.pinno) {
            Some(route) => {
                match route.unit {
                    Some(unit) => {
                        power.clear_bit(unit.power_register(), unit.power_bit());
                    },
                    None => {},
                }
                let output: PwmOutput = route.output;
                match route.timer {
                    PwmTimer::Eight(TimerNo8::Timer0) => timers.timer0.pwm(output, value1),
                    PwmTimer::Eight(TimerNo8::Timer2) => timers.timer2.pwm(output, value1),
                    PwmTimer::Sixteen(TimerNo16::Timer1) => timers.timer1.pwm(output, value1),
                    PwmTimer::Sixteen(TimerNo16::Timer3) => timers.timer3.pwm(output, value1),
                    PwmTimer::Sixteen(TimerNo16::Timer4) => timers.timer4.pwm(output, value1),
                    PwmTimer::Sixteen(TimerNo16::Timer5) => timers.timer5.pwm(output, value1),
                }
            },
            None => {},
        }
    }
}

/// After a pin is sampled the converter is disabled with a conversion
/// started, the pin's channel is selected, and the voltage reference is the
/// one that was selected before.
pub proof fn lemma_sampled_converter(state: AnalogState, pin: u32)
    requires
        pin < 16,
    ensures
        !bit_is_set(state.sampled(pin).adcsra, ADEN),
        bit_is_set(state.sampled(pin).adcsra, ADSC),
        field(state.sampled(pin).admux, 0, 3) == pin % 8,
        bit_is_set(state.sampled(pin).adcsrb, MUX5) == (pin >= 8),
        field(state.sampled(pin).admux, 6, 8) == field(state.admux, 6, 8),
        state.sampled(pin).conversion() == state.conversion(),
{
    lemma_field_limits();
    lemma_sampled_control_bits(state.adcsra);
    lemma_with_field_reads(state.admux, 0, 3, channel_code(pin));
    lemma_with_field_keeps_field(state.admux, 0, 3, channel_code(pin), 6, 8);
    lemma_with_bit_reads(state.adcsrb, MUX5, upper_bank(pin), MUX5);
}

/// The enable bit is clear and the start bit set in what a sampling leaves
/// in control and status register A.
proof fn lemma_sampled_control_bits(adcsra: u8)
    by (bit_vector)
    ensures
        !bit_is_set((adcsra & 0b0001_1000) | 0b0100_0000, 7),
        bit_is_set((adcsra & 0b0001_1000) | 0b0100_0000, 6),
{
}

} // verus!
