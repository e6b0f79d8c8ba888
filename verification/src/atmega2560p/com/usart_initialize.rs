//! Configuration of the four serial units (USART0 to USART3): operating
//! mode, clock divisor and frame format, applied under the interrupt guard
//! once the line is idle.

use crate::atmega2560p::hal::interrupts::{lemma_guard_is_balanced, GlobalInterrupts};
use crate::atmega2560p::hal::port::{Direction, Gpio, GpioState, PortName};
use crate::atmega2560p::hal::power::{Power, PowerRegister, PowerState};
use crate::atmega2560p::hal::{Hal, HalState};
use crate::bits::{
    bit_is_set, field, get_bit, lemma_field_limits, lemma_with_bit_commutes,
    lemma_with_bit_keeps_field, lemma_with_bit_reads, lemma_with_field_commutes,
    lemma_with_field_keeps_bit, lemma_with_field_keeps_field, lemma_with_field_reads,
    lemma_with_whole_byte, with_bit, with_field,
};
use crate::register::Register;
use vstd::prelude::*;

verus! {

/// Frequency of the system oscillator in hertz.
pub const OSCILLATOR_HZ: u32 = 1_000_000;

/// Largest value that the twelve divisor bits can hold.
pub const MAX_DIVISOR: u16 = 4095;

/// Number of status polls that a unit allows before it gives up waiting for
/// the line to fall idle, unless told otherwise.
pub const DEFAULT_POLL_LIMIT: u32 = 100_000;

/// The serial units of the chip.
#[allow(non_camel_case_types)]
#[derive(Clone, Copy, Debug, PartialEq, Eq, Structural)]
pub enum UsartNum {
    usart0,
    usart1,
    usart2,
    usart3,
}

/// Operating modes of a serial unit.
#[allow(non_camel_case_types)]
#[derive(Clone, Copy, Debug, PartialEq, Eq, Structural)]
pub enum UsartModes {
    norm_async,
    dou_async,
    master_sync,
    slave_sync,
}

/// Parity modes of a frame.
#[allow(non_camel_case_types)]
#[derive(Clone, Copy, Debug, PartialEq, Eq, Structural)]
pub enum UsartParity {
    no,
    even,
    odd,
}

/// Number of data bits in a frame.
#[allow(non_camel_case_types)]
#[derive(Clone, Copy, Debug, PartialEq, Eq, Structural)]
pub enum UsartDataSize {
    five,
    six,
    seven,
    eight,
    nine,
}

/// Number of stop bits in a frame.
#[allow(non_camel_case_types)]
#[derive(Clone, Copy, Debug, PartialEq, Eq, Structural)]
pub enum UsartStop {
    one,
    two,
}

/// Clock edge on which a synchronous unit changes its output.
#[allow(non_camel_case_types)]
#[derive(Clone, Copy, Debug, PartialEq, Eq, Structural)]
pub enum UsartPolarity {
    output_rise,
    input_rise,
}

/// Why a unit could not be configured.
#[derive(Clone, Copy, Debug, PartialEq, Eq, Structural)]
pub enum ConfigError {
    /// The baud rate needs a divisor that twelve bits cannot hold.
    UnsupportedDivisor,
    /// The number or address names no serial unit. A `UsartNum` always names
    /// one, so only the conversions from numbers report this.
    InvalidUnit,
    /// The line did not fall idle within the unit's poll limit. Waiting is
    /// bounded on purpose: a line that stays busy is reported, not waited
    /// for without end.
    Blocked,
}

impl UsartNum {
    /// Position of the unit among the serial units.
    pub open spec fn spec_ordinal(self) -> u8 {
        match self {
            UsartNum::usart0 => 0,
            UsartNum::usart1 => 1,
            UsartNum::usart2 => 2,
            UsartNum::usart3 => 3,
        }
    }

    /// Address of the first register of the unit.
    pub open spec fn spec_base_address(self) -> u16 {
        match self {
            UsartNum::usart0 => 0xC0,
            UsartNum::usart1 => 0xC8,
            UsartNum::usart2 => 0xD0,
            UsartNum::usart3 => 0x130,
        }
    }

    /// The port that carries the unit's clock, transmit and receive lines.
    pub open spec fn spec_port(self) -> PortName {
        match self {
            UsartNum::usart0 => PortName::E,
            UsartNum::usart1 => PortName::D,
            UsartNum::usart2 => PortName::H,
            UsartNum::usart3 => PortName::J,
        }
    }

    /// Pin of the external clock line on the unit's port.
    pub open spec fn spec_xck(self) -> u8 {
        match self {
            UsartNum::usart1 => 5,
            _ => 2,
        }
    }

    /// Pin of the transmit line on the unit's port.
    pub open spec fn spec_td(self) -> u8 {
        match self {
            UsartNum::usart1 => 3,
            _ => 1,
        }
    }

    /// Pin of the receive line on the unit's port.
    pub open spec fn spec_rd(self) -> u8 {
        match self {
            UsartNum::usart1 => 2,
            _ => 0,
        }
    }

    /// The power-reduction register that holds the unit's bit.
    pub open spec fn spec_power_register(self) -> PowerRegister {
        match self {
            UsartNum::usart0 => PowerRegister::Prr0,
            _ => PowerRegister::Prr1,
        }
    }

    /// The unit's bit in its power-reduction register.
    pub open spec fn spec_power_bit(self) -> u8 {
        match self {
            UsartNum::usart0 => 1,
            UsartNum::usart1 => 0,
            UsartNum::usart2 => 1,
            UsartNum::usart3 => 2,
        }
    }

    /// Position of the unit among the serial units.
    #[verifier::when_used_as_spec(spec_ordinal)]
    pub fn ordinal(self) -> (n: u8)
        ensures
            n == self.spec_ordinal(),
    {
        match self {
            UsartNum::usart0 => 0,
            UsartNum::usart1 => 1,
            UsartNum::usart2 => 2,
            UsartNum::usart3 => 3,
        }
    }

    /// The unit at position `n`, if there is one.
    pub fn from_ordinal(n: u8) -> (unit: Result<UsartNum, ConfigError>)
        ensures
            n < 4 ==> unit is Ok && unit->Ok_0.spec_ordinal() == n,
            n >= 4 ==> unit == Err::<UsartNum, ConfigError>(ConfigError::InvalidUnit),
    {
        match n {
            0 => Ok(UsartNum::usart0),
            1 => Ok(UsartNum::usart1),
            2 => Ok(UsartNum::usart2),
            3 => Ok(UsartNum::usart3),
            _ => Err(ConfigError::InvalidUnit),
        }
    }

    /// Address of the first register of the unit.
    #[verifier::when_used_as_spec(spec_base_address)]
    pub fn base_address(self) -> (address: u16)
        ensures
            address == self.spec_base_address(),
    {
        match self {
            UsartNum::usart0 => 0xC0,
            UsartNum::usart1 => 0xC8,
            UsartNum::usart2 => 0xD0,
            UsartNum::usart3 => 0x130,
        }
    }

    /// The unit whose registers start at `address`, if there is one.
    pub fn from_address(address: u16) -> (unit: Result<UsartNum, ConfigError>)
        ensures
            match unit {
                Ok(found) => found.spec_base_address() == address,
                Err(error) => error == ConfigError::InvalidUnit && forall|any: UsartNum|
                    any.spec_base_address() != address,
            },
    {
        match address {
            0xC0 => Ok(UsartNum::usart0),
            0xC8 => Ok(UsartNum::usart1),
            0xD0 => Ok(UsartNum::usart2),
            0x130 => Ok(UsartNum::usart3),
            _ => Err(ConfigError::InvalidUnit),
        }
    }

    /// The port that carries the unit's clock, transmit and receive lines.
    #[verifier::when_used_as_spec(spec_port)]
    pub fn port(self) -> (port: PortName)
        ensures
            port == self.spec_port(),
    {
        match self {
            UsartNum::usart0 => PortName::E,
            UsartNum::usart1 => PortName::D,
            UsartNum::usart2 => PortName::H,
            UsartNum::usart3 => PortName::J,
        }
    }

    /// Pin of the external clock line on the unit's port.
    #[verifier::when_used_as_spec(spec_xck)]
    pub fn xck(self) -> (pin: u8)
        ensures
            pin == self.spec_xck(),
            pin < 8,
    {
        match self {
            UsartNum::usart1 => 5,
            _ => 2,
        }
    }

    /// Pin of the transmit line on the unit's port.
    #[verifier::when_used_as_spec(spec_td)]
    pub fn td(self) -> (pin: u8)
        ensures
            pin == self.spec_td(),
            pin < 8,
    {
        match self {
            UsartNum::usart1 => 3,
            _ => 1,
        }
    }

    /// Pin of the receive line on the unit's port.
    #[verifier::when_used_as_spec(spec_rd)]
    pub fn rd(self) -> (pin: u8)
        ensures
            pin == self.spec_rd(),
            pin < 8,
    {
        match self {
            UsartNum::usart1 => 2,
            _ => 0,
        }
    }

    /// The power-reduction register that holds the unit's bit.
    #[verifier::when_used_as_spec(spec_power_register)]
    pub fn power_register(self) -> (register: PowerRegister)
        ensures
            register == self.spec_power_register(),
    {
        match self {
            UsartNum::usart0 => PowerRegister::Prr0,
            _ => PowerRegister::Prr1,
        }
    }

    /// The unit's bit in its power-reduction register.
    #[verifier::when_used_as_spec(spec_power_bit)]
    pub fn power_bit(self) -> (bit: u8)
        ensures
            bit == self.spec_power_bit(),
            bit < 8,
    {
        match self {
            UsartNum::usart0 => 1,
            UsartNum::usart1 => 0,
            UsartNum::usart2 => 1,
            UsartNum::usart3 => 2,
        }
    }
}

/// Distinct units have distinct register files, and no two units share a
/// power-reduction bit.
pub proof fn lemma_units_are_distinct(a: UsartNum, b: UsartNum)
    requires
        a != b,
    ensures
        a.spec_ordinal() != b.spec_ordinal(),
        a.spec_base_address() != b.spec_base_address(),
        a.spec_port() != b.spec_port(),
        a.spec_power_register() != b.spec_power_register() || a.spec_power_bit()
            != b.spec_power_bit(),
{
}

impl UsartModes {
    /// Whether the unit is clocked synchronously.
    pub open spec fn spec_synchronous(self) -> bool {
        self == UsartModes::master_sync || self == UsartModes::slave_sync
    }

    /// Content of the two mode-select bits.
    pub open spec fn spec_select_code(self) -> u8 {
        if self.spec_synchronous() {
            1
        } else {
            0
        }
    }

    /// Whether the double-speed bit is set.
    pub open spec fn spec_double_speed(self) -> bool {
        self == UsartModes::dou_async
    }

    /// Number of oscillator cycles per divisor step and bit, for the modes
    /// that generate their own clock.
    pub open spec fn spec_multiplier(self) -> Option<u8> {
        match self {
            UsartModes::norm_async => Some(16u8),
            UsartModes::dou_async => Some(8u8),
            UsartModes::master_sync => Some(2u8),
            UsartModes::slave_sync => None,
        }
    }

    /// Direction of the external clock line, for the modes that use it.
    pub open spec fn spec_clock_direction(self) -> Option<Direction> {
        match self {
            UsartModes::master_sync => Some(Direction::Output),
            UsartModes::slave_sync => Some(Direction::Input),
            _ => None,
        }
    }

    /// Whether the unit is clocked synchronously.
    #[verifier::when_used_as_spec(spec_synchronous)]
    pub fn synchronous(self) -> (sync: bool)
        ensures
            sync == self.spec_synchronous(),
    {
        match self {
            UsartModes::master_sync | UsartModes::slave_sync => true,
            _ => false,
        }
    }

    /// Content of the two mode-select bits.
    #[verifier::when_used_as_spec(spec_select_code)]
    pub fn select_code(self) -> (code: u8)
        ensures
            code == self.spec_select_code(),
            code <= 1,
    {
        if self.synchronous() {
            1
        } else {
            0
        }
    }

    /// Whether the double-speed bit is set.
    #[verifier::when_used_as_spec(spec_double_speed)]
    pub fn double_speed(self) -> (double: bool)
        ensures
            double == self.spec_double_speed(),
    {
        match self {
            UsartModes::dou_async => true,
            _ => false,
        }
    }

    /// Number of oscillator cycles per divisor step and bit, for the modes
    /// that generate their own clock.
    #[verifier::when_used_as_spec(spec_multiplier)]
    pub fn multiplier(self) -> (multiplier: Option<u8>)
        ensures
            multiplier == self.spec_multiplier(),
            multiplier is Some ==> multiplier->Some_0 > 0,
    {
        match self {
            UsartModes::norm_async => Some(16),
            UsartModes::dou_async => Some(8),
            UsartModes::master_sync => Some(2),
            UsartModes::slave_sync => None,
        }
    }

    /// Direction of the external clock line, for the modes that use it.
    #[verifier::when_used_as_spec(spec_clock_direction)]
    pub fn clock_direction(self) -> (direction: Option<Direction>)
        ensures
            direction == self.spec_clock_direction(),
    {
        match self {
            UsartModes::master_sync => Some(Direction::Output),
            UsartModes::slave_sync => Some(Direction::Input),
            _ => None,
        }
    }
}

impl UsartDataSize {
    /// Number of data bits.
    pub open spec fn spec_data_bits(self) -> u8 {
        match self {
            UsartDataSize::five => 5,
            UsartDataSize::six => 6,
            UsartDataSize::seven => 7,
            UsartDataSize::eight => 8,
            UsartDataSize::nine => 9,
        }
    }

    /// Content of the two low data-size bits.
    pub open spec fn spec_low_code(self) -> u8 {
        match self {
            UsartDataSize::five => 0,
            UsartDataSize::six => 1,
            UsartDataSize::seven => 2,
            UsartDataSize::eight => 3,
            UsartDataSize::nine => 3,
        }
    }

    /// Content of the high data-size bit.
    pub open spec fn spec_high_bit(self) -> bool {
        self == UsartDataSize::nine
    }

    /// Number of data bits.
    #[verifier::when_used_as_spec(spec_data_bits)]
    pub fn data_bits(self) -> (bits: u8)
        ensures
            bits == self.spec_data_bits(),
    {
        match self {
            UsartDataSize::five => 5,
            UsartDataSize::six => 6,
            UsartDataSize::seven => 7,
            UsartDataSize::eight => 8,
            UsartDataSize::nine => 9,
        }
    }

    /// Content of the two low data-size bits.
    #[verifier::when_used_as_spec(spec_low_code)]
    pub fn low_code(self) -> (code: u8)
        ensures
            code == self.spec_low_code(),
            code <= 3,
    {
        match self {
            UsartDataSize::five => 0,
            UsartDataSize::six => 1,
            UsartDataSize::seven => 2,
            UsartDataSize::eight => 3,
            UsartDataSize::nine => 3,
        }
    }

    /// Content of the high data-size bit.
    #[verifier::when_used_as_spec(spec_high_bit)]
    pub fn high_bit(self) -> (high: bool)
        ensures
            high == self.spec_high_bit(),
    {
        match self {
            UsartDataSize::nine => true,
            _ => false,
        }
    }
}

impl UsartParity {
    /// Content of the two parity bits.
    pub open spec fn spec_code(self) -> u8 {
        match self {
            UsartParity::no => 0,
            UsartParity::even => 2,
            UsartParity::odd => 3,
        }
    }

    /// Content of the two parity bits.
    #[verifier::when_used_as_spec(spec_code)]
    pub fn code(self) -> (code: u8)
        ensures
            code == self.spec_code(),
            code <= 3,
    {
        match self {
            UsartParity::no => 0,
            UsartParity::even => 2,
            UsartParity::odd => 3,
        }
    }
}

impl UsartStop {
    /// Content of the stop-bit bit.
    pub open spec fn spec_bit(self) -> bool {
        self == UsartStop::two
    }

    /// Content of the stop-bit bit.
    #[verifier::when_used_as_spec(spec_bit)]
    pub fn bit(self) -> (bit: bool)
        ensures
            bit == self.spec_bit(),
    {
        match self {
            UsartStop::one => false,
            UsartStop::two => true,
        }
    }
}

impl UsartPolarity {
    /// Content of the clock-polarity bit of a synchronous unit.
    pub open spec fn spec_bit(self) -> bool {
        self == UsartPolarity::input_rise
    }

    /// Content of the clock-polarity bit of a synchronous unit.
    #[verifier::when_used_as_spec(spec_bit)]
    pub fn bit(self) -> (bit: bool)
        ensures
            bit == self.spec_bit(),
    {
        match self {
            UsartPolarity::output_rise => false,
            UsartPolarity::input_rise => true,
        }
    }
}

/// The three data-size bits tell the five sizes apart.
pub proof fn lemma_size_codes_are_distinct(a: UsartDataSize, b: UsartDataSize)
    requires
        a.spec_low_code() == b.spec_low_code(),
        a.spec_high_bit() == b.spec_high_bit(),
    ensures
        a == b,
{
}

/// The divisor that makes a unit run at `baud` from an oscillator of
/// `oscillator` hertz, when a bit takes `multiplier` cycles per divisor step.
pub open spec fn divisor(oscillator: int, multiplier: int, baud: int) -> int {
    oscillator / (multiplier * baud) - 1
}

/// Whether the twelve divisor bits can hold `value`.
pub open spec fn divisor_fits(value: int) -> bool {
    0 <= value <= MAX_DIVISOR
}

/// The divisor that `mode` needs for `baud` on this chip; `None` where the
/// mode takes its clock from outside.
pub open spec fn mode_divisor(mode: UsartModes, baud: int) -> Option<int> {
    match mode.spec_multiplier() {
        Some(multiplier) => Some(divisor(OSCILLATOR_HZ as int, multiplier as int, baud)),
        None => None,
    }
}

/// Whether `mode` can run at `baud`: it needs no divisor, or the divisor
/// fits.
pub open spec fn baud_supported(mode: UsartModes, baud: int) -> bool {
    match mode_divisor(mode, baud) {
        Some(value) => divisor_fits(value),
        None => true,
    }
}

/// Computes the clock divisor, or reports that twelve bits cannot hold it.
pub fn clock_divisor(oscillator: u32, multiplier: u8, baud: i64) -> (result: Result<
    u16,
    ConfigError,
>)
    requires
        multiplier > 0,
        baud > 0,
    ensures
        divisor_fits(divisor(oscillator as int, multiplier as int, baud as int)) ==> result == Ok::<
            u16,
            ConfigError,
        >(divisor(oscillator as int, multiplier as int, baud as int) as u16),
        !divisor_fits(divisor(oscillator as int, multiplier as int, baud as int)) ==> result
            == Err::<u16, ConfigError>(ConfigError::UnsupportedDivisor),
{
    if baud > oscillator as i64 {
        proof {
            lemma_fast_baud_has_no_divisor(oscillator as int, multiplier as int, baud as int);
        }
        return Err(ConfigError::UnsupportedDivisor);
    }
    assert(0 < (multiplier as int) * (baud as int) <= 255 * 0x1_0000_0000) by (nonlinear_arith)
        requires
            0 < multiplier <= 255,
            0 < baud <= 0xffff_ffff,
    ;
    let cycles: i64 = (multiplier as i64) * baud;
    let steps: i64 = (oscillator as i64) / cycles;
    if steps < 1 || steps > MAX_DIVISOR as i64 + 1 {
        Err(ConfigError::UnsupportedDivisor)
    } else {
        Ok((steps - 1) as u16)
    }
}

/// A baud rate above the oscillator frequency has the divisor −1, whatever
/// the multiplier.
pub proof fn lemma_fast_baud_has_no_divisor(oscillator: int, multiplier: int, baud: int)
    requires
        0 <= oscillator < baud,
        multiplier > 0,
    ensures
        divisor(oscillator, multiplier, baud) == -1,
        !divisor_fits(divisor(oscillator, multiplier, baud)),
{
    assert(oscillator / (multiplier * baud) == 0) by (nonlinear_arith)
        requires
            0 <= oscillator < baud,
            multiplier > 0,
    ;
}

/// The divisor that `mode` needs for `baud` on this chip, `None` where the
/// mode takes its clock from outside, or the report that the divisor does
/// not fit.
pub fn baud_divisor(mode: UsartModes, baud: i64) -> (result: Result<Option<u16>, ConfigError>)
    requires
        baud > 0,
    ensures
        baud_supported(mode, baud as int) ==> result is Ok && match mode_divisor(
            mode,
            baud as int,
        ) {
            Some(value) => result->Ok_0 == Some(value as u16),
            None => result->Ok_0 is None,
        },
        !baud_supported(mode, baud as int) ==> result == Err::<Option<u16>, ConfigError>(
            ConfigError::UnsupportedDivisor,
        ),
{
    match mode.multiplier() {
        Some(multiplier) => match clock_divisor(OSCILLATOR_HZ, multiplier, baud) {
            Ok(value) => Ok(Some(value)),
            Err(error) => Err(error),
        },
        None => Ok(None),
    }
}

/// Receive-complete flag in control and status register A.
pub const RXC: u8 = 7;

/// Transmit-complete flag in control and status register A.
pub const TXC: u8 = 6;

/// Double-speed bit in control and status register A.
pub const U2X: u8 = 1;

/// High data-size bit in control and status register B.
pub const UCSZ2: u8 = 2;

/// Stop-bit bit in control and status register C.
pub const USBS: u8 = 3;

/// Clock-polarity bit in control and status register C.
pub const UCPOL: u8 = 0;

/// The content of a unit's registers, with the unit's identity and the
/// number of status polls that it allows.
#[derive(Clone, Copy, Debug, PartialEq, Eq, Structural)]
pub struct UsartState {
    pub unit: UsartNum,
    pub poll_limit: u32,
    pub ucsra: u8,
    pub ucsrb: u8,
    pub ucsrc: u8,
    pub ubrrl: u8,
    pub ubrrh: u8,
    pub udr: u8,
}

impl UsartState {
    /// Whether the line is idle: the last transmission is complete and no
    /// received byte is waiting.
    pub open spec fn idle(self) -> bool {
        bit_is_set(self.ucsra, TXC) && !bit_is_set(self.ucsra, RXC)
    }

    /// Whether the unit may be reconfigured: it allows at least one poll and
    /// the poll finds the line idle.
    pub open spec fn admits(self) -> bool {
        self.poll_limit > 0 && self.idle()
    }

    /// Whether the mode-select bits say that the unit is synchronous.
    pub open spec fn synchronous(self) -> bool {
        bit_is_set(self.ucsrc, 6)
    }

    /// The divisor that the two divisor registers hold together.
    pub open spec fn programmed_divisor(self) -> int {
        self.ubrrh * 256 + self.ubrrl
    }

    /// This state with the clock polarity chosen; an asynchronous unit has
    /// the polarity bit cleared whatever is asked.
    pub open spec fn with_polarity(self, polarity: UsartPolarity) -> UsartState {
        UsartState {
            ucsrc: with_bit(self.ucsrc, UCPOL, self.synchronous() && polarity.spec_bit()),
            ..self
        }
    }

    /// This state with the mode-select and double-speed bits of `mode`.
    pub open spec fn with_mode(self, mode: UsartModes) -> UsartState {
        UsartState {
            ucsra: with_bit(self.ucsra, U2X, mode.spec_double_speed()),
            ucsrc: with_field(self.ucsrc, 6, 8, mode.spec_select_code()),
            ..self
        }
    }

    /// This state with both transfer-complete interrupts enabled.
    pub open spec fn with_tracking(self) -> UsartState {
        UsartState { ucsrb: with_field(self.ucsrb, 6, 8, 3), ..self }
    }

    /// This state with the divisor `value` programmed: split at bit 8, its
    /// low eight bits in the low register and the bits above them in the high
    /// register.
    pub open spec fn with_divisor(self, value: u16) -> UsartState {
        UsartState { ubrrl: (value % 256) as u8, ubrrh: (value / 256) as u8, ..self }
    }

    /// This state clocked for `mode` at `baud`: the divisor written where the
    /// mode needs one, nothing written where it does not.
    pub open spec fn with_clock(self, mode: UsartModes, baud: int) -> UsartState {
        match mode_divisor(mode, baud) {
            Some(value) => self.with_divisor(value as u16),
            None => self,
        }
    }

    /// This state with the data-size bits of `size`.
    pub open spec fn with_size(self, size: UsartDataSize) -> UsartState {
        UsartState {
            ucsrb: with_bit(self.ucsrb, UCSZ2, size.spec_high_bit()),
            ucsrc: with_field(self.ucsrc, 1, 3, size.spec_low_code()),
            ..self
        }
    }

    /// This state with the parity bits of `parity`.
    pub open spec fn with_parity(self, parity: UsartParity) -> UsartState {
        UsartState { ucsrc: with_field(self.ucsrc, 4, 6, parity.spec_code()), ..self }
    }

    /// This state with the stop-bit bit of `stop`.
    pub open spec fn with_stop(self, stop: UsartStop) -> UsartState {
        UsartState { ucsrc: with_bit(self.ucsrc, USBS, stop.spec_bit()), ..self }
    }

    /// This state with the whole frame format written.
    pub open spec fn with_frame(
        self,
        stop: UsartStop,
        size: UsartDataSize,
        parity: UsartParity,
    ) -> UsartState {
        self.with_size(size).with_parity(parity).with_stop(stop)
    }

    /// This state after a complete configuration.
    pub open spec fn configured(
        self,
        mode: UsartModes,
        baud: int,
        stop: UsartStop,
        size: UsartDataSize,
        parity: UsartParity,
    ) -> UsartState {
        self.with_mode(mode).with_clock(mode, baud).with_frame(stop, size, parity)
    }

    /// What configuring the unit for `mode` at `baud` comes to: an
    /// unsupported divisor is reported before the line is looked at, a busy
    /// line before anything is written.
    pub open spec fn outcome(self, mode: UsartModes, baud: int) -> Result<(), ConfigError> {
        if !baud_supported(mode, baud) {
            Err(ConfigError::UnsupportedDivisor)
        } else if !self.admits() {
            Err(ConfigError::Blocked)
        } else {
            Ok(())
        }
    }
}

/// The pin directions after the clock line of `unit` is set up for `mode`:
/// driven by a synchronous master, released by a synchronous slave, left
/// alone otherwise.
pub open spec fn clock_line(gpio: GpioState, unit: UsartNum, mode: UsartModes) -> GpioState {
    match mode.spec_clock_direction() {
        Some(direction) => gpio.directed(unit.spec_port(), unit.spec_xck(), direction),
        None => gpio,
    }
}

/// The power-reduction registers after `unit` is powered.
pub open spec fn powered(power: PowerState, unit: UsartNum) -> PowerState {
    power.cleared(unit.spec_power_register(), unit.spec_power_bit())
}

/// One serial unit: its identity and its six registers.
pub struct Usart {
    num: UsartNum,
    poll_limit: u32,
    ucsra: Register,
    ucsrb: Register,
    ucsrc: Register,
    ubrrl: Register,
    ubrrh: Register,
    udr: Register,
}

impl View for Usart {
    type V = UsartState;

    closed spec fn view(&self) -> UsartState {
        UsartState {
            unit: self.num,
            poll_limit: self.poll_limit,
            ucsra: self.ucsra@,
            ucsrb: self.ucsrb@,
            ucsrc: self.ucsrc@,
            ubrrl: self.ubrrl@,
            ubrrh: self.ubrrh@,
            udr: self.udr@,
        }
    }
}

impl Usart {
    /// The unit `num` with every register cleared and the default poll limit.
    pub fn new(num: UsartNum) -> (usart: Usart)
        ensures
            usart@ == (UsartState {
                unit: num,
                poll_limit: DEFAULT_POLL_LIMIT,
                ucsra: 0,
                ucsrb: 0,
                ucsrc: 0,
                ubrrl: 0,
                ubrrh: 0,
                udr: 0,
            }),
    {
        Usart {
            num,
            poll_limit: DEFAULT_POLL_LIMIT,
            ucsra: Register::new(0),
            ucsrb: Register::new(0),
            ucsrc: Register::new(0),
            ubrrl: Register::new(0),
            ubrrh: Register::new(0),
            udr: Register::new(0),
        }
    }

    /// The unit whose registers hold the given content.
    pub fn from_state(state: UsartState) -> (usart: Usart)
        ensures
            usart@ == state,
    {
        Usart {
            num: state.unit,
            poll_limit: state.poll_limit,
            ucsra: Register::new(state.ucsra),
            ucsrb: Register::new(state.ucsrb),
            ucsrc: Register::new(state.ucsrc),
            ubrrl: Register::new(state.ubrrl),
            ubrrh: Register::new(state.ubrrh),
            udr: Register::new(state.udr),
        }
    }

    /// The content of the unit's registers.
    pub fn state(&self) -> (state: UsartState)
        ensures
            state == self@,
    {
        UsartState {
            unit: self.num,
            poll_limit: self.poll_limit,
            ucsra: self.ucsra.read(),
            ucsrb: self.ucsrb.read(),
            ucsrc: self.ucsrc.read(),
            ubrrl: self.ubrrl.read(),
            ubrrh: self.ubrrh.read(),
            udr: self.udr.read(),
        }
    }

    /// Sets how many status polls the unit allows before it reports that the
    /// line is blocked.
    pub fn set_poll_limit(&mut self, limit: u32)
        ensures
            final(self)@ == (UsartState { poll_limit: limit, ..old(self)@ }),
    {
        self.poll_limit = limit;
    }

    /// Which unit this is.
    pub fn get_num(&self) -> (num: UsartNum)
        ensures
            num == self@.unit,
    {
        self.num
    }

    /// The port that carries the unit's clock, transmit and receive lines.
    pub fn get_port(&self) -> (port: PortName)
        ensures
            port == self@.unit.spec_port(),
    {
        self.num.port()
    }

    /// Pin of the external clock line on the unit's port.
    pub fn get_xck(&self) -> (pin: u8)
        ensures
            pin == self@.unit.spec_xck(),
            pin < 8,
    {
        self.num.xck()
    }

    /// Pin of the transmit line on the unit's port.
    pub fn get_td(&self) -> (pin: u8)
        ensures
            pin == self@.unit.spec_td(),
            pin < 8,
    {
        self.num.td()
    }

    /// Pin of the receive line on the unit's port.
    pub fn get_rd(&self) -> (pin: u8)
        ensures
            pin == self@.unit.spec_rd(),
            pin < 8,
    {
        self.num.rd()
    }

    /// Whether the unit is in a synchronous mode.
    pub fn get_mode(&self) -> (sync: bool)
        ensures
            sync == self@.synchronous(),
    {
        self.ucsrc.get_bit(6)
    }

    /// Chooses the clock polarity of a synchronous unit, and clears the
    /// polarity bit of an asynchronous one.
    pub fn set_polarity(&mut self, mode: UsartPolarity)
        ensures
            final(self)@ == old(self)@.with_polarity(mode),
    {
        if !self.get_mode() {
            self.ucsrc.update_bit(UCPOL, false);
        } else {
            self.ucsrc.update_bit(UCPOL, mode.bit());
        }
    }

    /// Selects the operating mode: writes the mode-select and double-speed
    /// bits, and points the external clock line outward for a synchronous
    /// master and inward for a synchronous slave.
    pub fn mode_select(&mut self, gpio: &mut Gpio, mode: UsartModes)
        ensures
            final(self)@ == old(self)@.with_mode(mode),
            final(gpio)@ == clock_line(old(gpio)@, old(self)@.unit, mode),
    {
        proof {
            lemma_field_limits();
        }
        self.ucsrc.update_bits(6, 8, mode.select_code());
        self.ucsra.update_bit(U2X, mode.double_speed());
        match mode.clock_direction() {
            Some(direction) => {
                gpio.set_direction(self.num.port(), self.num.xck(), direction);
            },
            None => {},
        }
    }

    /// Powers the unit `num` by clearing its power-reduction bit.
    pub fn set_power(&self, power: &mut Power, num: UsartNum)
        ensures
            final(power)@ == powered(old(power)@, num),
    {
        power.clear_bit(num.power_register(), num.power_bit());
    }

    /// Enables both transfer-complete interrupts, so that running transfers
    /// can be tracked.
    pub fn check(&mut self)
        ensures
            final(self)@ == old(self)@.with_tracking(),
    {
        proof {
            lemma_field_limits();
        }
        self.ucsrb.update_bits(6, 8, 3);
    }

    /// Whether the line is idle.
    pub fn check_ongoing(&self) -> (idle: bool)
        ensures
            idle == self@.idle(),
    {
        let status: u8 = self.ucsra.read();
        get_bit(status, TXC) && !get_bit(status, RXC)
    }

    /// Polls the status until the line is idle or the poll limit is used up,
    /// and reports whether the line was found idle. The wait is bounded: with
    /// the poll limit used up, the caller gets `false` back instead of being
    /// held for as long as the line is busy.
    pub fn wait_idle(&self) -> (idle: bool)
        ensures
            idle == self@.admits(),
    {
        let mut polls: u32 = 0;
        while polls < self.poll_limit
            invariant
                polls <= self.poll_limit,
                polls > 0 ==> !self@.idle(),
            decreases self.poll_limit - polls,
        {
            if self.check_ongoing() {
                return true;
            }
            polls = polls + 1;
        }
        false
    }

    /// Writes a divisor into the two divisor registers.
    fn write_divisor(&mut self, value: u16)
        requires
            value <= MAX_DIVISOR,
        ensures
            final(self)@ == old(self)@.with_divisor(value),
    {
        let low: u8 = (value % 256) as u8;
        let high: u8 = (value / 256) as u8;
        proof {
            lemma_field_limits();
            lemma_with_whole_byte(old(self)@.ubrrl, low);
            lemma_with_whole_byte(old(self)@.ubrrh, high);
        }
        self.ubrrl.update_bits(0, 8, low);
        self.ubrrh.update_bits(0, 8, high);
    }

    /// Programs the clock for `mode` at `baud`: writes the divisor where the
    /// mode needs one and it fits, writes nothing where the mode takes its
    /// clock from outside, and reports a divisor that does not fit without
    /// writing anything.
    pub fn set_clock(&mut self, baud: i64, mode: UsartModes) -> (result: Result<(), ConfigError>)
        requires
            baud > 0,
        ensures
            baud_supported(mode, baud as int) ==> result is Ok && final(self)@ == old(
                self,
            )@.with_clock(mode, baud as int),
            !baud_supported(mode, baud as int) ==> result == Err::<(), ConfigError>(
                ConfigError::UnsupportedDivisor,
            ) && final(self)@ == old(self)@,
    {
        match baud_divisor(mode, baud) {
            Ok(Some(value)) => {
                self.write_divisor(value);
                Ok(())
            },
            Ok(None) => Ok(()),
            Err(error) => Err(error),
        }
    }

    /// Writes the data-size bits.
    pub fn set_size(&mut self, size: UsartDataSize)
        ensures
            final(self)@ == old(self)@.with_size(size),
    {
        proof {
            lemma_field_limits();
        }
        self.ucsrb.update_bit(UCSZ2, size.high_bit());
        self.ucsrc.update_bits(1, 3, size.low_code());
    }

    /// Writes the parity bits.
    pub fn set_parity(&mut self, parity: UsartParity)
        ensures
            final(self)@ == old(self)@.with_parity(parity),
    {
        proof {
            lemma_field_limits();
        }
        self.ucsrc.update_bits(4, 6, parity.code());
    }

    /// Writes the stop-bit bit.
    pub fn set_stop(&mut self, stop: UsartStop)
        ensures
            final(self)@ == old(self)@.with_stop(stop),
    {
        self.ucsrc.update_bit(USBS, stop.bit());
    }

    /// Writes the frame format: data size, parity and stop bits.
    pub fn set_frame(&mut self, stop: UsartStop, size: UsartDataSize, parity: UsartParity)
        ensures
            final(self)@ == old(self)@.with_frame(stop, size, parity),
    {
        self.set_size(size);
        self.set_parity(parity);
        self.set_stop(stop);
    }

    /// The writes of a configuration, from powering the unit to the frame
    /// format, with the divisor already computed. They run only under the
    /// interrupt guard: the caller shows the interrupt mask, and it must be
    /// disabled.
    #[allow(unused_variables)]
    fn reconfigure(
        &mut self,
        guard: &GlobalInterrupts,
        power: &mut Power,
        gpio: &mut Gpio,
        mode: UsartModes,
        target: Option<u16>,
        stop: UsartStop,
        size: UsartDataSize,
        parity: UsartParity,
    )
        requires
            !guard.enabled(),
            target is Some ==> target->Some_0 <= MAX_DIVISOR,
        ensures
            final(self)@ == (match target {
                Some(value) => old(self)@.with_mode(mode).with_divisor(value),
                None => old(self)@.with_mode(mode),
            }).with_frame(stop, size, parity),
            final(power)@ == powered(old(power)@, old(self)@.unit),
            final(gpio)@ == clock_line(old(gpio)@, old(self)@.unit, mode),
    {
        let num: UsartNum = self.get_num();
        self.set_power(power, num);
        self.mode_select(gpio, mode);
        match target {
            Some(value) => self.write_divisor(value),
            None => {},
        }
        self.set_frame(stop, size, parity);
    }

    /// Configures the unit. An unsupported divisor is reported first and a
    /// line that stays busy second, both before anything is written. Otherwise
    /// the unit is powered, its mode selected, its clock programmed and its
    /// frame format written, all with interrupts disabled. Whatever the
    /// outcome, the interrupt mask ends as it began.
    pub fn initialize(
        &mut self,
        hal: &mut Hal,
        mode: UsartModes,
        baud: i64,
        stop: UsartStop,
        size: UsartDataSize,
        parity: UsartParity,
    ) -> (result: Result<(), ConfigError>)
        requires
            baud > 0,
        ensures
            result == old(self)@.outcome(mode, baud as int),
            result is Ok ==> final(self)@ == old(self)@.configured(
                mode,
                baud as int,
                stop,
                size,
                parity,
            ) && final(hal)@ == (HalState {
                power: powered(old(hal)@.power, old(self)@.unit),
                gpio: clock_line(old(hal)@.gpio, old(self)@.unit, mode),
                ..old(hal)@
            }),
            result is Err ==> final(self)@ == old(self)@ && final(hal)@ == old(hal)@,
            final(hal)@.sreg == old(hal)@.sreg,
    {
        let target: Option<u16> = match baud_divisor(mode, baud) {
            Ok(target) => target,
            Err(error) => {
                return Err(error);
            },
        };
        if !self.wait_idle() {
            return Err(ConfigError::Blocked);
        }
        let prior = hal.interrupts.disable();
        self.reconfigure(
            &hal.interrupts,
            &mut hal.power,
            &mut hal.gpio,
            mode,
            target,
            stop,
            size,
            parity,
        );
        hal.interrupts.enable(prior);
        proof {
            lemma_guard_is_balanced(old(hal)@.sreg);
        }
        Ok(())
    }
}

/// Selecting a mode writes the mode-select field and the double-speed bit as
/// the mode's table entries say, and leaves every other bit of the unit as
/// it was; in particular the line is as idle as before.
pub proof fn lemma_mode_matches_table(state: UsartState, mode: UsartModes, bit: u8)
    requires
        bit < 8,
    ensures
        field(state.with_mode(mode).ucsrc, 6, 8) == mode.spec_select_code(),
        state.with_mode(mode).synchronous() == mode.spec_synchronous(),
        bit_is_set(state.with_mode(mode).ucsra, U2X) == mode.spec_double_speed(),
        bit != U2X ==> bit_is_set(state.with_mode(mode).ucsra, bit) == bit_is_set(state.ucsra, bit),
        bit < 6 ==> bit_is_set(state.with_mode(mode).ucsrc, bit) == bit_is_set(state.ucsrc, bit),
        state.with_mode(mode).idle() == state.idle(),
        state.with_mode(mode) == (UsartState {
            ucsra: state.with_mode(mode).ucsra,
            ucsrc: state.with_mode(mode).ucsrc,
            ..state
        }),
{
    lemma_field_limits();
    let code = mode.spec_select_code();
    lemma_with_field_reads(state.ucsrc, 6, 8, code);
    lemma_with_bit_reads(state.ucsra, U2X, mode.spec_double_speed(), bit);
    lemma_with_bit_reads(state.ucsra, U2X, mode.spec_double_speed(), U2X);
    lemma_with_bit_reads(state.ucsra, U2X, mode.spec_double_speed(), TXC);
    lemma_with_bit_reads(state.ucsra, U2X, mode.spec_double_speed(), RXC);
    if bit < 6 {
        lemma_with_field_keeps_bit(state.ucsrc, 6, 8, code, bit);
    }
    lemma_select_code_is_bit(state.ucsrc, code);
}

/// The low bit of the mode-select field is bit 6 of the register.
proof fn lemma_select_code_is_bit(byte: u8, code: u8)
    by (bit_vector)
    requires
        code <= 1,
    ensures
        bit_is_set(with_field(byte, 6, 8, code), 6) == (code == 1),
{
}

/// The external clock line is driven exactly by a synchronous master and
/// released exactly by a synchronous slave; an asynchronous mode leaves all
/// pin directions alone, and no mode touches another pin or port.
pub proof fn lemma_clock_line_follows_mode(
    gpio: GpioState,
    unit: UsartNum,
    mode: UsartModes,
    port: PortName,
    pin: u8,
)
    requires
        pin < 8,
    ensures
        !mode.spec_synchronous() ==> clock_line(gpio, unit, mode) == gpio,
        mode == UsartModes::master_sync ==> bit_is_set(
            clock_line(gpio, unit, mode).ddr(unit.spec_port()),
            unit.spec_xck(),
        ),
        mode == UsartModes::slave_sync ==> !bit_is_set(
            clock_line(gpio, unit, mode).ddr(unit.spec_port()),
            unit.spec_xck(),
        ),
        port != unit.spec_port() || pin != unit.spec_xck() ==> bit_is_set(
            clock_line(gpio, unit, mode).ddr(port),
            pin,
        ) == bit_is_set(gpio.ddr(port), pin),
{
    let line = unit.spec_xck();
    let before = gpio.ddr(unit.spec_port());
    lemma_with_bit_reads(before, line, true, line);
    lemma_with_bit_reads(before, line, false, line);
    lemma_with_bit_reads(before, line, true, pin);
    lemma_with_bit_reads(before, line, false, pin);
}

/// A divisor that fits is programmed as the formula gives it, split at bit
/// 8: the low register holds its low eight bits and the high register the
/// four above them. Nothing else changes.
pub proof fn lemma_divisor_is_split(state: UsartState, value: u16)
    requires
        value <= MAX_DIVISOR,
    ensures
        state.with_divisor(value).ubrrl == value % 256,
        state.with_divisor(value).ubrrh == value / 256,
        state.with_divisor(value).ubrrh <= 15,
        state.with_divisor(value).programmed_divisor() == value,
        state.with_divisor(value) == (UsartState {
            ubrrl: state.with_divisor(value).ubrrl,
            ubrrh: state.with_divisor(value).ubrrh,
            ..state
        }),
{
}

/// Where the formula yields a divisor that fits and the unit admits the
/// configuration, configuring succeeds and leaves the formula's result in
/// the divisor registers, split at bit 8.
pub proof fn lemma_supported_baud_is_programmed(
    state: UsartState,
    mode: UsartModes,
    baud: int,
    stop: UsartStop,
    size: UsartDataSize,
    parity: UsartParity,
)
    requires
        mode_divisor(mode, baud) is Some,
        divisor_fits(mode_divisor(mode, baud)->Some_0),
        state.admits(),
    ensures
        state.outcome(mode, baud) == Ok::<(), ConfigError>(()),
        state.configured(mode, baud, stop, size, parity).ubrrl == mode_divisor(mode, baud)->Some_0
            % 256,
        state.configured(mode, baud, stop, size, parity).ubrrh == mode_divisor(mode, baud)->Some_0
            / 256,
        state.configured(mode, baud, stop, size, parity).programmed_divisor() == mode_divisor(
            mode,
            baud,
        )->Some_0,
{
}

/// Where the formula yields a divisor that does not fit, configuring
/// reports it, whatever the state of the unit.
pub proof fn lemma_unsupported_baud_is_reported(state: UsartState, mode: UsartModes, baud: int)
    requires
        mode_divisor(mode, baud) is Some,
        !divisor_fits(mode_divisor(mode, baud)->Some_0),
    ensures
        state.outcome(mode, baud) == Err::<(), ConfigError>(ConfigError::UnsupportedDivisor),
{
}

/// Configuring never succeeds on a unit whose status shows a transfer in
/// flight.
pub proof fn lemma_busy_line_is_not_configured(state: UsartState, mode: UsartModes, baud: int)
    requires
        !state.idle(),
    ensures
        state.outcome(mode, baud) is Err,
        baud_supported(mode, baud) ==> state.outcome(mode, baud) == Err::<(), ConfigError>(
            ConfigError::Blocked,
        ),
{
}

/// A synchronous slave is configured without a divisor: whatever the baud
/// rate, the configuration is supported and both divisor registers keep
/// their content.
pub proof fn lemma_slave_keeps_divisor(
    state: UsartState,
    baud: int,
    stop: UsartStop,
    size: UsartDataSize,
    parity: UsartParity,
)
    ensures
        baud_supported(UsartModes::slave_sync, baud),
        state.configured(UsartModes::slave_sync, baud, stop, size, parity).ubrrl == state.ubrrl,
        state.configured(UsartModes::slave_sync, baud, stop, size, parity).ubrrh == state.ubrrh,
{
}

/// After the frame format is written, the data-size, parity and stop-bit
/// fields hold the table entries of what was asked, for every combination,
/// and every other bit of the unit is as it was.
pub proof fn lemma_frame_matches_table(
    state: UsartState,
    stop: UsartStop,
    size: UsartDataSize,
    parity: UsartParity,
    bit: u8,
)
    requires
        bit < 8,
    ensures
        field(state.with_frame(stop, size, parity).ucsrc, 1, 3) == size.spec_low_code(),
        bit_is_set(state.with_frame(stop, size, parity).ucsrb, UCSZ2) == size.spec_high_bit(),
        field(state.with_frame(stop, size, parity).ucsrc, 4, 6) == parity.spec_code(),
        bit_is_set(state.with_frame(stop, size, parity).ucsrc, USBS) == stop.spec_bit(),
        bit_is_set(state.with_frame(stop, size, parity).ucsrc, UCPOL) == bit_is_set(
            state.ucsrc,
            UCPOL,
        ),
        field(state.with_frame(stop, size, parity).ucsrc, 6, 8) == field(state.ucsrc, 6, 8),
        bit != UCSZ2 ==> bit_is_set(state.with_frame(stop, size, parity).ucsrb, bit) == bit_is_set(
            state.ucsrb,
            bit,
        ),
        state.with_frame(stop, size, parity) == (UsartState {
            ucsrb: state.with_frame(stop, size, parity).ucsrb,
            ucsrc: state.with_frame(stop, size, parity).ucsrc,
            ..state
        }),
{
    lemma_field_limits();
    let sized = with_field(state.ucsrc, 1, 3, size.spec_low_code());
    let paired = with_field(sized, 4, 6, parity.spec_code());
    let framed = with_bit(paired, USBS, stop.spec_bit());
    assert(state.with_frame(stop, size, parity).ucsrc == framed);
    // data size
    lemma_with_bit_keeps_field(paired, USBS, stop.spec_bit(), 1, 3);
    lemma_with_field_keeps_field(sized, 4, 6, parity.spec_code(), 1, 3);
    lemma_with_field_reads(state.ucsrc, 1, 3, size.spec_low_code());
    // parity
    lemma_with_bit_keeps_field(paired, USBS, stop.spec_bit(), 4, 6);
    lemma_with_field_reads(sized, 4, 6, parity.spec_code());
    // stop bits
    lemma_with_bit_reads(paired, USBS, stop.spec_bit(), USBS);
    // clock polarity
    lemma_with_bit_reads(paired, USBS, stop.spec_bit(), UCPOL);
    lemma_with_field_keeps_bit(sized, 4, 6, parity.spec_code(), UCPOL);
    lemma_with_field_keeps_bit(state.ucsrc, 1, 3, size.spec_low_code(), UCPOL);
    // mode select
    lemma_with_bit_keeps_field(paired, USBS, stop.spec_bit(), 6, 8);
    lemma_with_field_keeps_field(sized, 4, 6, parity.spec_code(), 6, 8);
    lemma_with_field_keeps_field(state.ucsrc, 1, 3, size.spec_low_code(), 6, 8);
    // register B
    lemma_with_bit_reads(state.ucsrb, UCSZ2, size.spec_high_bit(), UCSZ2);
    lemma_with_bit_reads(state.ucsrb, UCSZ2, size.spec_high_bit(), bit);
}

/// A configured unit holds the table entries of everything that was asked:
/// the mode-select field and the double-speed bit of the mode, and the
/// data-size, parity and stop-bit fields of the frame. Its status flags and
/// its clock-polarity bit are as they were.
pub proof fn lemma_configured_unit(
    state: UsartState,
    mode: UsartModes,
    baud: int,
    stop: UsartStop,
    size: UsartDataSize,
    parity: UsartParity,
)
    ensures
        ({
            let after = state.configured(mode, baud, stop, size, parity);
            &&& field(after.ucsrc, 6, 8) == mode.spec_select_code()
            &&& bit_is_set(after.ucsra, U2X) == mode.spec_double_speed()
            &&& field(after.ucsrc, 1, 3) == size.spec_low_code()
            &&& bit_is_set(after.ucsrb, UCSZ2) == size.spec_high_bit()
            &&& field(after.ucsrc, 4, 6) == parity.spec_code()
            &&& bit_is_set(after.ucsrc, USBS) == stop.spec_bit()
            &&& bit_is_set(after.ucsrc, UCPOL) == bit_is_set(state.ucsrc, UCPOL)
            &&& after.idle() == state.idle()
            &&& after.unit == state.unit
            &&& after.poll_limit == state.poll_limit
            &&& after.udr == state.udr
        }),
{
    let moded = state.with_mode(mode);
    let clocked = moded.with_clock(mode, baud);
    lemma_mode_matches_table(state, mode, UCPOL);
    lemma_frame_matches_table(clocked, stop, size, parity, UCPOL);
}

/// The three writes of the frame format can be made in any order: each pair
/// of them commutes.
pub proof fn lemma_frame_order_is_free(
    state: UsartState,
    stop: UsartStop,
    size: UsartDataSize,
    parity: UsartParity,
)
    ensures
        state.with_size(size).with_parity(parity) == state.with_parity(parity).with_size(size),
        state.with_size(size).with_stop(stop) == state.with_stop(stop).with_size(size),
        state.with_parity(parity).with_stop(stop) == state.with_stop(stop).with_parity(parity),
{
    lemma_field_limits();
    lemma_with_field_commutes(state.ucsrc, 1, 3, size.spec_low_code(), 4, 6, parity.spec_code());
    lemma_with_bit_commutes(state.ucsrc, USBS, stop.spec_bit(), 1, 3, size.spec_low_code());
    lemma_with_bit_commutes(state.ucsrc, USBS, stop.spec_bit(), 4, 6, parity.spec_code());
}

} // verus!
