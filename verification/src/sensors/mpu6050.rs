//! Driver for the MPU-6050 motion sensor, a register-mapped device on the
//! two-wire bus.

use crate::atmega328p::com::i2c::{written, Twi, REGISTER_COUNT};
use crate::bits::{bit_is_set, get_bit, lemma_with_bit_reads, with_bit};
use crate::frame::{frame_as_slice, frame_items, frame_new, frame_push};
use core::mem::MaybeUninit;
use vstd::prelude::*;

verus! {

/// Bus address of the sensor while its AD0 pin is low.
pub const MPU6050_ADDRESS: u8 = 0x68;

/// Frame synchronisation and digital filter configuration.
pub const MPU6050_REG_CONFIG: u8 = 0x1A;

/// Gyroscope self-test and full-scale range.
pub const MPU6050_REG_GYRO_CONFIG: u8 = 0x1B;

/// Accelerometer self-test and full-scale range.
pub const MPU6050_REG_ACCEL_CONFIG: u8 = 0x1C;

/// Free-fall detection threshold.
pub const MPU6050_REG_FF_THRESHOLD: u8 = 0x1D;

/// Free-fall detection duration.
pub const MPU6050_REG_FF_DURATION: u8 = 0x1E;

/// Motion detection threshold.
pub const MPU6050_REG_MOT_THRESHOLD: u8 = 0x1F;

/// Motion detection duration.
pub const MPU6050_REG_MOT_DURATION: u8 = 0x20;

/// Zero-motion detection threshold.
pub const MPU6050_REG_ZMOT_THRESHOLD: u8 = 0x21;

/// Zero-motion detection duration.
pub const MPU6050_REG_ZMOT_DURATION: u8 = 0x22;

/// Interrupt pin and bus bypass configuration.
pub const MPU6050_REG_INT_PIN_CFG: u8 = 0x37;

/// Interrupt enable bits.
pub const MPU6050_REG_INT_ENABLE: u8 = 0x38;

/// Interrupt status bits.
pub const MPU6050_REG_INT_STATUS: u8 = 0x3A;

/// High byte of the accelerometer X axis; the other five measurement bytes
/// follow it.
pub const MPU6050_REG_ACCEL_XOUT_H: u8 = 0x3B;

/// High byte of the gyroscope X axis; the other five measurement bytes
/// follow it.
pub const MPU6050_REG_GYRO_XOUT_H: u8 = 0x43;

/// Motion detection control.
pub const MPU6050_REG_MOT_DETECT_CTRL: u8 = 0x69;

/// User control.
pub const MPU6050_REG_USER_CTRL: u8 = 0x6A;

/// Power management 1.
pub const MPU6050_REG_PWR_MGMT_1: u8 = 0x6B;

/// Clock sources of the sensor.
#[derive(Clone, Copy, Debug, PartialEq, Eq, Structural)]
pub enum MPUClockSourceT {
    MPU6050ClockInternal8MHZ,
    MPU6050ClockPllGyrox,
    MPU6050ClockPllGyroy,
    MPU6050ClockPllGyroz,
    MPU6050ClockExternal32MHZ,
    MPU6050ClockExternal19MHZ,
    MPU6050ClockKeepReset,
}

impl MPUClockSourceT {
    /// The code that stands for this choice in the sensor's register.
    pub open spec fn spec_code(self) -> u8 {
        match self {
            MPUClockSourceT::MPU6050ClockInternal8MHZ => 0,
            MPUClockSourceT::MPU6050ClockPllGyrox => 1,
            MPUClockSourceT::MPU6050ClockPllGyroy => 2,
            MPUClockSourceT::MPU6050ClockPllGyroz => 3,
            MPUClockSourceT::MPU6050ClockExternal32MHZ => 4,
            MPUClockSourceT::MPU6050ClockExternal19MHZ => 5,
            MPUClockSourceT::MPU6050ClockKeepReset => 7,
        }
    }

    /// The code that stands for this choice in the sensor's register.
    #[verifier::when_used_as_spec(spec_code)]
    pub fn code(self) -> (code: u8)
        ensures
            code == self.spec_code(),
            code <= 7,
    {
        match self {
            MPUClockSourceT::MPU6050ClockInternal8MHZ => 0,
            MPUClockSourceT::MPU6050ClockPllGyrox => 1,
            MPUClockSourceT::MPU6050ClockPllGyroy => 2,
            MPUClockSourceT::MPU6050ClockPllGyroz => 3,
            MPUClockSourceT::MPU6050ClockExternal32MHZ => 4,
            MPUClockSourceT::MPU6050ClockExternal19MHZ => 5,
            MPUClockSourceT::MPU6050ClockKeepReset => 7,
        }
    }

    /// The choice that a code read from the register stands for.
    pub open spec fn spec_from_code(code: u8) -> MPUClockSourceT {
        if code == 0 {
            MPUClockSourceT::MPU6050ClockInternal8MHZ
        } else if code == 1 {
            MPUClockSourceT::MPU6050ClockPllGyrox
        } else if code == 2 {
            MPUClockSourceT::MPU6050ClockPllGyroy
        } else if code == 3 {
            MPUClockSourceT::MPU6050ClockPllGyroz
        } else if code == 4 {
            MPUClockSourceT::MPU6050ClockExternal32MHZ
        } else if code == 5 {
            MPUClockSourceT::MPU6050ClockExternal19MHZ
        } else {
            MPUClockSourceT::MPU6050ClockKeepReset
        }
    }

    /// The choice that a code read from the register stands for.
    #[verifier::when_used_as_spec(spec_from_code)]
    pub fn from_code(code: u8) -> (choice: MPUClockSourceT)
        ensures
            choice == MPUClockSourceT::spec_from_code(code),
    {
        if code == 0 {
            MPUClockSourceT::MPU6050ClockInternal8MHZ
        } else if code == 1 {
            MPUClockSourceT::MPU6050ClockPllGyrox
        } else if code == 2 {
            MPUClockSourceT::MPU6050ClockPllGyroy
        } else if code == 3 {
            MPUClockSourceT::MPU6050ClockPllGyroz
        } else if code == 4 {
            MPUClockSourceT::MPU6050ClockExternal32MHZ
        } else if code == 5 {
            MPUClockSourceT::MPU6050ClockExternal19MHZ
        } else {
            MPUClockSourceT::MPU6050ClockKeepReset
        }
    }
}

/// Full-scale ranges of the gyroscope, in degrees per second.
#[derive(Clone, Copy, Debug, PartialEq, Eq, Structural)]
pub enum MPUdpsT {
    MPU6050Scale2000DPS,
    MPU6050Scale1000DPS,
    MPU6050Scale500DPS,
    MPU6050Scale250DPS,
}

impl MPUdpsT {
    /// The code that stands for this choice in the sensor's register.
    pub open spec fn spec_code(self) -> u8 {
        match self {
            MPUdpsT::MPU6050Scale2000DPS => 3,
            MPUdpsT::MPU6050Scale1000DPS => 2,
            MPUdpsT::MPU6050Scale500DPS => 1,
            MPUdpsT::MPU6050Scale250DPS => 0,
        }
    }

    /// The code that stands for this choice in the sensor's register.
    #[verifier::when_used_as_spec(spec_code)]
    pub fn code(self) -> (code: u8)
        ensures
            code == self.spec_code(),
            code <= 3,
    {
        match self {
            MPUdpsT::MPU6050Scale2000DPS => 3,
            MPUdpsT::MPU6050Scale1000DPS => 2,
            MPUdpsT::MPU6050Scale500DPS => 1,
            MPUdpsT::MPU6050Scale250DPS => 0,
        }
    }

    /// The choice that a code read from the register stands for.
    pub open spec fn spec_from_code(code: u8) -> MPUdpsT {
        if code == 3 {
            MPUdpsT::MPU6050Scale2000DPS
        } else if code == 2 {
            MPUdpsT::MPU6050Scale1000DPS
        } else if code == 1 {
            MPUdpsT::MPU6050Scale500DPS
        } else {
            MPUdpsT::MPU6050Scale250DPS
        }
    }

    /// The choice that a code read from the register stands for.
    #[verifier::when_used_as_spec(spec_from_code)]
    pub fn from_code(code: u8) -> (choice: MPUdpsT)
        ensures
            choice == MPUdpsT::spec_from_code(code),
    {
        if code == 3 {
            MPUdpsT::MPU6050Scale2000DPS
        } else if code == 2 {
            MPUdpsT::MPU6050Scale1000DPS
        } else if code == 1 {
            MPUdpsT::MPU6050Scale500DPS
        } else {
            MPUdpsT::MPU6050Scale250DPS
        }
    }
}

/// Full-scale ranges of the accelerometer, in g.
#[derive(Clone, Copy, Debug, PartialEq, Eq, Structural)]
pub enum MPURangeT {
    MPU6050Range2G,
    MPU6050Range4G,
    MPU6050Range8G,
    MPU6050Range16G,
}

impl MPURangeT {
    /// The code that stands for this choice in the sensor's register.
    pub open spec fn spec_code(self) -> u8 {
        match self {
            MPURangeT::MPU6050Range2G => 0,
            MPURangeT::MPU6050Range4G => 1,
            MPURangeT::MPU6050Range8G => 2,
            MPURangeT::MPU6050Range16G => 3,
        }
    }

    /// The code that stands for this choice in the sensor's register.
    #[verifier::when_used_as_spec(spec_code)]
    pub fn code(self) -> (code: u8)
        ensures
            code == self.spec_code(),
            code <= 3,
    {
        match self {
            MPURangeT::MPU6050Range2G => 0,
            MPURangeT::MPU6050Range4G => 1,
            MPURangeT::MPU6050Range8G => 2,
            MPURangeT::MPU6050Range16G => 3,
        }
    }

    /// The choice that a code read from the register stands for.
    pub open spec fn spec_from_code(code: u8) -> MPURangeT {
        if code == 3 {
            MPURangeT::MPU6050Range16G
        } else if code == 2 {
            MPURangeT::MPU6050Range8G
        } else if code == 1 {
            MPURangeT::MPU6050Range4G
        } else {
            MPURangeT::MPU6050Range2G
        }
    }

    /// The choice that a code read from the register stands for.
    #[verifier::when_used_as_spec(spec_from_code)]
    pub fn from_code(code: u8) -> (choice: MPURangeT)
        ensures
            choice == MPURangeT::spec_from_code(code),
    {
        if code == 3 {
            MPURangeT::MPU6050Range16G
        } else if code == 2 {
            MPURangeT::MPU6050Range8G
        } else if code == 1 {
            MPURangeT::MPU6050Range4G
        } else {
            MPURangeT::MPU6050Range2G
        }
    }
}

/// Delays added to the accelerometer's power-on time.
#[derive(Clone, Copy, Debug, PartialEq, Eq, Structural)]
pub enum MPUOnDelayT {
    MPU6050Delay3MS,
    MPU6050Delay2MS,
    MPU6050Delay1MS,
    MPU6050NoDelay,
}

impl MPUOnDelayT {
    /// The code that stands for this choice in the sensor's register.
    pub open spec fn spec_code(self) -> u8 {
        match self {
            MPUOnDelayT::MPU6050Delay3MS => 3,
            MPUOnDelayT::MPU6050Delay2MS => 2,
            MPUOnDelayT::MPU6050Delay1MS => 1,
            MPUOnDelayT::MPU6050NoDelay => 0,
        }
    }

    /// The code that stands for this choice in the sensor's register.
    #[verifier::when_used_as_spec(spec_code)]
    pub fn code(self) -> (code: u8)
        ensures
            code == self.spec_code(),
            code <= 3,
    {
        match self {
            MPUOnDelayT::MPU6050Delay3MS => 3,
            MPUOnDelayT::MPU6050Delay2MS => 2,
            MPUOnDelayT::MPU6050Delay1MS => 1,
            MPUOnDelayT::MPU6050NoDelay => 0,
        }
    }

    /// The choice that a code read from the register stands for.
    pub open spec fn spec_from_code(code: u8) -> MPUOnDelayT {
        if code == 3 {
            MPUOnDelayT::MPU6050Delay3MS
        } else if code == 2 {
            MPUOnDelayT::MPU6050Delay2MS
        } else if code == 1 {
            MPUOnDelayT::MPU6050Delay1MS
        } else {
            MPUOnDelayT::MPU6050NoDelay
        }
    }

    /// The choice that a code read from the register stands for.
    #[verifier::when_used_as_spec(spec_from_code)]
    pub fn from_code(code: u8) -> (choice: MPUOnDelayT)
        ensures
            choice == MPUOnDelayT::spec_from_code(code),
    {
        if code == 3 {
            MPUOnDelayT::MPU6050Delay3MS
        } else if code == 2 {
            MPUOnDelayT::MPU6050Delay2MS
        } else if code == 1 {
            MPUOnDelayT::MPU6050Delay1MS
        } else {
            MPUOnDelayT::MPU6050NoDelay
        }
    }
}

/// Settings of the digital high-pass filter.
#[allow(non_camel_case_types)]
#[derive(Clone, Copy, Debug, PartialEq, Eq, Structural)]
pub enum MPUdhpfT {
    MPU6050dhpfReset,
    MPU6050dhpf5HZ,
    MPU6050dhpf2_5HZ,
    MPU6050dhpf1_25HZ,
    MPU6050dhpf0_63HZ,
    MPU6050dhpfHold,
}

impl MPUdhpfT {
    /// The code that stands for this choice in the sensor's register.
    pub open spec fn spec_code(self) -> u8 {
        match self {
            MPUdhpfT::MPU6050dhpfReset => 0,
            MPUdhpfT::MPU6050dhpf5HZ => 1,
            MPUdhpfT::MPU6050dhpf2_5HZ => 2,
            MPUdhpfT::MPU6050dhpf1_25HZ => 3,
            MPUdhpfT::MPU6050dhpf0_63HZ => 4,
            MPUdhpfT::MPU6050dhpfHold => 5,
        }
    }

    /// The code that stands for this choice in the sensor's register.
    #[verifier::when_used_as_spec(spec_code)]
    pub fn code(self) -> (code: u8)
        ensures
            code == self.spec_code(),
            code <= 5,
    {
        match self {
            MPUdhpfT::MPU6050dhpfReset => 0,
            MPUdhpfT::MPU6050dhpf5HZ => 1,
            MPUdhpfT::MPU6050dhpf2_5HZ => 2,
            MPUdhpfT::MPU6050dhpf1_25HZ => 3,
            MPUdhpfT::MPU6050dhpf0_63HZ => 4,
            MPUdhpfT::MPU6050dhpfHold => 5,
        }
    }
}

/// Settings of the digital low-pass filter.
#[allow(non_camel_case_types)]
#[derive(Clone, Copy, Debug, PartialEq, Eq, Structural)]
pub enum MPUdlpfT {
    MPU6050dlpf6,
    MPU6050dlpf5,
    MPU6050dlpf4,
    MPU6050dlpf3,
    MPU6050dlpf2,
    MPU6050dlpf1,
    MPU6050dlpf0,
}

impl MPUdlpfT {
    /// The code that stands for this choice in the sensor's register.
    pub open spec fn spec_code(self) -> u8 {
        match self {
            MPUdlpfT::MPU6050dlpf6 => 6,
            MPUdlpfT::MPU6050dlpf5 => 5,
            MPUdlpfT::MPU6050dlpf4 => 4,
            MPUdlpfT::MPU6050dlpf3 => 3,
            MPUdlpfT::MPU6050dlpf2 => 2,
            MPUdlpfT::MPU6050dlpf1 => 1,
            MPUdlpfT::MPU6050dlpf0 => 0,
        }
    }

    /// The code that stands for this choice in the sensor's register.
    #[verifier::when_used_as_spec(spec_code)]
    pub fn code(self) -> (code: u8)
        ensures
            code == self.spec_code(),
            code <= 6,
    {
        match self {
            MPUdlpfT::MPU6050dlpf6 => 6,
            MPUdlpfT::MPU6050dlpf5 => 5,
            MPUdlpfT::MPU6050dlpf4 => 4,
            MPUdlpfT::MPU6050dlpf3 => 3,
            MPUdlpfT::MPU6050dlpf2 => 2,
            MPUdlpfT::MPU6050dlpf1 => 1,
            MPUdlpfT::MPU6050dlpf0 => 0,
        }
    }
}

/// The raw sixteen-bit measurements of the three axes.
#[derive(Clone, Copy, Debug, PartialEq, Eq, Structural)]
pub struct RawAxes {
    pub x: u16,
    pub y: u16,
    pub z: u16,
}

/// The sixteen-bit word made of a high and a low byte.
pub open spec fn word(high: u8, low: u8) -> u16 {
    ((high as u16) << 8) | (low as u16)
}

/// The registers with register `reg` reduced to its bits in `keep` and then
/// joined with `bits`.
pub open spec fn with_bits(registers: Seq<u8>, reg: u8, keep: u8, bits: u8) -> Seq<u8> {
    registers.update(reg as int, (registers[reg as int] & keep) | bits)
}

/// The registers with bit `pos` of register `reg` forced to `state`.
pub open spec fn with_flag(registers: Seq<u8>, reg: u8, pos: u8, state: bool) -> Seq<u8> {
    registers.update(reg as int, with_bit(registers[reg as int], pos, state))
}

/// Whether bit `pos` of register `reg` is set.
pub open spec fn flag(registers: Seq<u8>, reg: u8, pos: u8) -> bool {
    bit_is_set(registers[reg as int], pos)
}

/// The gyroscope range that the registers select.
pub open spec fn scale_of(registers: Seq<u8>) -> MPUdpsT {
    MPUdpsT::spec_from_code((registers[MPU6050_REG_GYRO_CONFIG as int] & 0b0001_1000) >> 3)
}

/// The accelerometer range that the registers select.
pub open spec fn range_of(registers: Seq<u8>) -> MPURangeT {
    MPURangeT::spec_from_code((registers[MPU6050_REG_ACCEL_CONFIG as int] & 0b0001_1000) >> 3)
}

/// The clock source that the registers select.
pub open spec fn clock_source_of(registers: Seq<u8>) -> MPUClockSourceT {
    MPUClockSourceT::spec_from_code(registers[MPU6050_REG_PWR_MGMT_1 as int] & 0b0000_0111)
}

/// The power-on delay that is read from the registers: the two delay bits,
/// still at their place in the register, taken as a delay code.
pub open spec fn accel_power_on_delay_of(registers: Seq<u8>) -> MPUOnDelayT {
    MPUOnDelayT::spec_from_code(registers[MPU6050_REG_MOT_DETECT_CTRL as int] & 0b0011_0000)
}

/// The three measurements whose six bytes start at register `first`, each
/// with its high byte first.
pub open spec fn axes_at(registers: Seq<u8>, first: u8) -> RawAxes {
    RawAxes {
        x: word(registers[first as int], registers[first + 1]),
        y: word(registers[first + 2], registers[first + 3]),
        z: word(registers[first + 4], registers[first + 5]),
    }
}

/// The registers after the sensor is started with the given ranges: clocked
/// from the X gyroscope, both ranges selected, and awake.
pub open spec fn started(registers: Seq<u8>, scale: MPUdpsT, range: MPURangeT) -> Seq<u8> {
    let clocked = with_bits(
        registers,
        MPU6050_REG_PWR_MGMT_1,
        0b1111_1000,
        MPUClockSourceT::MPU6050ClockPllGyrox.spec_code(),
    );
    let ranged = with_bits(clocked, MPU6050_REG_ACCEL_CONFIG, 0b1110_0111, range.spec_code() << 3);
    let scaled = with_bits(ranged, MPU6050_REG_GYRO_CONFIG, 0b1110_0111, scale.spec_code() << 3);
    with_flag(scaled, MPU6050_REG_PWR_MGMT_1, 6, false)
}

/// The sensor, reached over its bus.
pub struct MPU6050 {
    address: u8,
    twi: Twi,
}

impl View for MPU6050 {
    type V = Seq<u8>;

    closed spec fn view(&self) -> Seq<u8> {
        self.twi@
    }
}

impl MPU6050 {
    /// Whether the driver and the device on its bus agree on the address.
    pub closed spec fn wf(&self) -> bool {
        self.twi.slave() == self.address
    }

    /// The bus address at which the driver calls the sensor.
    pub closed spec fn address(&self) -> u8 {
        self.address
    }

    /// The sensor has a register behind every register number.
    pub proof fn lemma_register_count(&self)
        ensures
            self@.len() == REGISTER_COUNT,
    {
        self.twi.lemma_register_count();
    }

    /// A sensor at its usual address, with every register cleared.
    pub fn new() -> (sensor: MPU6050)
        ensures
            sensor.wf(),
            sensor.address() == MPU6050_ADDRESS,
            sensor@ == Seq::new(REGISTER_COUNT as nat, |i: int| 0u8),
    {
        MPU6050 { address: MPU6050_ADDRESS, twi: Twi::new(MPU6050_ADDRESS) }
    }

    /// Reads one register: sends its number and takes the byte that the
    /// sensor answers with.
    pub fn readregister(&self, reg: u8) -> (value: u8)
        requires
            self.wf(),
        ensures
            value == self@[reg as int],
    {
        let mut storage: [MaybeUninit<u8>; 2] = [MaybeUninit::uninit(); 2];
        let mut vec1 = frame_new(&mut storage);
        frame_push(&mut vec1, reg);
        self.twi.read_from_slave(self.address, 1, &mut vec1);
        let items: &[u8] = frame_as_slice(&vec1);
        proof {
            self.twi.lemma_register_count();
            assert(items@ =~= seq![reg, self@[reg as int]]);
        }
        items[1]
    }

    /// Writes one register: sends its number and the new value.
    pub fn writeregister(&mut self, reg: u8, value: u8)
        requires
            old(self).wf(),
        ensures
            final(self).wf(),
            final(self)@ == old(self)@.update(reg as int, value),
    {
        let mut storage: [MaybeUninit<u8>; 2] = [MaybeUninit::uninit(); 2];
        let mut vec2 = frame_new(&mut storage);
        frame_push(&mut vec2, reg);
        frame_push(&mut vec2, value);
        self.twi.write_to_slave(self.address, &vec2);
        proof {
            old(self).twi.lemma_register_count();
            assert(written(old(self)@, frame_items(vec2)) =~= old(self)@.update(reg as int, value));
        }
    }

    /// Forces one bit of one register and keeps the others.
    pub fn writeregister_bit(&mut self, reg: u8, pos: u8, state: bool)
        requires
            old(self).wf(),
            pos < 8,
        ensures
            final(self).wf(),
            final(self)@ == with_flag(old(self)@, reg, pos, state),
    {
        let mut value: u8 = self.readregister(reg);
        if state {
            value = value | (1u8 << pos);
        } else {
            value = value & !(1u8 << pos);
        }
        self.writeregister(reg, value);
    }

    /// Reads six measurement bytes from register `first` on, in one
    /// transfer, and joins them into three words.
    fn read_axes(&self, first: u8) -> (axes: RawAxes)
        requires
            self.wf(),
            first <= 250,
        ensures
            axes == axes_at(self@, first),
    {
        let mut storage: [MaybeUninit<u8>; 7] = [MaybeUninit::uninit(); 7];
        let mut v = frame_new(&mut storage);
        frame_push(&mut v, first);
        self.twi.read_from_slave(self.address, 6, &mut v);
        let items: &[u8] = frame_as_slice(&v);
        proof {
            self.twi.lemma_register_count();
            assert(items@ =~= seq![first] + self@.subrange(first as int, first + 6));
        }
        RawAxes {
            x: ((items[1] as u16) << 8) | (items[2] as u16),
            y: ((items[3] as u16) << 8) | (items[4] as u16),
            z: ((items[5] as u16) << 8) | (items[6] as u16),
        }
    }

    /// Selects the digital low-pass filter: replaces the three low bits of the
    /// configuration register.
    pub fn set_dlpf_mode(&mut self, dlpf: MPUdlpfT)
        requires
            old(self).wf(),
        ensures
            final(self).wf(),
            final(self)@ == with_bits(
                old(self)@,
                MPU6050_REG_CONFIG,
                0b1111_1000,
                dlpf.spec_code(),
            ),
    {
        let mut value: u8 = self.readregister(MPU6050_REG_CONFIG);
        value = value & 0b1111_1000;
        value = value | dlpf.code();
        self.writeregister(MPU6050_REG_CONFIG, value);
    }

    /// Selects the digital high-pass filter: clears the two low bits of the
    /// configuration register and joins the filter's code to it.
    pub fn set_dhpf_mode(&mut self, dhpf: MPUdhpfT)
        requires
            old(self).wf(),
        ensures
            final(self).wf(),
            final(self)@ == with_bits(
                old(self)@,
                MPU6050_REG_CONFIG,
                0b1111_1100,
                dhpf.spec_code(),
            ),
    {
        let mut value: u8 = self.readregister(MPU6050_REG_CONFIG);
        value = value & 0b1111_1100;
        value = value | dhpf.code();
        self.writeregister(MPU6050_REG_CONFIG, value);
    }

    /// Selects the gyroscope range: replaces bits 3 and 4 of the gyroscope configuration.
    pub fn set_scale(&mut self, scale: MPUdpsT)
        requires
            old(self).wf(),
        ensures
            final(self).wf(),
            final(self)@ == with_bits(
                old(self)@,
                MPU6050_REG_GYRO_CONFIG,
                0b1110_0111,
                scale.spec_code() << 3,
            ),
    {
        let mut value: u8 = self.readregister(MPU6050_REG_GYRO_CONFIG);
        value = value & 0b1110_0111;
        value = value | (scale.code() << 3);
        self.writeregister(MPU6050_REG_GYRO_CONFIG, value);
    }

    /// The gyroscope range that bits 3 and 4 of the gyroscope configuration select.
    pub fn get_scale(&mut self) -> (choice: MPUdpsT)
        requires
            old(self).wf(),
        ensures
            final(self).wf(),
            final(self)@ == old(self)@,
            choice == scale_of(old(self)@),
    {
        let mut value: u8 = self.readregister(MPU6050_REG_GYRO_CONFIG);
        value = value & 0b0001_1000;
        value = value >> 3;
        MPUdpsT::from_code(value)
    }

    /// Selects the accelerometer range: replaces bits 3 and 4 of the accelerometer configuration.
    pub fn set_range(&mut self, range: MPURangeT)
        requires
            old(self).wf(),
        ensures
            final(self).wf(),
            final(self)@ == with_bits(
                old(self)@,
                MPU6050_REG_ACCEL_CONFIG,
                0b1110_0111,
                range.spec_code() << 3,
            ),
    {
        let mut value: u8 = self.readregister(MPU6050_REG_ACCEL_CONFIG);
        value = value & 0b1110_0111;
        value = value | (range.code() << 3);
        self.writeregister(MPU6050_REG_ACCEL_CONFIG, value);
    }

    /// The accelerometer range that bits 3 and 4 of the accelerometer configuration select.
    pub fn get_range(&mut self) -> (choice: MPURangeT)
        requires
            old(self).wf(),
        ensures
            final(self).wf(),
            final(self)@ == old(self)@,
            choice == range_of(old(self)@),
    {
        let mut value: u8 = self.readregister(MPU6050_REG_ACCEL_CONFIG);
        value = value & 0b0001_1000;
        value = value >> 3;
        MPURangeT::from_code(value)
    }

    /// Selects the clock source: replaces the three low bits of power management 1.
    pub fn set_clock_source(&mut self, source: MPUClockSourceT)
        requires
            old(self).wf(),
        ensures
            final(self).wf(),
            final(self)@ == with_bits(
                old(self)@,
                MPU6050_REG_PWR_MGMT_1,
                0b1111_1000,
                source.spec_code(),
            ),
    {
        let mut value: u8 = self.readregister(MPU6050_REG_PWR_MGMT_1);
        value = value & 0b1111_1000;
        value = value | source.code();
        self.writeregister(MPU6050_REG_PWR_MGMT_1, value);
    }

    /// The clock source that the three low bits of power management 1 select.
    pub fn get_clock_source(&mut self) -> (choice: MPUClockSourceT)
        requires
            old(self).wf(),
        ensures
            final(self).wf(),
            final(self)@ == old(self)@,
            choice == clock_source_of(old(self)@),
    {
        let mut value: u8 = self.readregister(MPU6050_REG_PWR_MGMT_1);
        value = value & 0b0000_0111;
        MPUClockSourceT::from_code(value)
    }

    /// Writes bit 7 of the interrupt enable register.
    pub fn set_int_free_fall_enabled(&mut self, state: bool)
        requires
            old(self).wf(),
        ensures
            final(self).wf(),
            final(self)@ == with_flag(old(self)@, MPU6050_REG_INT_ENABLE, 7, state),
    {
        self.writeregister_bit(MPU6050_REG_INT_ENABLE, 7, state);
    }

    /// Reads bit 6 of the interrupt enable register.
    pub fn get_int_free_fall_enabled(&mut self) -> (state: bool)
        requires
            old(self).wf(),
        ensures
            final(self).wf(),
            final(self)@ == old(self)@,
            state == flag(old(self)@, MPU6050_REG_INT_ENABLE, 6),
    {
        let value: u8 = self.readregister(MPU6050_REG_INT_ENABLE);
        get_bit(value, 6)
    }

    /// Clears the two delay bits of the motion detection control, bits 4 and
    /// 5, and joins the delay's code to the register.
    pub fn set_accel_power_on_delay(&mut self, delay: MPUOnDelayT)
        requires
            old(self).wf(),
        ensures
            final(self).wf(),
            final(self)@ == with_bits(
                old(self)@,
                MPU6050_REG_MOT_DETECT_CTRL,
                0b1100_1111,
                delay.spec_code(),
            ),
    {
        let mut value: u8 = self.readregister(MPU6050_REG_MOT_DETECT_CTRL);
        value = value & 0b1100_1111;
        value = value | delay.code();
        self.writeregister(MPU6050_REG_MOT_DETECT_CTRL, value);
    }

    /// Reads the two delay bits of the motion detection control, bits 4 and 5,
    /// and takes them, at their place in the register, as a delay code.
    pub fn get_accel_power_on_delay(&mut self) -> (choice: MPUOnDelayT)
        requires
            old(self).wf(),
        ensures
            final(self).wf(),
            final(self)@ == old(self)@,
            choice == accel_power_on_delay_of(old(self)@),
    {
        let mut value: u8 = self.readregister(MPU6050_REG_MOT_DETECT_CTRL);
        value = value & 0b0011_0000;
        MPUOnDelayT::from_code(value)
    }

    /// Sets the motion detection threshold.
    pub fn set_motion_detection_threshold(&mut self, threshold: u8)
        requires
            old(self).wf(),
        ensures
            final(self).wf(),
            final(self)@ == old(self)@.update(MPU6050_REG_MOT_THRESHOLD as int, threshold),
    {
        self.writeregister(MPU6050_REG_MOT_THRESHOLD, threshold);
    }

    /// The motion detection threshold.
    pub fn get_motion_detection_threshold(&mut self) -> (threshold: u8)
        requires
            old(self).wf(),
        ensures
            final(self).wf(),
            final(self)@ == old(self)@,
            threshold == old(self)@[MPU6050_REG_MOT_THRESHOLD as int],
    {
        self.readregister(MPU6050_REG_MOT_THRESHOLD)
    }

    /// Sets the motion detection duration.
    pub fn set_motion_detection_duration(&mut self, duration: u8)
        requires
            old(self).wf(),
        ensures
            final(self).wf(),
            final(self)@ == old(self)@.update(MPU6050_REG_MOT_DURATION as int, duration),
    {
        self.writeregister(MPU6050_REG_MOT_DURATION, duration);
    }

    /// The motion detection duration.
    pub fn get_motion_detection_duration(&mut self) -> (duration: u8)
        requires
            old(self).wf(),
        ensures
            final(self).wf(),
            final(self)@ == old(self)@,
            duration == old(self)@[MPU6050_REG_MOT_DURATION as int],
    {
        self.readregister(MPU6050_REG_MOT_DURATION)
    }

    /// Sets the zero-motion detection threshold.
    pub fn set_zero_motion_detection_threshold(&mut self, threshold: u8)
        requires
            old(self).wf(),
        ensures
            final(self).wf(),
            final(self)@ == old(self)@.update(MPU6050_REG_ZMOT_THRESHOLD as int, threshold),
    {
        self.writeregister(MPU6050_REG_ZMOT_THRESHOLD, threshold);
    }

    /// The zero-motion detection threshold.
    pub fn get_zero_motion_detection_threshold(&mut self) -> (threshold: u8)
        requires
            old(self).wf(),
        ensures
            final(self).wf(),
            final(self)@ == old(self)@,
            threshold == old(self)@[MPU6050_REG_ZMOT_THRESHOLD as int],
    {
        self.readregister(MPU6050_REG_ZMOT_THRESHOLD)
    }

    /// Sets the zero-motion detection duration.
    pub fn set_zero_motion_detection_duration(&mut self, duration: u8)
        requires
            old(self).wf(),
        ensures
            final(self).wf(),
            final(self)@ == old(self)@.update(MPU6050_REG_ZMOT_DURATION as int, duration),
    {
        self.writeregister(MPU6050_REG_ZMOT_DURATION, duration);
    }

    /// The zero-motion detection duration.
    pub fn get_zero_motion_detection_duration(&mut self) -> (duration: u8)
        requires
            old(self).wf(),
        ensures
            final(self).wf(),
            final(self)@ == old(self)@,
            duration == old(self)@[MPU6050_REG_ZMOT_DURATION as int],
    {
        self.readregister(MPU6050_REG_ZMOT_DURATION)
    }

    /// Sets the free-fall detection threshold.
    pub fn set_free_fall_detection_threshold(&mut self, threshold: u8)
        requires
            old(self).wf(),
        ensures
            final(self).wf(),
            final(self)@ == old(self)@.update(MPU6050_REG_FF_THRESHOLD as int, threshold),
    {
        self.writeregister(MPU6050_REG_FF_THRESHOLD, threshold);
    }

    /// The free-fall detection threshold.
    pub fn get_free_fall_detection_threshold(&mut self) -> (threshold: u8)
        requires
            old(self).wf(),
        ensures
            final(self).wf(),
            final(self)@ == old(self)@,
            threshold == old(self)@[MPU6050_REG_FF_THRESHOLD as int],
    {
        self.readregister(MPU6050_REG_FF_THRESHOLD)
    }

    /// Sets the free-fall detection duration.
    pub fn set_free_fall_detection_duration(&mut self, duration: u8)
        requires
            old(self).wf(),
        ensures
            final(self).wf(),
            final(self)@ == old(self)@.update(MPU6050_REG_FF_DURATION as int, duration),
    {
        self.writeregister(MPU6050_REG_FF_DURATION, duration);
    }

    /// The free-fall detection duration.
    pub fn get_free_fall_detection_duration(&mut self) -> (duration: u8)
        requires
            old(self).wf(),
        ensures
            final(self).wf(),
            final(self)@ == old(self)@,
            duration == old(self)@[MPU6050_REG_FF_DURATION as int],
    {
        self.readregister(MPU6050_REG_FF_DURATION)
    }

    /// Puts the sensor to sleep or wakes it: writes bit 6 of power management 1.
    pub fn set_sleep_enabled(&mut self, state: bool)
        requires
            old(self).wf(),
        ensures
            final(self).wf(),
            final(self)@ == with_flag(old(self)@, MPU6050_REG_PWR_MGMT_1, 6, state),
    {
        self.writeregister_bit(MPU6050_REG_PWR_MGMT_1, 6, state);
    }

    /// Whether the sensor sleeps: bit 6 of power management 1.
    pub fn get_sleep_enabled(&mut self) -> (state: bool)
        requires
            old(self).wf(),
        ensures
            final(self).wf(),
            final(self)@ == old(self)@,
            state == flag(old(self)@, MPU6050_REG_PWR_MGMT_1, 6),
    {
        let value: u8 = self.readregister(MPU6050_REG_PWR_MGMT_1);
        get_bit(value, 6)
    }

    /// Whether the zero-motion interrupt is enabled: bit 5 of the interrupt enable register.
    pub fn get_int_zero_motion_enabled(&mut self) -> (state: bool)
        requires
            old(self).wf(),
        ensures
            final(self).wf(),
            final(self)@ == old(self)@,
            state == flag(old(self)@, MPU6050_REG_INT_ENABLE, 5),
    {
        let value: u8 = self.readregister(MPU6050_REG_INT_ENABLE);
        get_bit(value, 5)
    }

    /// Enables or disables the zero-motion interrupt: writes bit 5 of the
    /// interrupt enable register.
    pub fn set_int_zero_motion_enabled(&mut self, state: bool)
        requires
            old(self).wf(),
        ensures
            final(self).wf(),
            final(self)@ == with_flag(old(self)@, MPU6050_REG_INT_ENABLE, 5, state),
    {
        self.writeregister_bit(MPU6050_REG_INT_ENABLE, 5, state);
    }

    /// Whether the motion interrupt is enabled: bit 6 of the interrupt enable register.
    pub fn get_int_motion_enabled(&mut self) -> (state: bool)
        requires
            old(self).wf(),
        ensures
            final(self).wf(),
            final(self)@ == old(self)@,
            state == flag(old(self)@, MPU6050_REG_INT_ENABLE, 6),
    {
        let value: u8 = self.readregister(MPU6050_REG_INT_ENABLE);
        get_bit(value, 6)
    }

    /// Enables or disables the motion interrupt: writes bit 6 of the interrupt enable register.
    pub fn set_int_motion_enabled(&mut self, state: bool)
        requires
            old(self).wf(),
        ensures
            final(self).wf(),
            final(self)@ == with_flag(old(self)@, MPU6050_REG_INT_ENABLE, 6, state),
    {
        self.writeregister_bit(MPU6050_REG_INT_ENABLE, 6, state);
    }

    /// Enables or disables the sensor's own bus master: writes bit 5 of the user control register.
    pub fn set_i2c_master_mode_enabled(&mut self, state: bool)
        requires
            old(self).wf(),
        ensures
            final(self).wf(),
            final(self)@ == with_flag(old(self)@, MPU6050_REG_USER_CTRL, 5, state),
    {
        self.writeregister_bit(MPU6050_REG_USER_CTRL, 5, state);
    }

    /// Whether the sensor's own bus master is enabled: bit 5 of the user control register.
    pub fn get_i2c_master_mode_enabled(&mut self) -> (state: bool)
        requires
            old(self).wf(),
        ensures
            final(self).wf(),
            final(self)@ == old(self)@,
            state == flag(old(self)@, MPU6050_REG_USER_CTRL, 5),
    {
        let value: u8 = self.readregister(MPU6050_REG_USER_CTRL);
        get_bit(value, 5)
    }

    /// Enables or disables the bus bypass: writes bit 1 of the interrupt pin configuration.
    pub fn set_i2c_byepass_enabled(&mut self, state: bool)
        requires
            old(self).wf(),
        ensures
            final(self).wf(),
            final(self)@ == with_flag(old(self)@, MPU6050_REG_INT_PIN_CFG, 1, state),
    {
        self.writeregister_bit(MPU6050_REG_INT_PIN_CFG, 1, state);
    }

    /// Whether the bus bypass is enabled: bit 1 of the interrupt pin configuration.
    pub fn get_i2c_byepass_enabled(&mut self) -> (state: bool)
        requires
            old(self).wf(),
        ensures
            final(self).wf(),
            final(self)@ == old(self)@,
            state == flag(old(self)@, MPU6050_REG_INT_PIN_CFG, 1),
    {
        let value: u8 = self.readregister(MPU6050_REG_INT_PIN_CFG);
        get_bit(value, 1)
    }

    /// The interrupt status bits.
    pub fn get_int_status(&mut self) -> (status: u8)
        requires
            old(self).wf(),
        ensures
            final(self).wf(),
            final(self)@ == old(self)@,
            status == old(self)@[MPU6050_REG_INT_STATUS as int],
    {
        self.readregister(MPU6050_REG_INT_STATUS)
    }

    /// The raw accelerometer measurements of the three axes.
    pub fn read_accel(&mut self) -> (axes: RawAxes)
        requires
            old(self).wf(),
        ensures
            final(self).wf(),
            final(self)@ == old(self)@,
            axes == axes_at(old(self)@, MPU6050_REG_ACCEL_XOUT_H),
    {
        self.read_axes(MPU6050_REG_ACCEL_XOUT_H)
    }

    /// The raw gyroscope measurements of the three axes.
    pub fn read_gyro(&mut self) -> (axes: RawAxes)
        requires
            old(self).wf(),
        ensures
            final(self).wf(),
            final(self)@ == old(self)@,
            axes == axes_at(old(self)@, MPU6050_REG_GYRO_XOUT_H),
    {
        self.read_axes(MPU6050_REG_GYRO_XOUT_H)
    }

    /// Starts the sensor: selects the X gyroscope as clock source, sets the
    /// accelerometer range and the gyroscope range, and wakes the sensor.
    pub fn begin(&mut self, scale: MPUdpsT, range: MPURangeT) -> (running: bool)
        requires
            old(self).wf(),
        ensures
            final(self).wf(),
            running,
            final(self)@ == started(old(self)@, scale, range),
    {
        self.set_clock_source(MPUClockSourceT::MPU6050ClockPllGyrox);
        self.set_range(range);
        self.set_scale(scale);
        self.set_sleep_enabled(false);
        true
    }
}

/// A two-bit code written to bits 3 and 4 reads back from there.
proof fn lemma_shifted_code_reads(value: u8, code: u8)
    by (bit_vector)
    requires
        code <= 3,
    ensures
        (((value & 0b1110_0111) | (code << 3)) & 0b0001_1000) >> 3 == code,
{
}

/// A three-bit code written to the low bits reads back from there, and from
/// there still after bit 6 is written.
proof fn lemma_low_code_reads(value: u8, code: u8, state: bool)
    by (bit_vector)
    requires
        code <= 7,
    ensures
        ((value & 0b1111_1000) | code) & 0b0000_0111 == code,
        with_bit((value & 0b1111_1000) | code, 6, state) & 0b0000_0111 == code,
{
}

/// Bits 4 and 5 of a byte, left at their place, are never one of the codes
/// 1, 2 and 3.
proof fn lemma_delay_bits_are_no_code(value: u8)
    by (bit_vector)
    ensures
        value & 0b0011_0000 != 1,
        value & 0b0011_0000 != 2,
        value & 0b0011_0000 != 3,
{
}

/// The gyroscope range that was set is the range that is read.
pub proof fn lemma_scale_round_trip(registers: Seq<u8>, scale: MPUdpsT)
    requires
        registers.len() == REGISTER_COUNT,
    ensures
        scale_of(
            with_bits(registers, MPU6050_REG_GYRO_CONFIG, 0b1110_0111, scale.spec_code() << 3),
        ) == scale,
{
    lemma_shifted_code_reads(registers[MPU6050_REG_GYRO_CONFIG as int], scale.spec_code());
}

/// The accelerometer range that was set is the range that is read.
pub proof fn lemma_range_round_trip(registers: Seq<u8>, range: MPURangeT)
    requires
        registers.len() == REGISTER_COUNT,
    ensures
        range_of(
            with_bits(registers, MPU6050_REG_ACCEL_CONFIG, 0b1110_0111, range.spec_code() << 3),
        ) == range,
{
    lemma_shifted_code_reads(registers[MPU6050_REG_ACCEL_CONFIG as int], range.spec_code());
}

/// The clock source that was set is the clock source that is read.
pub proof fn lemma_clock_source_round_trip(registers: Seq<u8>, source: MPUClockSourceT)
    requires
        registers.len() == REGISTER_COUNT,
    ensures
        clock_source_of(
            with_bits(registers, MPU6050_REG_PWR_MGMT_1, 0b1111_1000, source.spec_code()),
        ) == source,
{
    lemma_low_code_reads(registers[MPU6050_REG_PWR_MGMT_1 as int], source.spec_code(), false);
}

/// A bit that was written reads as written, and writing it changes the
/// reading of no other bit of any register.
pub proof fn lemma_flag_round_trip(
    registers: Seq<u8>,
    reg: u8,
    pos: u8,
    state: bool,
    other_reg: u8,
    other_pos: u8,
)
    requires
        registers.len() == REGISTER_COUNT,
        pos < 8,
        other_pos < 8,
    ensures
        flag(with_flag(registers, reg, pos, state), reg, pos) == state,
        other_reg != reg || other_pos != pos ==> flag(
            with_flag(registers, reg, pos, state),
            other_reg,
            other_pos,
        ) == flag(registers, other_reg, other_pos),
{
    lemma_with_bit_reads(registers[reg as int], pos, state, pos);
    lemma_with_bit_reads(registers[reg as int], pos, state, other_pos);
}

/// Whatever the registers hold, the power-on delay is read as no delay: the
/// delay bits are compared with the delay codes where they stand, in bits 4
/// and 5.
pub proof fn lemma_power_on_delay_reads_as_none(registers: Seq<u8>)
    ensures
        accel_power_on_delay_of(registers) == MPUOnDelayT::MPU6050NoDelay,
{
    lemma_delay_bits_are_no_code(registers[MPU6050_REG_MOT_DETECT_CTRL as int]);
}

/// A started sensor reads back the ranges it was started with, runs from the
/// X gyroscope and is awake; starting changes no register but the two range
/// configurations and power management 1.
pub proof fn lemma_started_sensor(registers: Seq<u8>, scale: MPUdpsT, range: MPURangeT, reg: u8)
    requires
        registers.len() == REGISTER_COUNT,
    ensures
        scale_of(started(registers, scale, range)) == scale,
        range_of(started(registers, scale, range)) == range,
        clock_source_of(started(registers, scale, range))
            == MPUClockSourceT::MPU6050ClockPllGyrox,
        !flag(started(registers, scale, range), MPU6050_REG_PWR_MGMT_1, 6),
        reg != MPU6050_REG_PWR_MGMT_1 && reg != MPU6050_REG_ACCEL_CONFIG && reg
            != MPU6050_REG_GYRO_CONFIG ==> started(registers, scale, range)[reg as int]
            == registers[reg as int],
        started(registers, scale, range).len() == registers.len(),
{
    let power = registers[MPU6050_REG_PWR_MGMT_1 as int];
    lemma_shifted_code_reads(registers[MPU6050_REG_GYRO_CONFIG as int], scale.spec_code());
    lemma_shifted_code_reads(registers[MPU6050_REG_ACCEL_CONFIG as int], range.spec_code());
    lemma_low_code_reads(power, 1, false);
    lemma_with_bit_reads((power & 0b1111_1000) | 1, 6, false, 6);
}

/// The word of two bytes is 256 times the high byte plus the low byte.
pub proof fn lemma_word_value(high: u8, low: u8)
    by (bit_vector)
    ensures
        word(high, low) == 256 * high + low,
{
}

} // verus!
