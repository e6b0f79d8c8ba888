use rustduino::sensors::mpu6050::{
    MPUClockSourceT, MPUOnDelayT, MPURangeT, MPUdhpfT, MPUdlpfT, MPUdpsT, RawAxes, MPU6050,
    MPU6050_REG_ACCEL_CONFIG, MPU6050_REG_ACCEL_XOUT_H, MPU6050_REG_CONFIG,
    MPU6050_REG_FF_DURATION, MPU6050_REG_FF_THRESHOLD, MPU6050_REG_GYRO_CONFIG,
    MPU6050_REG_GYRO_XOUT_H, MPU6050_REG_INT_ENABLE, MPU6050_REG_INT_PIN_CFG,
    MPU6050_REG_INT_STATUS, MPU6050_REG_MOT_DETECT_CTRL, MPU6050_REG_MOT_DURATION,
    MPU6050_REG_MOT_THRESHOLD, MPU6050_REG_PWR_MGMT_1, MPU6050_REG_USER_CTRL,
    MPU6050_REG_ZMOT_DURATION, MPU6050_REG_ZMOT_THRESHOLD,
};

fn sensor_with(reg: u8, value: u8) -> MPU6050 {
    let mut sensor = MPU6050::new();
    sensor.writeregister(reg, value);
    sensor
}

fn all_registers(sensor: &MPU6050) -> Vec<u8> {
    (0..=255u8).map(|reg| sensor.readregister(reg)).collect()
}

#[test]
fn a_new_sensor_has_cleared_registers() {
    let sensor = MPU6050::new();
    assert_eq!(all_registers(&sensor), vec![0u8; 256]);
}

#[test]
fn write_register_changes_that_register_only() {
    let mut sensor = MPU6050::new();
    sensor.writeregister(0x00, 0x11);
    sensor.writeregister(0xFF, 0x22);
    sensor.writeregister(0x6B, 0x33);
    let mut expected = vec![0u8; 256];
    expected[0x00] = 0x11;
    expected[0xFF] = 0x22;
    expected[0x6B] = 0x33;
    assert_eq!(all_registers(&sensor), expected);
    assert_eq!(sensor.readregister(0x6B), 0x33);
    sensor.writeregister(0x6B, 0x44);
    assert_eq!(sensor.readregister(0x6B), 0x44);
    assert_eq!(sensor.readregister(0x6A), 0);
}

#[test]
fn write_register_bit_forces_one_bit() {
    let mut sensor = sensor_with(0x20, 0b1010_0101);
    sensor.writeregister_bit(0x20, 1, true);
    assert_eq!(sensor.readregister(0x20), 0b1010_0111);
    sensor.writeregister_bit(0x20, 7, false);
    assert_eq!(sensor.readregister(0x20), 0b0010_0111);
    sensor.writeregister_bit(0x20, 0, true);
    assert_eq!(sensor.readregister(0x20), 0b0010_0111);
    sensor.writeregister_bit(0x20, 3, false);
    assert_eq!(sensor.readregister(0x20), 0b0010_0111);
    assert_eq!(sensor.readregister(0x21), 0);
}

#[test]
fn low_pass_filter_replaces_the_three_low_bits() {
    let table = [
        (MPUdlpfT::MPU6050dlpf6, 0b110u8),
        (MPUdlpfT::MPU6050dlpf5, 0b101),
        (MPUdlpfT::MPU6050dlpf4, 0b100),
        (MPUdlpfT::MPU6050dlpf3, 0b011),
        (MPUdlpfT::MPU6050dlpf2, 0b010),
        (MPUdlpfT::MPU6050dlpf1, 0b001),
        (MPUdlpfT::MPU6050dlpf0, 0b000),
    ];
    for (dlpf, code) in table {
        assert_eq!(dlpf.code(), code);
        let mut sensor = sensor_with(MPU6050_REG_CONFIG, 0xFF);
        sensor.set_dlpf_mode(dlpf);
        assert_eq!(sensor.readregister(MPU6050_REG_CONFIG), 0b1111_1000 | code);
        let mut sensor = MPU6050::new();
        sensor.set_dlpf_mode(dlpf);
        assert_eq!(sensor.readregister(MPU6050_REG_CONFIG), code);
    }
}

#[test]
fn high_pass_filter_clears_two_bits_and_joins_its_code() {
    let table = [
        (MPUdhpfT::MPU6050dhpfReset, 0b000u8),
        (MPUdhpfT::MPU6050dhpf5HZ, 0b001),
        (MPUdhpfT::MPU6050dhpf2_5HZ, 0b010),
        (MPUdhpfT::MPU6050dhpf1_25HZ, 0b011),
        (MPUdhpfT::MPU6050dhpf0_63HZ, 0b100),
        (MPUdhpfT::MPU6050dhpfHold, 0b101),
    ];
    for (dhpf, code) in table {
        assert_eq!(dhpf.code(), code);
        let mut sensor = MPU6050::new();
        sensor.set_dhpf_mode(dhpf);
        assert_eq!(sensor.readregister(MPU6050_REG_CONFIG), code);
        let mut sensor = sensor_with(MPU6050_REG_CONFIG, 0b0101_0111);
        sensor.set_dhpf_mode(dhpf);
        assert_eq!(sensor.readregister(MPU6050_REG_CONFIG), 0b0101_0100 | code);
    }
}

#[test]
fn gyroscope_range_round_trip() {
    let table = [
        (MPUdpsT::MPU6050Scale2000DPS, 0b0001_1000u8),
        (MPUdpsT::MPU6050Scale1000DPS, 0b0001_0000),
        (MPUdpsT::MPU6050Scale500DPS, 0b0000_1000),
        (MPUdpsT::MPU6050Scale250DPS, 0b0000_0000),
    ];
    for (scale, bits) in table {
        for start in [0x00u8, 0xFF, 0b1010_0101] {
            let mut sensor = sensor_with(MPU6050_REG_GYRO_CONFIG, start);
            sensor.set_scale(scale);
            assert_eq!(sensor.readregister(MPU6050_REG_GYRO_CONFIG), (start & 0b1110_0111) | bits);
            assert_eq!(sensor.get_scale(), scale);
            assert_eq!(sensor.readregister(MPU6050_REG_ACCEL_CONFIG), 0);
        }
    }
}

#[test]
fn accelerometer_range_round_trip() {
    let table = [
        (MPURangeT::MPU6050Range2G, 0b0000_0000u8),
        (MPURangeT::MPU6050Range4G, 0b0000_1000),
        (MPURangeT::MPU6050Range8G, 0b0001_0000),
        (MPURangeT::MPU6050Range16G, 0b0001_1000),
    ];
    for (range, bits) in table {
        for start in [0x00u8, 0xFF, 0b0101_1010] {
            let mut sensor = sensor_with(MPU6050_REG_ACCEL_CONFIG, start);
            sensor.set_range(range);
            assert_eq!(
                sensor.readregister(MPU6050_REG_ACCEL_CONFIG),
                (start & 0b1110_0111) | bits
            );
            assert_eq!(sensor.get_range(), range);
            assert_eq!(sensor.readregister(MPU6050_REG_GYRO_CONFIG), 0);
        }
    }
}

#[test]
fn clock_source_round_trip() {
    let table = [
        (MPUClockSourceT::MPU6050ClockInternal8MHZ, 0u8),
        (MPUClockSourceT::MPU6050ClockPllGyrox, 1),
        (MPUClockSourceT::MPU6050ClockPllGyroy, 2),
        (MPUClockSourceT::MPU6050ClockPllGyroz, 3),
        (MPUClockSourceT::MPU6050ClockExternal32MHZ, 4),
        (MPUClockSourceT::MPU6050ClockExternal19MHZ, 5),
        (MPUClockSourceT::MPU6050ClockKeepReset, 7),
    ];
    for (source, code) in table {
        for start in [0x00u8, 0xFF, 0x40] {
            let mut sensor = sensor_with(MPU6050_REG_PWR_MGMT_1, start);
            sensor.set_clock_source(source);
            assert_eq!(sensor.readregister(MPU6050_REG_PWR_MGMT_1), (start & 0b1111_1000) | code);
            assert_eq!(sensor.get_clock_source(), source);
        }
    }
}

#[test]
fn clock_source_code_six_reads_as_keep_reset() {
    let mut sensor = sensor_with(MPU6050_REG_PWR_MGMT_1, 0b0000_0110);
    assert_eq!(sensor.get_clock_source(), MPUClockSourceT::MPU6050ClockKeepReset);
    assert_eq!(MPUClockSourceT::from_code(6), MPUClockSourceT::MPU6050ClockKeepReset);
    assert_eq!(MPUClockSourceT::from_code(200), MPUClockSourceT::MPU6050ClockKeepReset);
}

#[test]
fn free_fall_interrupt_is_written_to_bit_seven_and_read_from_bit_six() {
    let mut sensor = MPU6050::new();
    sensor.set_int_free_fall_enabled(true);
    assert_eq!(sensor.readregister(MPU6050_REG_INT_ENABLE), 0b1000_0000);
    assert!(!sensor.get_int_free_fall_enabled());
    sensor.set_int_motion_enabled(true);
    assert_eq!(sensor.readregister(MPU6050_REG_INT_ENABLE), 0b1100_0000);
    assert!(sensor.get_int_free_fall_enabled());
    sensor.set_int_free_fall_enabled(false);
    assert_eq!(sensor.readregister(MPU6050_REG_INT_ENABLE), 0b0100_0000);
    assert!(sensor.get_int_free_fall_enabled());
}

#[test]
fn power_on_delay_is_joined_to_the_low_bits_and_always_read_as_none() {
    let table = [
        (MPUOnDelayT::MPU6050Delay3MS, 3u8),
        (MPUOnDelayT::MPU6050Delay2MS, 2),
        (MPUOnDelayT::MPU6050Delay1MS, 1),
        (MPUOnDelayT::MPU6050NoDelay, 0),
    ];
    for (delay, code) in table {
        assert_eq!(delay.code(), code);
        let mut sensor = sensor_with(MPU6050_REG_MOT_DETECT_CTRL, 0xFF);
        sensor.set_accel_power_on_delay(delay);
        assert_eq!(sensor.readregister(MPU6050_REG_MOT_DETECT_CTRL), 0b1100_1111);
        assert_eq!(sensor.get_accel_power_on_delay(), MPUOnDelayT::MPU6050NoDelay);
        let mut sensor = MPU6050::new();
        sensor.set_accel_power_on_delay(delay);
        assert_eq!(sensor.readregister(MPU6050_REG_MOT_DETECT_CTRL), code);
        assert_eq!(sensor.get_accel_power_on_delay(), MPUOnDelayT::MPU6050NoDelay);
    }
    for held in [0x30u8, 0x20, 0x10, 0x03, 0xFF] {
        let mut sensor = sensor_with(MPU6050_REG_MOT_DETECT_CTRL, held);
        assert_eq!(sensor.get_accel_power_on_delay(), MPUOnDelayT::MPU6050NoDelay);
    }
    assert_eq!(MPUOnDelayT::from_code(3), MPUOnDelayT::MPU6050Delay3MS);
    assert_eq!(MPUOnDelayT::from_code(2), MPUOnDelayT::MPU6050Delay2MS);
    assert_eq!(MPUOnDelayT::from_code(1), MPUOnDelayT::MPU6050Delay1MS);
    assert_eq!(MPUOnDelayT::from_code(0), MPUOnDelayT::MPU6050NoDelay);
}

#[test]
fn thresholds_and_durations_round_trip() {
    let mut sensor = MPU6050::new();
    sensor.set_motion_detection_threshold(1);
    sensor.set_motion_detection_duration(2);
    sensor.set_zero_motion_detection_threshold(3);
    sensor.set_zero_motion_detection_duration(4);
    sensor.set_free_fall_detection_threshold(5);
    sensor.set_free_fall_detection_duration(255);
    assert_eq!(sensor.get_motion_detection_threshold(), 1);
    assert_eq!(sensor.get_motion_detection_duration(), 2);
    assert_eq!(sensor.get_zero_motion_detection_threshold(), 3);
    assert_eq!(sensor.get_zero_motion_detection_duration(), 4);
    assert_eq!(sensor.get_free_fall_detection_threshold(), 5);
    assert_eq!(sensor.get_free_fall_detection_duration(), 255);
    assert_eq!(sensor.readregister(MPU6050_REG_MOT_THRESHOLD), 1);
    assert_eq!(sensor.readregister(MPU6050_REG_MOT_DURATION), 2);
    assert_eq!(sensor.readregister(MPU6050_REG_ZMOT_THRESHOLD), 3);
    assert_eq!(sensor.readregister(MPU6050_REG_ZMOT_DURATION), 4);
    assert_eq!(sensor.readregister(MPU6050_REG_FF_THRESHOLD), 5);
    assert_eq!(sensor.readregister(MPU6050_REG_FF_DURATION), 255);
}

#[test]
fn sleep_flag_is_bit_six_of_power_management() {
    let mut sensor = sensor_with(MPU6050_REG_PWR_MGMT_1, 0b0000_0001);
    assert!(!sensor.get_sleep_enabled());
    sensor.set_sleep_enabled(true);
    assert_eq!(sensor.readregister(MPU6050_REG_PWR_MGMT_1), 0b0100_0001);
    assert!(sensor.get_sleep_enabled());
    sensor.set_sleep_enabled(false);
    assert_eq!(sensor.readregister(MPU6050_REG_PWR_MGMT_1), 0b0000_0001);
    assert!(!sensor.get_sleep_enabled());
}

#[test]
fn interrupt_enable_flags() {
    let mut sensor = MPU6050::new();
    sensor.set_int_zero_motion_enabled(true);
    assert_eq!(sensor.readregister(MPU6050_REG_INT_ENABLE), 0b0010_0000);
    assert!(sensor.get_int_zero_motion_enabled());
    assert!(!sensor.get_int_motion_enabled());
    sensor.set_int_motion_enabled(true);
    assert_eq!(sensor.readregister(MPU6050_REG_INT_ENABLE), 0b0110_0000);
    assert!(sensor.get_int_motion_enabled());
    sensor.set_int_zero_motion_enabled(false);
    assert_eq!(sensor.readregister(MPU6050_REG_INT_ENABLE), 0b0100_0000);
    assert!(!sensor.get_int_zero_motion_enabled());
    assert!(sensor.get_int_motion_enabled());
}

#[test]
fn bus_master_and_bypass_flags() {
    let mut sensor = MPU6050::new();
    assert!(!sensor.get_i2c_master_mode_enabled());
    sensor.set_i2c_master_mode_enabled(true);
    assert_eq!(sensor.readregister(MPU6050_REG_USER_CTRL), 0b0010_0000);
    assert!(sensor.get_i2c_master_mode_enabled());
    sensor.set_i2c_master_mode_enabled(false);
    assert_eq!(sensor.readregister(MPU6050_REG_USER_CTRL), 0);
    assert!(!sensor.get_i2c_byepass_enabled());
    sensor.set_i2c_byepass_enabled(true);
    assert_eq!(sensor.readregister(MPU6050_REG_INT_PIN_CFG), 0b0000_0010);
    assert!(sensor.get_i2c_byepass_enabled());
    sensor.set_i2c_byepass_enabled(false);
    assert_eq!(sensor.readregister(MPU6050_REG_INT_PIN_CFG), 0);
    assert!(!sensor.get_i2c_byepass_enabled());
}

#[test]
fn interrupt_status_is_read_as_it_is() {
    let mut sensor = sensor_with(MPU6050_REG_INT_STATUS, 0b1001_0001);
    assert_eq!(sensor.get_int_status(), 0b1001_0001);
    assert_eq!(sensor.get_int_status(), 0b1001_0001);
}

#[test]
fn measurements_are_read_high_byte_first() {
    let mut sensor = MPU6050::new();
    let accel = [0x12u8, 0x34, 0xFF, 0xFF, 0x00, 0x01];
    let gyro = [0x80u8, 0x00, 0x00, 0xFF, 0xAB, 0xCD];
    for offset in 0..6u8 {
        sensor.writeregister(MPU6050_REG_ACCEL_XOUT_H + offset, accel[offset as usize]);
        sensor.writeregister(MPU6050_REG_GYRO_XOUT_H + offset, gyro[offset as usize]);
    }
    assert_eq!(sensor.read_accel(), RawAxes { x: 0x1234, y: 0xFFFF, z: 0x0001 });
    assert_eq!(sensor.read_gyro(), RawAxes { x: 0x8000, y: 0x00FF, z: 0xABCD });
    assert_eq!(sensor.read_accel(), RawAxes { x: 4660, y: 65535, z: 1 });
}

#[test]
fn begin_starts_a_sleeping_sensor() {
    let mut sensor = sensor_with(MPU6050_REG_PWR_MGMT_1, 0b0100_0000);
    sensor.writeregister(MPU6050_REG_GYRO_CONFIG, 0b1110_0000);
    sensor.writeregister(MPU6050_REG_ACCEL_CONFIG, 0b0001_1111);
    sensor.writeregister(MPU6050_REG_CONFIG, 0x55);
    assert!(sensor.begin(MPUdpsT::MPU6050Scale500DPS, MPURangeT::MPU6050Range8G));
    assert_eq!(sensor.readregister(MPU6050_REG_PWR_MGMT_1), 0b0000_0001);
    assert_eq!(sensor.readregister(MPU6050_REG_GYRO_CONFIG), 0b1110_1000);
    assert_eq!(sensor.readregister(MPU6050_REG_ACCEL_CONFIG), 0b0001_0111);
    assert_eq!(sensor.readregister(MPU6050_REG_CONFIG), 0x55);
    assert_eq!(sensor.get_scale(), MPUdpsT::MPU6050Scale500DPS);
    assert_eq!(sensor.get_range(), MPURangeT::MPU6050Range8G);
    assert_eq!(sensor.get_clock_source(), MPUClockSourceT::MPU6050ClockPllGyrox);
    assert!(!sensor.get_sleep_enabled());
    let mut expected = vec![0u8; 256];
    expected[MPU6050_REG_PWR_MGMT_1 as usize] = 0b0000_0001;
    expected[MPU6050_REG_GYRO_CONFIG as usize] = 0b1110_1000;
    expected[MPU6050_REG_ACCEL_CONFIG as usize] = 0b0001_0111;
    expected[MPU6050_REG_CONFIG as usize] = 0x55;
    assert_eq!(all_registers(&sensor), expected);
}

#[test]
fn begin_with_every_pair_of_ranges() {
    let scales = [
        MPUdpsT::MPU6050Scale2000DPS,
        MPUdpsT::MPU6050Scale1000DPS,
        MPUdpsT::MPU6050Scale500DPS,
        MPUdpsT::MPU6050Scale250DPS,
    ];
    let ranges = [
        MPURangeT::MPU6050Range2G,
        MPURangeT::MPU6050Range4G,
        MPURangeT::MPU6050Range8G,
        MPURangeT::MPU6050Range16G,
    ];
    for scale in scales {
        for range in ranges {
            let mut sensor = MPU6050::new();
            assert!(sensor.begin(scale, range));
            assert_eq!(sensor.get_scale(), scale);
            assert_eq!(sensor.get_range(), range);
            assert_eq!(sensor.readregister(MPU6050_REG_GYRO_CONFIG), scale.code() << 3);
            assert_eq!(sensor.readregister(MPU6050_REG_ACCEL_CONFIG), range.code() << 3);
            assert_eq!(sensor.readregister(MPU6050_REG_PWR_MGMT_1), 1);
        }
    }
}
