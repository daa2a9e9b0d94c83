use sensorbus::bus::BusArbiter;
use sensorbus::bus::TransportError;
use sensorbus::icm42670p::identity_matches;
use sensorbus::icm42670p::i16_from_le;
use sensorbus::icm42670p::DeviceAddr;
use sensorbus::icm42670p::PhysicalSample;
use sensorbus::icm42670p::RangeSetting;
use sensorbus::icm42670p::RawSample;
use sensorbus::icm42670p::Register;
use sensorbus::icm42670p::ICM42670P;
use sensorbus::icm42670p::DEVICE_ID;
use sensorbus::icm42670p::MAX_RAW_MAGNITUDE;
use sensorbus::stub::StubChannel;


fn all_registers() -> Vec<Register> {
    vec![
        Register::MclkRdy,
        Register::WhoAmI,
        Register::AccelConfig0,
        Register::IntConfig,
        Register::TempData1,
        Register::TempData0,
        Register::AccelDataX1,
        Register::AccelDataX0,
        Register::AccelDataY1,
        Register::AccelDataY0,
        Register::AccelDataZ1,
        Register::AccelDataZ0,
        Register::GyroDataX1,
        Register::GyroDataX0,
        Register::GyroDataY1,
        Register::GyroDataY0,
        Register::GyroDataZ1,
        Register::GyroDataZ0,
    ]
}

#[test]
fn identity_end_to_end() {
    let mut bus = BusArbiter::new(StubChannel::new());
    let handle = bus.acquire_handle();
    let driver = ICM42670P::new(handle, DeviceAddr::AD0).unwrap();
    // Program the simulated part's identity register, then read it
    // back the way initialization code does.
    driver.write_register(&mut bus, Register::WhoAmI, 0x67).unwrap();
    let id = driver.read_device_id_register(&mut bus).unwrap();
    assert_eq!(id, 0x67);
    assert_eq!(id, DEVICE_ID);
    assert!(identity_matches(id));
    assert!(!identity_matches(0x66));
}

#[test]
fn register_round_trip_every_register() {
    let mut bus = BusArbiter::new(StubChannel::new());
    let handle = bus.acquire_handle();
    let driver = ICM42670P::new(handle, DeviceAddr::AD0).unwrap();
    for (i, reg) in all_registers().into_iter().enumerate() {
        let value = (i as u8) * 7 + 3;
        driver.write_register(&mut bus, reg, value).unwrap();
        let back = driver.read_register(&mut bus, reg).unwrap();
        assert_eq!(back, value);
    }
}

#[test]
fn range_decoding_covers_all_patterns() {
    assert_eq!(RangeSetting::from_config(0x00), RangeSetting::G16);
    assert_eq!(RangeSetting::from_config(0x10), RangeSetting::G8);
    assert_eq!(RangeSetting::from_config(0x20), RangeSetting::G4);
    assert_eq!(RangeSetting::from_config(0x30), RangeSetting::G2);
    // Bits outside the range-select field do not disturb the decoding.
    assert_eq!(RangeSetting::from_config(0xCF), RangeSetting::G16);
    assert_eq!(RangeSetting::from_config(0x5A), RangeSetting::G8);
    assert_eq!(RangeSetting::from_config(0xEF), RangeSetting::G4);
    assert_eq!(RangeSetting::from_config(0xFF), RangeSetting::G2);
    assert_eq!(RangeSetting::from_config(0x00).full_scale(), 16);
    assert_eq!(RangeSetting::from_config(0x10).full_scale(), 8);
    assert_eq!(RangeSetting::from_config(0x20).full_scale(), 4);
    assert_eq!(RangeSetting::from_config(0x30).full_scale(), 2);
}

#[test]
fn range_read_from_device() {
    let mut bus = BusArbiter::new(StubChannel::new());
    let handle = bus.acquire_handle();
    let driver = ICM42670P::new(handle, DeviceAddr::AD0).unwrap();
    driver.write_register(&mut bus, Register::AccelConfig0, 0x10).unwrap();
    assert_eq!(driver.read_accel_range(&mut bus).unwrap(), RangeSetting::G8);
}

#[test]
fn endianness_of_sample_assembly() {
    assert_eq!(i16_from_le(0x00, 0x01), 256);
    assert_eq!(i16_from_le(0xFF, 0x7F), 32767);
    assert_eq!(i16_from_le(0x00, 0x80), -32768);
    assert_eq!(i16_from_le(0x00, 0x00), 0);
    assert_eq!(i16_from_le(0xFF, 0xFF), -1);
}

#[test]
fn physical_scaling_exact_numerators() {
    let raw = RawSample { x: 16384, y: 16384, z: 16384 };
    let expected = [
        (RangeSetting::G2, 32768i32),
        (RangeSetting::G4, 65536i32),
        (RangeSetting::G8, 131072i32),
        (RangeSetting::G16, 262144i32),
    ];
    for (range, num) in expected {
        let sample = PhysicalSample { raw, range };
        assert_eq!(sample.x_numerator(), num);
        assert_eq!(sample.y_numerator(), num);
        assert_eq!(sample.z_numerator(), num);
    }
}

#[test]
fn physical_scaling_in_g() {
    let raw = RawSample { x: 16384, y: 0, z: -16384 };
    let sample = PhysicalSample { raw, range: RangeSetting::G4 };
    let denom = MAX_RAW_MAGNITUDE as f64;
    let x_g = sample.x_numerator() as f64 / denom;
    assert!((x_g - 2.00006).abs() < 1e-4);
    assert_eq!(sample.y_numerator(), 0);
    let z_g = sample.z_numerator() as f64 / denom;
    assert!((z_g + 2.00006).abs() < 1e-4);
}

#[test]
fn full_sample_read_end_to_end() {
    let mut bus = BusArbiter::new(StubChannel::new());
    let handle = bus.acquire_handle();
    let driver = ICM42670P::new(handle, DeviceAddr::AD0).unwrap();
    for (reg, value) in [
        (Register::AccelDataX0, 0x00),
        (Register::AccelDataX1, 0x01),
        (Register::AccelDataY0, 0xFF),
        (Register::AccelDataY1, 0x7F),
        (Register::AccelDataZ0, 0x00),
        (Register::AccelDataZ1, 0x80),
        (Register::AccelConfig0, 0x20),
    ] {
        driver.write_register(&mut bus, reg, value).unwrap();
    }
    let sample = driver.read_accel(&mut bus).unwrap();
    assert_eq!(sample.raw, RawSample { x: 256, y: 32767, z: -32768 });
    assert_eq!(sample.range, RangeSetting::G4);
    assert_eq!(sample.x_numerator(), 1024);
    assert_eq!(sample.y_numerator(), 131068);
    assert_eq!(sample.z_numerator(), -131072);
}

#[test]
fn wrong_address_fails_in_write_phase() {
    // The stub's one device answers at 0x68; a driver strapped to AD1
    // addresses 0x69 and gets no acknowledgment.
    let mut bus = BusArbiter::new(StubChannel::new());
    let handle = bus.acquire_handle();
    let driver = ICM42670P::new(handle, DeviceAddr::AD1).unwrap();
    let err = driver.read_device_id_register(&mut bus).unwrap_err();
    assert_eq!(err, TransportError::WritePhase);
}

#[test]
fn register_offsets_match_the_device_map() {
    assert_eq!(Register::MclkRdy.address(), 0x00);
    assert_eq!(Register::WhoAmI.address(), 0x75);
    assert_eq!(Register::AccelConfig0.address(), 0x21);
    assert_eq!(Register::IntConfig.address(), 0x06);
    assert_eq!(Register::TempData1.address(), 0x09);
    assert_eq!(Register::TempData0.address(), 0x0A);
    assert_eq!(Register::AccelDataX1.address(), 0x0B);
    assert_eq!(Register::AccelDataX0.address(), 0x0C);
    assert_eq!(Register::AccelDataY1.address(), 0x0D);
    assert_eq!(Register::AccelDataY0.address(), 0x0E);
    assert_eq!(Register::AccelDataZ1.address(), 0x0F);
    assert_eq!(Register::AccelDataZ0.address(), 0x10);
    assert_eq!(Register::GyroDataX1.address(), 0x11);
    assert_eq!(Register::GyroDataX0.address(), 0x12);
    assert_eq!(Register::GyroDataY1.address(), 0x13);
    assert_eq!(Register::GyroDataY0.address(), 0x14);
    assert_eq!(Register::GyroDataZ1.address(), 0x15);
    assert_eq!(Register::GyroDataZ0.address(), 0x16);
    assert_eq!(DeviceAddr::AD0.value(), 0x68);
    assert_eq!(DeviceAddr::AD1.value(), 0x69);
}
