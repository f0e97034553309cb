use tcs3400::RgbCInterruptPersistence as IP;
use tcs3400::{
    BitFlags, Error, I2cWrite, Register, RgbCGain, RgbCInterruptPersistence, Tcs3400,
    DEVICE_ADDRESS,
};

/// A bus that records accepted writes and refuses the attempt numbered `fail_on`.
struct MockBus {
    writes: Vec<Vec<u8>>,
    attempts: usize,
    fail_on: Option<usize>,
}

impl I2cWrite for MockBus {
    type Error = u8;

    fn write(&mut self, address: u8, bytes: &[u8]) -> Result<(), u8> {
        assert_eq!(address, DEVICE_ADDRESS);
        let n = self.attempts;
        self.attempts += 1;
        if self.fail_on == Some(n) {
            return Err(7);
        }
        self.writes.push(bytes.to_vec());
        Ok(())
    }
}

fn driver() -> Tcs3400<MockBus> {
    Tcs3400::new(MockBus { writes: Vec::new(), attempts: 0, fail_on: None })
}

fn failing_driver(fail_on: usize) -> Tcs3400<MockBus> {
    Tcs3400::new(MockBus { writes: Vec::new(), attempts: 0, fail_on: Some(fail_on) })
}

fn writes(dev: Tcs3400<MockBus>) -> Vec<Vec<u8>> {
    dev.destroy().writes
}

#[test]
fn enable_sets_power_bit() {
    let mut dev = driver();
    assert!(dev.enable().is_ok());
    assert_eq!(writes(dev), vec![vec![Register::ENABLE, 0x01]]);
}

#[test]
fn enable_twice_writes_same_value() {
    let mut dev = driver();
    dev.enable().unwrap();
    dev.enable().unwrap();
    assert_eq!(writes(dev), vec![vec![Register::ENABLE, 0x01], vec![Register::ENABLE, 0x01]]);
}

#[test]
fn disable_after_enable_clears_only_power_bit() {
    let mut dev = driver();
    dev.enable_rgbc().unwrap();
    dev.enable_wait().unwrap();
    dev.enable().unwrap();
    dev.disable().unwrap();
    assert_eq!(
        writes(dev),
        vec![
            vec![Register::ENABLE, 0x02],
            vec![Register::ENABLE, 0x0A],
            vec![Register::ENABLE, 0x0B],
            vec![Register::ENABLE, 0x0A],
        ]
    );
}

#[test]
fn enable_disable_pairs_touch_their_bits() {
    let mut dev = driver();
    dev.enable_rgbc().unwrap();
    dev.enable_rgbc_interrupts().unwrap();
    dev.enable_wait().unwrap();
    dev.disable_rgbc().unwrap();
    dev.disable_rgbc_interrupts().unwrap();
    dev.disable_wait().unwrap();
    assert_eq!(
        writes(dev),
        vec![
            vec![Register::ENABLE, BitFlags::RGBC_EN],
            vec![Register::ENABLE, 0x12],
            vec![Register::ENABLE, 0x1A],
            vec![Register::ENABLE, 0x18],
            vec![Register::ENABLE, 0x08],
            vec![Register::ENABLE, 0x00],
        ]
    );
}

#[test]
fn failed_enable_rgbc_keeps_cached_value() {
    let mut dev = failing_driver(0);
    assert!(matches!(dev.enable_rgbc(), Err(Error::I2C(7))));
    dev.enable().unwrap();
    let bus = dev.destroy();
    assert_eq!(bus.attempts, 2);
    assert_eq!(bus.writes, vec![vec![Register::ENABLE, 0x01]]);
}

#[test]
fn enable_then_interrupts_end_to_end() {
    let mut dev = driver();
    dev.enable().unwrap();
    dev.enable_rgbc_interrupts().unwrap();
    dev.disable_wait().unwrap();
    assert_eq!(
        writes(dev),
        vec![
            vec![Register::ENABLE, 0x01],
            vec![Register::ENABLE, 0x11],
            vec![Register::ENABLE, 0x11],
        ]
    );
}

#[test]
fn wait_cycles_encoding() {
    let mut dev = driver();
    dev.set_wait_cycles(256).unwrap();
    dev.set_wait_cycles(1).unwrap();
    dev.set_wait_cycles(100).unwrap();
    assert_eq!(
        writes(dev),
        vec![
            vec![Register::WTIME, 0x00],
            vec![Register::WTIME, 0xFF],
            vec![Register::WTIME, 156],
        ]
    );
}

#[test]
fn wait_cycles_out_of_range() {
    let mut dev = driver();
    assert!(matches!(dev.set_wait_cycles(0), Err(Error::InvalidInputData)));
    assert!(matches!(dev.set_wait_cycles(257), Err(Error::InvalidInputData)));
    assert!(matches!(dev.set_wait_cycles(u16::MAX), Err(Error::InvalidInputData)));
    let bus = dev.destroy();
    assert_eq!(bus.attempts, 0);
}

#[test]
fn wait_cycles_bus_error() {
    let mut dev = failing_driver(0);
    assert!(matches!(dev.set_wait_cycles(10), Err(Error::I2C(7))));
}

#[test]
fn integration_cycles_encoding() {
    let mut dev = driver();
    dev.set_integration_cycles(256).unwrap();
    dev.set_integration_cycles(1).unwrap();
    dev.set_integration_cycles(64).unwrap();
    assert_eq!(
        writes(dev),
        vec![
            vec![Register::ATIME, 0x00],
            vec![Register::ATIME, 0xFF],
            vec![Register::ATIME, 0xC0],
        ]
    );
}

#[test]
fn integration_cycles_out_of_range() {
    let mut dev = driver();
    assert!(matches!(dev.set_integration_cycles(0), Err(Error::InvalidInputData)));
    assert!(matches!(dev.set_integration_cycles(257), Err(Error::InvalidInputData)));
    assert_eq!(dev.destroy().attempts, 0);
}

#[test]
fn wait_long_overwrites_config() {
    let mut dev = driver();
    dev.enable_wait_long().unwrap();
    dev.disable_wait_long().unwrap();
    assert_eq!(
        writes(dev),
        vec![vec![Register::CONFIG, BitFlags::WLONG], vec![Register::CONFIG, 0x00]]
    );
}

#[test]
fn gain_codes() {
    let mut dev = driver();
    dev.set_rgbc_gain(RgbCGain::_1x).unwrap();
    dev.set_rgbc_gain(RgbCGain::_4x).unwrap();
    dev.set_rgbc_gain(RgbCGain::_16x).unwrap();
    dev.set_rgbc_gain(RgbCGain::_60x).unwrap();
    assert_eq!(
        writes(dev),
        vec![
            vec![Register::CONTROL, 0],
            vec![Register::CONTROL, 1],
            vec![Register::CONTROL, 2],
            vec![Register::CONTROL, 3],
        ]
    );
}

#[test]
fn persistence_codes_in_order() {
    let levels = [
        IP::Every, IP::Any, IP::_2, IP::_3, IP::_5, IP::_10, IP::_15, IP::_20, IP::_25, IP::_30,
        IP::_35, IP::_40, IP::_45, IP::_50, IP::_55, IP::_60,
    ];
    let mut dev = driver();
    for level in levels {
        dev.set_rgbc_interrupt_persistence(level).unwrap();
    }
    let expected: Vec<Vec<u8>> = (0u8..16).map(|code| vec![Register::APERS, code]).collect();
    assert_eq!(writes(dev), expected);
}

#[test]
fn low_threshold_split() {
    let mut dev = driver();
    dev.set_rgbc_interrupt_low_threshold(0x1234).unwrap();
    dev.set_rgbc_interrupt_low_threshold(0xFFFF).unwrap();
    dev.set_rgbc_interrupt_low_threshold(0).unwrap();
    assert_eq!(
        writes(dev),
        vec![
            vec![Register::AILTL, 0x34],
            vec![Register::AILTH, 0x12],
            vec![Register::AILTL, 0xFF],
            vec![Register::AILTH, 0xFF],
            vec![Register::AILTL, 0x00],
            vec![Register::AILTH, 0x00],
        ]
    );
}

#[test]
fn high_threshold_split() {
    let mut dev = driver();
    dev.set_rgbc_interrupt_high_threshold(0xABCD).unwrap();
    assert_eq!(writes(dev), vec![vec![Register::AIHTL, 0xCD], vec![Register::AIHTH, 0xAB]]);
}

#[test]
fn threshold_stops_after_failed_low_byte() {
    let mut dev = failing_driver(0);
    assert!(matches!(dev.set_rgbc_interrupt_high_threshold(0x0102), Err(Error::I2C(7))));
    let bus = dev.destroy();
    assert_eq!(bus.attempts, 1);
    assert!(bus.writes.is_empty());
}

#[test]
fn threshold_reports_failed_high_byte() {
    let mut dev = failing_driver(1);
    assert!(matches!(dev.set_rgbc_interrupt_low_threshold(0x0102), Err(Error::I2C(7))));
    let bus = dev.destroy();
    assert_eq!(bus.attempts, 2);
    assert_eq!(bus.writes, vec![vec![Register::AILTL, 0x02]]);
}
