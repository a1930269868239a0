use std::cell::RefCell;
use std::rc::Rc;

use rht_driver::driver::{Bus, Datum, DelayProvider, Driver, DriverState};
use rht_driver::error::{BusError, DriverError};
use rht_driver::protocol::{AutoReadTarget, HeaterLevel, I2cAddr, LowPowerMode, SampleRate};

struct SimBus {
    responses: Rc<RefCell<Vec<Vec<u8>>>>,
    writes: Rc<RefCell<Vec<(u8, Vec<u8>)>>>,
    fail: bool,
}

impl Bus for SimBus {
    fn write(&mut self, addr: u8, data: &[u8]) -> Result<(), BusError> {
        if self.fail {
            return Err(BusError);
        }
        self.writes.borrow_mut().push((addr, data.to_vec()));
        Ok(())
    }

    fn write_then_read(&mut self, addr: u8, data: &[u8], n: usize) -> Result<Vec<u8>, BusError> {
        if self.fail {
            return Err(BusError);
        }
        self.writes.borrow_mut().push((addr, data.to_vec()));
        let mut queue = self.responses.borrow_mut();
        if queue.is_empty() {
            return Err(BusError);
        }
        let r = queue.remove(0);
        assert_eq!(r.len(), n, "simulated response length must match the request");
        Ok(r)
    }
}

struct SimDelay {
    total_ms: Rc<RefCell<u32>>,
}

impl DelayProvider for SimDelay {
    fn delay_ms(&mut self, ms: u32) {
        *self.total_ms.borrow_mut() += ms;
    }
}

struct Rig {
    responses: Rc<RefCell<Vec<Vec<u8>>>>,
    writes: Rc<RefCell<Vec<(u8, Vec<u8>)>>>,
    total_ms: Rc<RefCell<u32>>,
    driver: Driver<SimBus, SimDelay>,
}

fn rig(responses: Vec<Vec<u8>>, fail: bool) -> Rig {
    let responses = Rc::new(RefCell::new(responses));
    let writes = Rc::new(RefCell::new(Vec::new()));
    let total_ms = Rc::new(RefCell::new(0));
    let bus = SimBus {
        responses: Rc::clone(&responses),
        writes: Rc::clone(&writes),
        fail,
    };
    let delay = SimDelay {
        total_ms: Rc::clone(&total_ms),
    };
    let driver = Driver::new(bus, delay, I2cAddr::Addr00);
    Rig {
        responses,
        writes,
        total_ms,
        driver,
    }
}

#[test]
fn one_shot_lpm0_decodes_simulated_measurement() {
    let mut r = rig(vec![vec![0x66, 0x66, 0x93, 0x80, 0x00, 0xa2]], false);
    let datum = r.driver.one_shot(LowPowerMode::LPM0).unwrap();
    assert_eq!(
        datum,
        Datum::TempAndRelHumid {
            temp_raw: 0x6666,
            humid_raw: 0x8000,
        }
    );
    let writes = r.writes.borrow();
    assert_eq!(writes[0], (0x44, vec![0x24, 0x00]));
    assert_eq!(writes[1], (0x44, vec![]));
    assert_eq!(*r.total_ms.borrow(), 13);
    assert!(r.responses.borrow().is_empty());

    // physical units of the raw pair, per the datasheet formulas
    let celsius = -45.0 + 175.0 * (0x6666 as f32) / 65536.0;
    let fahrenheit = -49.0 + 315.0 * (0x6666 as f32) / 65536.0;
    let humidity = 100.0 * (0x8000 as f32) / 65536.0;
    assert!((celsius - 25.0).abs() < 0.01);
    assert!((fahrenheit - 77.0).abs() < 0.01);
    assert!((humidity - 50.0).abs() < 1e-6);
    assert!((fahrenheit - (celsius * 9.0 / 5.0 + 32.0)).abs() < 0.01);
}

#[test]
fn one_shot_waits_longest_for_lowest_noise() {
    let resp = vec![0x66, 0x66, 0x93, 0x80, 0x00, 0xa2];
    let mut waits = Vec::new();
    for mode in [
        LowPowerMode::LPM0,
        LowPowerMode::LPM1,
        LowPowerMode::LPM2,
        LowPowerMode::LPM3,
    ] {
        let mut r = rig(vec![resp.clone()], false);
        r.driver.one_shot(mode).unwrap();
        waits.push(*r.total_ms.borrow());
    }
    assert!(waits[0] > waits[1] && waits[1] > waits[2] && waits[2] > waits[3]);
}

#[test]
fn one_shot_rejects_corrupted_checksum() {
    let mut r = rig(vec![vec![0x66, 0x66, 0x94, 0x80, 0x00, 0xa2]], false);
    assert_eq!(
        r.driver.one_shot(LowPowerMode::LPM0),
        Err(DriverError::ChecksumMismatch)
    );
}

#[test]
fn one_shot_propagates_bus_error() {
    let mut r = rig(vec![], true);
    assert_eq!(
        r.driver.one_shot(LowPowerMode::LPM0),
        Err(DriverError::Bus(BusError))
    );
}

#[test]
fn enter_then_exit_auto_reads_back_idle() {
    let mut r = rig(vec![], false);
    assert_eq!(r.driver.state(), DriverState::Idle);
    r.driver
        .enter_auto(SampleRate::Auto1Hz, LowPowerMode::LPM1)
        .unwrap();
    assert_eq!(r.driver.state(), DriverState::AutoSampling(SampleRate::Auto1Hz));
    r.driver.exit_auto().unwrap();
    assert_eq!(r.driver.state(), DriverState::Idle);
    let writes = r.writes.borrow();
    assert_eq!(writes[0], (0x44, vec![0x21, 0x26]));
    assert_eq!(writes[1], (0x44, vec![0x30, 0x93]));
}

#[test]
fn exit_auto_while_idle_is_idempotent() {
    let mut r = rig(vec![], false);
    assert_eq!(r.driver.state(), DriverState::Idle);
    assert_eq!(r.driver.exit_auto(), Ok(()));
    assert_eq!(r.driver.state(), DriverState::Idle);
}

#[test]
fn enter_auto_keeps_state_on_bus_error() {
    let mut r = rig(vec![], true);
    assert_eq!(
        r.driver.enter_auto(SampleRate::Auto4Hz, LowPowerMode::LPM0),
        Err(DriverError::Bus(BusError))
    );
    assert_eq!(r.driver.state(), DriverState::Idle);
}

#[test]
fn read_manufacturer_id_texas_instruments() {
    let mut r = rig(vec![vec![0x30, 0x00, 0x33]], false);
    assert_eq!(r.driver.read_manufacturer_id(), Ok(0x3000));
    let writes = r.writes.borrow();
    assert_eq!(writes[0], (0x44, vec![0x37, 0x81]));
}

#[test]
fn read_manufacturer_id_surfaces_unexpected_value() {
    let mut r = rig(vec![vec![0x30, 0x01, 0x02]], false);
    assert_eq!(
        r.driver.read_manufacturer_id(),
        Err(DriverError::UnexpectedValue(0x3001))
    );
}

#[test]
fn read_manufacturer_id_rejects_corrupt_checksum() {
    let mut r = rig(vec![vec![0x30, 0x00, 0x34]], false);
    assert_eq!(
        r.driver.read_manufacturer_id(),
        Err(DriverError::ChecksumMismatch)
    );
}

#[test]
fn read_serial_number_concatenates_segments() {
    let mut r = rig(
        vec![
            vec![0x12, 0x34, 0x37],
            vec![0x56, 0x78, 0x7d],
            vec![0x9a, 0xbc, 0xe0],
        ],
        false,
    );
    assert_eq!(r.driver.read_serial_number(), Ok(0x1234_5678_9abc));
    let writes = r.writes.borrow();
    assert_eq!(writes[0], (0x44, vec![0x36, 0x83]));
    assert_eq!(writes[1], (0x44, vec![0x36, 0x84]));
    assert_eq!(writes[2], (0x44, vec![0x36, 0x85]));
}

#[test]
fn read_serial_number_rejects_any_corrupt_segment() {
    let mut r = rig(
        vec![
            vec![0x12, 0x34, 0x37],
            vec![0x56, 0x78, 0x7e],
            vec![0x9a, 0xbc, 0xe0],
        ],
        false,
    );
    assert_eq!(
        r.driver.read_serial_number(),
        Err(DriverError::ChecksumMismatch)
    );
}

#[test]
fn read_status_decodes_flags_and_clears_best_effort() {
    let mut r = rig(vec![vec![0xa0, 0x10, 0x3d]], false);
    let s = r.driver.read_status(true).unwrap();
    assert!(s.at_least_one_alert);
    assert!(s.heater_enabled);
    assert!(s.reset_since_clear);
    assert!(!s.rh_tracking_alert);
    assert!(!s.t_tracking_alert);
    assert!(!s.rh_high_tracking_alert);
    assert!(!s.rh_low_tracking_alert);
    assert!(!s.t_high_tracking_alert);
    assert!(!s.t_low_tracking_alert);
    assert!(!s.checksum_failure);
    let writes = r.writes.borrow();
    assert_eq!(writes[0], (0x44, vec![0xf3, 0x2d]));
    assert_eq!(writes[1], (0x44, vec![0x30, 0x41]));
}

#[test]
fn read_status_without_clear_writes_no_clear_command() {
    let mut r = rig(vec![vec![0xa0, 0x10, 0x3d]], false);
    r.driver.read_status(false).unwrap();
    assert_eq!(r.writes.borrow().len(), 1);
}

#[test]
fn read_auto_last_pair() {
    let mut r = rig(vec![vec![0x66, 0x66, 0x93, 0x80, 0x00, 0xa2]], false);
    let datum = r
        .driver
        .read_auto(AutoReadTarget::LastTempAndRelHumid)
        .unwrap();
    assert_eq!(
        datum,
        Datum::TempAndRelHumid {
            temp_raw: 0x6666,
            humid_raw: 0x8000,
        }
    );
    assert_eq!(r.writes.borrow()[0], (0x44, vec![0xe0, 0x00]));
}

#[test]
fn read_auto_min_temp() {
    let mut r = rig(vec![vec![0x08, 0x01, 0x87]], false);
    assert_eq!(
        r.driver.read_auto(AutoReadTarget::MinTemp),
        Ok(Datum::MinTemp(0x0801))
    );
    assert_eq!(r.writes.borrow()[0], (0x44, vec![0xe0, 0x02]));
}

#[test]
fn read_auto_max_temp_min_and_max_humidity_commands() {
    let mut r = rig(
        vec![
            vec![0x08, 0x01, 0x87],
            vec![0x08, 0x01, 0x87],
            vec![0x08, 0x01, 0x87],
        ],
        false,
    );
    assert_eq!(
        r.driver.read_auto(AutoReadTarget::MaxTemp),
        Ok(Datum::MaxTemp(0x0801))
    );
    assert_eq!(
        r.driver.read_auto(AutoReadTarget::MinRelHumid),
        Ok(Datum::MinRelHumid(0x0801))
    );
    assert_eq!(
        r.driver.read_auto(AutoReadTarget::MaxRelHumid),
        Ok(Datum::MaxRelHumid(0x0801))
    );
    let writes = r.writes.borrow();
    assert_eq!(writes[0], (0x44, vec![0xe0, 0x03]));
    assert_eq!(writes[1], (0x44, vec![0xe0, 0x04]));
    assert_eq!(writes[2], (0x44, vec![0xe0, 0x05]));
}

#[test]
fn set_heater_off_writes_disable_only() {
    let mut r = rig(vec![], false);
    r.driver.set_heater(HeaterLevel::Off).unwrap();
    let writes = r.writes.borrow();
    assert_eq!(writes.len(), 1);
    assert_eq!(writes[0], (0x44, vec![0x30, 0x66]));
}

#[test]
fn set_heater_on25_configures_then_enables() {
    let mut r = rig(vec![], false);
    r.driver.set_heater(HeaterLevel::On25Percent).unwrap();
    let writes = r.writes.borrow();
    assert_eq!(writes.len(), 2);
    assert_eq!(writes[0], (0x44, vec![0x30, 0x6e, 0x00, 0x9f, 0x96]));
    assert_eq!(writes[1], (0x44, vec![0x30, 0x6d]));
}

#[test]
fn soft_reset_writes_command_and_reads_back_idle() {
    let mut r = rig(vec![], false);
    r.driver
        .enter_auto(SampleRate::Auto10Hz, LowPowerMode::LPM3)
        .unwrap();
    assert_eq!(
        r.driver.state(),
        DriverState::AutoSampling(SampleRate::Auto10Hz)
    );
    r.driver.soft_reset().unwrap();
    assert_eq!(r.driver.state(), DriverState::Idle);
    let writes = r.writes.borrow();
    assert_eq!(writes[1], (0x44, vec![0x30, 0xa2]));
}

#[test]
fn driver_uses_its_configured_address() {
    let responses = Rc::new(RefCell::new(vec![vec![0x30, 0x00, 0x33]]));
    let writes = Rc::new(RefCell::new(Vec::new()));
    let bus = SimBus {
        responses: Rc::clone(&responses),
        writes: Rc::clone(&writes),
        fail: false,
    };
    let delay = SimDelay {
        total_ms: Rc::new(RefCell::new(0)),
    };
    let mut driver = Driver::new(bus, delay, I2cAddr::Addr11);
    assert_eq!(driver.addr(), I2cAddr::Addr11);
    driver.read_manufacturer_id().unwrap();
    assert_eq!(writes.borrow()[0].0, 0x47);
}
