use std::cell::RefCell;
use std::rc::Rc;

use bq24195::{
    bus_result, Bq24195, Error, I2cWrite, I2cWriteRead, InputSourceControl, MiscOperationControl,
    PowerOnConfiguration, Register, VbusStatus, Watchdog, ADDRESS,
};

/// What the bus saw: writes as (address, bytes), reads as (address, bytes, buffer length).
#[derive(Default)]
struct Seen {
    writes: Vec<(u8, Vec<u8>)>,
    reads: Vec<(u8, Vec<u8>, usize)>,
}

/// A bus that records what it is sent and answers reads with a fixed byte.
struct MockBus {
    seen: Rc<RefCell<Seen>>,
    answer: u8,
    failing: bool,
}

fn mock(answer: u8, failing: bool) -> (MockBus, Rc<RefCell<Seen>>) {
    let seen = Rc::new(RefCell::new(Seen::default()));
    (MockBus { seen: seen.clone(), answer, failing }, seen)
}

#[derive(Debug, PartialEq)]
struct BusFault(u8);

impl I2cWrite for MockBus {
    type Error = BusFault;

    fn write(&mut self, address: u8, bytes: &[u8]) -> Result<(), BusFault> {
        self.seen.borrow_mut().writes.push((address, bytes.to_vec()));
        if self.failing {
            Err(BusFault(1))
        } else {
            Ok(())
        }
    }
}

impl I2cWriteRead for MockBus {
    fn write_read(&mut self, address: u8, bytes: &[u8], buffer: &mut [u8]) -> Result<(), BusFault> {
        self.seen.borrow_mut().reads.push((address, bytes.to_vec(), buffer.len()));
        if self.failing {
            return Err(BusFault(2));
        }
        for b in buffer.iter_mut() {
            *b = self.answer;
        }
        Ok(())
    }
}

#[test]
fn register_addresses() {
    assert_eq!(ADDRESS, 0x6B);
    assert_eq!(Register::InputSourceControl.address(), 0x00);
    assert_eq!(Register::PowerOnConfiguration.address(), 0x01);
    assert_eq!(Register::ThermalRegulationControl.address(), 0x06);
    assert_eq!(Register::MiscOperationControl.address(), 0x07);
    assert_eq!(Register::SystemStatus.address(), 0x08);
    assert_eq!(Register::Fault.address(), 0x09);
    assert_eq!(Register::VendorPartRevisionStatus.address(), 0x0A);
}

#[test]
fn set_input_source_control_writes_one_transaction() {
    let (bus, seen) = mock(0, false);
    let mut bq = Bq24195::new(bus);
    assert!(bq.set_input_source_control(InputSourceControl::default()).is_ok());
    assert_eq!(seen.borrow().writes, vec![(0x6B, vec![0x00, 0b0011_0000])]);
    assert!(seen.borrow().reads.is_empty());
}

#[test]
fn set_power_on_configuration_and_misc_operation_control_write_their_registers() {
    let (bus, seen) = mock(0, false);
    let mut bq = Bq24195::new(bus);
    assert!(bq.set_power_on_configuration(PowerOnConfiguration::default()).is_ok());
    assert!(bq.set_misc_operation_control(MiscOperationControl::default()).is_ok());
    assert_eq!(
        seen.borrow().writes,
        vec![(0x6B, vec![0x01, 0b0001_1011]), (0x6B, vec![0x07, 0b0000_1011])]
    );
}

#[test]
fn system_status_reads_one_byte_from_its_register() {
    let (bus, seen) = mock(0b01_000000, false);
    let mut bq = Bq24195::new(bus);
    let status = bq.system_status().ok().unwrap();
    assert_eq!(status.raw(), 0b0100_0000);
    assert_eq!(status.vbus_status(), VbusStatus::UsbHost);
    assert_eq!(seen.borrow().reads, vec![(0x6B, vec![0x08], 1)]);
    assert!(seen.borrow().writes.is_empty());
}

#[test]
fn fault_reads_one_byte_from_its_register() {
    let (bus, seen) = mock(0b1000_0000, false);
    let mut bq = Bq24195::new(bus);
    let fault = bq.fault().ok().unwrap();
    assert_eq!(fault.watchdog(), Watchdog::Expired);
    assert_eq!(seen.borrow().reads, vec![(0x6B, vec![0x09], 1)]);
}

#[test]
fn bus_failures_come_back_as_i2c_errors() {
    let (bus, seen) = mock(0, true);
    let mut bq = Bq24195::new(bus);
    assert!(matches!(
        bq.set_input_source_control(InputSourceControl::default()),
        Err(Error::I2C(BusFault(1)))
    ));
    assert!(matches!(bq.system_status(), Err(Error::I2C(BusFault(2)))));
    assert!(matches!(bq.fault(), Err(Error::I2C(BusFault(2)))));
    assert_eq!(seen.borrow().writes.len(), 1);
    assert_eq!(seen.borrow().reads.len(), 2);
}

#[test]
fn bus_result_wraps_the_bus_error() {
    assert!(matches!(bus_result::<u8, BusFault>(Ok(7)), Ok(7)));
    assert!(matches!(bus_result::<u8, BusFault>(Err(BusFault(3))), Err(Error::I2C(BusFault(3)))));
}
