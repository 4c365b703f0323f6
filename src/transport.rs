//! Transport adapter: moves whole register bytes between the driver and the
//! charger over a blocking I2C bus.
//!
//! The bus is a port that the caller supplies: anything that can write bytes
//! to a 7-bit address, and write then read in one transaction. The driver
//! keeps a ghost record of the transactions it issued and of what the bus
//! returned to each, so that each operation's contract can say exactly what
//! went out on the bus and how the bus's answer, or its error, became the
//! result.

use crate::bits::bit_range_of;
use crate::codec::VbusStatus;
use crate::registers::{
    Fault, InputSourceControl, MiscOperationControl, PowerOnConfiguration, SystemStatus,
};
use vstd::prelude::*;

verus! {

/// The charger's 7-bit bus address.
pub const ADDRESS: u8 = 0x6B;

/// The charger's registers.
pub enum Register {
    InputSourceControl,
    PowerOnConfiguration,
    ChargeCurrentControl,
    PreChargeTerminationCurrentControl,
    ChargeVoltageControl,
    ChargeTerminationTimerControl,
    ThermalRegulationControl,
    MiscOperationControl,
    SystemStatus,
    Fault,
    VendorPartRevisionStatus,
}

impl Register {
    /// The register's address on the chip.
    pub open spec fn spec_address(self) -> u8 {
        match self {
            Register::InputSourceControl => 0x00,
            Register::PowerOnConfiguration => 0x01,
            Register::ChargeCurrentControl => 0x02,
            Register::PreChargeTerminationCurrentControl => 0x03,
            Register::ChargeVoltageControl => 0x04,
            Register::ChargeTerminationTimerControl => 0x05,
            Register::ThermalRegulationControl => 0x06,
            Register::MiscOperationControl => 0x07,
            Register::SystemStatus => 0x08,
            Register::Fault => 0x09,
            Register::VendorPartRevisionStatus => 0x0A,
        }
    }

    /// The register's address on the chip.
    pub fn address(self) -> (r: u8)
        ensures
            r == self.spec_address(),
    {
        match self {
            Register::InputSourceControl => 0x00,
            Register::PowerOnConfiguration => 0x01,
            Register::ChargeCurrentControl => 0x02,
            Register::PreChargeTerminationCurrentControl => 0x03,
            Register::ChargeVoltageControl => 0x04,
            Register::ChargeTerminationTimerControl => 0x05,
            Register::ThermalRegulationControl => 0x06,
            Register::MiscOperationControl => 0x07,
            Register::SystemStatus => 0x08,
            Register::Fault => 0x09,
            Register::VendorPartRevisionStatus => 0x0A,
        }
    }
}

/// A bus that can write bytes to a device (embedded-hal's blocking I2C `Write`).
pub trait I2cWrite {
    /// The bus's own error.
    type Error;

    /// Sends `bytes` to the device at the 7-bit `address`.
    fn write(&mut self, address: u8, bytes: &[u8]) -> Result<(), Self::Error>;
}

/// A bus that can also write bytes and then read bytes in one transaction
/// (embedded-hal's blocking I2C `WriteRead`), failing with the same error.
pub trait I2cWriteRead: I2cWrite {
    /// Sends `bytes` to the device at the 7-bit `address`, then fills
    /// `buffer` from it.
    fn write_read(&mut self, address: u8, bytes: &[u8], buffer: &mut [u8]) -> Result<
        (),
        Self::Error,
    >;
}

/// A failed bus transaction, carrying the bus's own error.
#[derive(Debug)]
pub enum Error<E> {
    I2C(E),
}

/// What the driver returns for what the bus returned: success as it is, a
/// bus error wrapped in [`Error::I2C`].
pub open spec fn spec_bus_result<T, E>(sent: Result<T, E>) -> Result<T, Error<E>> {
    match sent {
        Ok(v) => Ok(v),
        Err(e) => Err(Error::I2C(e)),
    }
}

/// What the bus returned, given what the driver returned: the inverse of
/// [`spec_bus_result`].
pub open spec fn spec_bus_outcome<T, E>(r: Result<T, Error<E>>) -> Result<T, E> {
    match r {
        Ok(v) => Ok(v),
        Err(Error::I2C(e)) => Err(e),
    }
}

/// Passes a bus result through: success as it is, a bus error wrapped in
/// [`Error::I2C`].
pub fn bus_result<T, E>(sent: Result<T, E>) -> (r: Result<T, Error<E>>)
    ensures
        r == spec_bus_result(sent),
        spec_bus_outcome(r) == sent,
{
    match sent {
        Ok(v) => Ok(v),
        Err(e) => Err(Error::I2C(e)),
    }
}

/// One bus transaction that the driver issued, with what the bus returned.
pub enum Transaction<E> {
    /// `bytes` written to `address`; `written` is the bus's result.
    Write { address: u8, bytes: Seq<u8>, written: Result<(), E> },
    /// `bytes` written to `address`, then a read from it; `read` holds the
    /// bytes read, or the bus's error.
    WriteRead { address: u8, bytes: Seq<u8>, read: Result<Seq<u8>, E> },
}

/// The bytes in `buffer` where the bus reported success, else its error.
pub open spec fn spec_filled<E>(received: Result<(), E>, buffer: Seq<u8>) -> Result<Seq<u8>, E> {
    match received {
        Ok(_) => Ok(buffer),
        Err(e) => Err(e),
    }
}

/// What a register read reports as the bus's outcome: the one byte read, or
/// the bus's error.
pub open spec fn spec_read_outcome<E>(r: Result<u8, Error<E>>) -> Result<Seq<u8>, E> {
    match r {
        Ok(v) => Ok(seq![v]),
        Err(Error::I2C(e)) => Err(e),
    }
}

/// What a system status read reports as the bus's outcome: the byte that the
/// status holds, or the bus's error.
pub open spec fn spec_status_read<E>(r: Result<SystemStatus, Error<E>>) -> Result<Seq<u8>, E> {
    match r {
        Ok(status) => Ok(seq![status@]),
        Err(Error::I2C(e)) => Err(e),
    }
}

/// Whatever byte `b` the bus returns to a system status read, the read
/// succeeds with a status that holds `b`, and its VBUS status is the one
/// that bits 7..=6 of `b` encode.
pub proof fn lemma_status_read_reflects_byte<E>(r: Result<SystemStatus, Error<E>>, b: u8)
    requires
        spec_status_read(r) == Ok::<Seq<u8>, E>(seq![b]),
    ensures
        r matches Ok(status) && status@ == b && status.spec_vbus_status()
            == VbusStatus::spec_from_bits(b / 64),
{
    let status = r->Ok_0;
    assert(seq![status@][0] == seq![b][0]);
    assert(bit_range_of(b, 7, 6) == b / 64) by (bit_vector);
}

/// Driver for a BQ24195 charger on an I2C bus that it owns.
pub struct Bq24195<I2C: I2cWrite> {
    i2c: I2C,
    sent: Ghost<Seq<Transaction<I2C::Error>>>,
}

impl<I2C: I2cWrite> Bq24195<I2C> {
    /// The transactions issued so far, oldest first, with what the bus
    /// returned for each.
    pub closed spec fn transactions(&self) -> Seq<Transaction<I2C::Error>> {
        self.sent@
    }

    /// The bus that the driver owns.
    pub closed spec fn bus(&self) -> I2C {
        self.i2c
    }

    /// Create a new driver instance.
    ///
    /// i2c: An i2c bus connected to the Bq24195 chip. Bq24195 supports both
    /// 400khz and 100khz operation.
    pub fn new(i2c: I2C) -> (r: Self)
        ensures
            r.bus() == i2c,
            r.transactions() == Seq::<Transaction<I2C::Error>>::empty(),
    {
        Bq24195 { i2c, sent: Ghost(Seq::empty()) }
    }

    /// Writes the input source control register (`0x00`): one write of
    /// `[0x00, byte]`; a bus error comes back as [`Error::I2C`].
    pub fn set_input_source_control(&mut self, input_source_control: InputSourceControl) -> (r:
        Result<(), Error<I2C::Error>>)
        ensures
            final(self).transactions() == old(self).transactions().push(
                Transaction::Write {
                    address: 0x6B,
                    bytes: seq![0x00, input_source_control@],
                    written: spec_bus_outcome(r),
                },
            ),
    {
        self.write_register(Register::InputSourceControl, input_source_control.raw())
    }

    /// Writes the power-on configuration register (`0x01`): one write of
    /// `[0x01, byte]`; a bus error comes back as [`Error::I2C`].
    pub fn set_power_on_configuration(&mut self, power_on_configuration: PowerOnConfiguration) -> (r:
        Result<(), Error<I2C::Error>>)
        ensures
            final(self).transactions() == old(self).transactions().push(
                Transaction::Write {
                    address: 0x6B,
                    bytes: seq![0x01, power_on_configuration@],
                    written: spec_bus_outcome(r),
                },
            ),
    {
        self.write_register(Register::PowerOnConfiguration, power_on_configuration.raw())
    }

    /// Writes the misc operation control register (`0x07`): one write of
    /// `[0x07, byte]`; a bus error comes back as [`Error::I2C`].
    pub fn set_misc_operation_control(&mut self, misc_operation_control: MiscOperationControl) -> (r:
        Result<(), Error<I2C::Error>>)
        ensures
            final(self).transactions() == old(self).transactions().push(
                Transaction::Write {
                    address: 0x6B,
                    bytes: seq![0x07, misc_operation_control@],
                    written: spec_bus_outcome(r),
                },
            ),
    {
        self.write_register(Register::MiscOperationControl, misc_operation_control.raw())
    }

    /// Sends the register's address and `value` in one write, and passes the
    /// bus's result through.
    fn write_register(&mut self, register: Register, value: u8) -> (r: Result<(), Error<I2C::Error>>)
        ensures
            final(self).transactions() == old(self).transactions().push(
                Transaction::Write {
                    address: 0x6B,
                    bytes: seq![register.spec_address(), value],
                    written: spec_bus_outcome(r),
                },
            ),
    {
        let bytes: [u8; 2] = [register.address(), value];
        let sent = self.i2c.write(ADDRESS, &bytes);
        assert(bytes@ =~= seq![register.spec_address(), value]);
        self.sent = Ghost(
            self.sent@.push(Transaction::Write { address: ADDRESS, bytes: bytes@, written: sent }),
        );
        bus_result(sent)
    }
}

impl<I2C: I2cWriteRead> Bq24195<I2C> {
    /// Reads the system status register (`0x08`): one write of `[0x08]`
    /// followed by a one-byte read; the status holds the byte read, and a bus
    /// error comes back as [`Error::I2C`].
    pub fn system_status(&mut self) -> (r: Result<SystemStatus, Error<I2C::Error>>)
        ensures
            final(self).transactions() == old(self).transactions().push(
                Transaction::WriteRead {
                    address: 0x6B,
                    bytes: seq![0x08],
                    read: spec_status_read(r),
                },
            ),
    {
        match self.read_register(Register::SystemStatus) {
            Ok(val) => Ok(SystemStatus::from_raw(val)),
            Err(e) => Err(e),
        }
    }

    /// Reads the fault register (`0x09`): one write of `[0x09]` followed by a
    /// one-byte read; the fault holds the byte read, and a bus error comes
    /// back as [`Error::I2C`].
    pub fn fault(&mut self) -> (r: Result<Fault, Error<I2C::Error>>)
        ensures
            final(self).transactions() == old(self).transactions().push(
                Transaction::WriteRead {
                    address: 0x6B,
                    bytes: seq![0x09],
                    read: match r {
                        Ok(fault) => Ok(seq![fault@]),
                        Err(Error::I2C(e)) => Err(e),
                    },
                },
            ),
    {
        match self.read_register(Register::Fault) {
            Ok(val) => Ok(Fault::from_raw(val)),
            Err(e) => Err(e),
        }
    }

    /// Sends the register's address, then reads one byte, in one
    /// transaction, and passes the bus's result through.
    fn read_register(&mut self, register: Register) -> (r: Result<u8, Error<I2C::Error>>)
        ensures
            final(self).transactions() == old(self).transactions().push(
                Transaction::WriteRead {
                    address: 0x6B,
                    bytes: seq![register.spec_address()],
                    read: spec_read_outcome(r),
                },
            ),
    {
        let bytes: [u8; 1] = [register.address()];
        let mut data: [u8; 1] = [0; 1];
        let received = self.i2c.write_read(ADDRESS, &bytes, &mut data);
        assert(bytes@ =~= seq![register.spec_address()]);
        assert(data@ =~= seq![data[0]]);
        self.sent = Ghost(
            self.sent@.push(
                Transaction::WriteRead {
                    address: ADDRESS,
                    bytes: bytes@,
                    read: spec_filled(received, data@),
                },
            ),
        );
        bus_result(
            match received {
                Ok(()) => Ok(data[0]),
                Err(e) => Err(e),
            },
        )
    }
}

} // verus!
